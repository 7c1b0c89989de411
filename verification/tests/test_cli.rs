use engai::cli::{
    entry_phrase_note, entry_word_note, join_words, merged_meaning, note_kind_of_dir, prepare_note,
    NoteCommandError, NoteKind,
};

#[test]
fn note_add_checks() {
    let words = vec!["remember".to_string(), "this".to_string()];
    assert_eq!(prepare_note("word", &words).unwrap(), "remember this");
    match prepare_note("song", &words) {
        Err(e @ NoteCommandError::InvalidTargetType(_)) => assert_eq!(
            e.message(),
            "Invalid target_type 'song'. Must be one of: word, phrase, reading"
        ),
        other => panic!("unexpected {:?}", other),
    }
    match prepare_note("reading", &vec![" ".to_string(), "".to_string()]) {
        Err(e @ NoteCommandError::EmptyContent) => assert_eq!(e.message(), "Note content cannot be empty"),
        other => panic!("unexpected {:?}", other),
    }
    assert_eq!(join_words(&vec![]), "");
    assert_eq!(join_words(&vec!["a".to_string(), "b".to_string(), "c".to_string()]), "a b c");
}

#[test]
fn import_directories() {
    assert_eq!(note_kind_of_dir("01_vocab"), Some(NoteKind::Word));
    assert_eq!(note_kind_of_dir("02_phrases"), Some(NoteKind::Phrase));
    assert_eq!(note_kind_of_dir("03_reading"), None);
    assert_eq!(merged_meaning(&None, &Some("old".to_string())), Some("old".to_string()));
    assert_eq!(merged_meaning(&Some("new".to_string()), &Some("old".to_string())), Some("new".to_string()));
}

#[test]
fn entry_notes() {
    let w = entry_word_note("serendipity", &None, 0, 0, None, &None, &None);
    assert_eq!(w.word, "serendipity");
    assert!(w.examples.is_empty() && w.reviews.is_empty());
    assert_eq!(
        w.to_markdown_string(),
        "---\nword: serendipity\nfamiliarity: 0\ninterval: 0\n---\n\n# serendipity\n"
    );
    let e = Some("explained".to_string());
    let p = entry_phrase_note("give up", 1, 2, None, &e, &e);
    assert_eq!(p.meaning, e);
    assert_eq!(p.ai_explanation, e);
}
