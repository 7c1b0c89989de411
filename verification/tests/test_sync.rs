use engai::datetime::DateTime;
use engai::markdown::{MarkdownPhrase, MarkdownWord};
use engai::models::{PhraseSummary, ReviewInfo, WordSummary};
use engai::sync::{
    is_note_file, needs_export, phrase_file_name, phrase_note, plan_sync_import, review_line,
    word_file_name, word_note, StoredStamp, SyncImport,
};

fn day(y: i32, m: u32, d: u32) -> DateTime {
    DateTime { year: y, month: m, day: d, hour: 9, minute: 30, second: 0, nanosecond: 0 }
}

#[test]
fn file_names() {
    assert_eq!(word_file_name("hello"), "hello.md");
    assert_eq!(phrase_file_name("take off"), "take_off.md");
    assert_eq!(phrase_file_name("a b  c"), "a_b__c.md");
    assert!(is_note_file("serendipity.md"));
    assert!(is_note_file("a.b.md"));
    assert!(!is_note_file(".md"));
    assert!(!is_note_file("notes.txt"));
    assert!(!is_note_file("md"));
}

#[test]
fn export_only_when_newer_or_missing() {
    assert!(needs_export(None, 5));
    assert!(needs_export(Some(4), 5));
    assert!(!needs_export(Some(5), 5));
    assert!(!needs_export(Some(6), 5));
}

#[test]
fn import_decisions() {
    assert_eq!(plan_sync_import(10, None, 0, 0), SyncImport::Insert { set_progress: false });
    assert_eq!(plan_sync_import(10, None, 2, 0), SyncImport::Insert { set_progress: true });
    let e = StoredStamp { id: 7, updated: 9 };
    assert_eq!(plan_sync_import(10, Some(e), 0, 0), SyncImport::Update { id: 7 });
    assert_eq!(plan_sync_import(9, Some(e), 0, 0), SyncImport::Skip);
}

#[test]
fn review_lines() {
    let r = ReviewInfo { reviewed_at: day(2026, 3, 20), quality: 4 };
    assert_eq!(review_line(&r), "2026-03-20: quality 4");
}

#[test]
fn stored_word_note() {
    let w = WordSummary {
        id: 1,
        word: "hello".to_string(),
        phonetic: Some("/həˈloʊ/".to_string()),
        familiarity: 1,
        interval: 3,
        next_review: Some(day(2026, 4, 1)),
        meaning: Some("a greeting".to_string()),
        updated_at: day(2026, 3, 1),
    };
    let reviews = vec![ReviewInfo { reviewed_at: day(2026, 3, 25), quality: 5 }];
    let md: MarkdownWord = word_note(&w, vec!["Hello there.".to_string()], vec![], &reviews);
    assert_eq!(md.word, "hello");
    assert_eq!(md.meaning.as_deref(), Some("a greeting"));
    assert_eq!(md.examples, vec!["Hello there.".to_string()]);
    assert!(md.synonyms.is_empty());
    assert_eq!(md.reviews, vec!["2026-03-25: quality 5".to_string()]);
    let text = md.to_markdown_string();
    assert!(text.contains("next_review: 2026-04-01 09:30:00"));
    let back = MarkdownWord::parse(&text).unwrap();
    assert_eq!(back.reviews, md.reviews);
    assert_eq!(back.next_review, w.next_review);
}

#[test]
fn stored_phrase_note() {
    let p = PhraseSummary {
        id: 2,
        phrase: "take off".to_string(),
        familiarity: 0,
        interval: 0,
        next_review: None,
        meaning: Some("to leave the ground (for aircraft)".to_string()),
        updated_at: day(2026, 3, 1),
    };
    let md: MarkdownPhrase = phrase_note(&p, vec![], vec!["note".to_string()], &vec![]);
    assert_eq!(md.phrase, "take off");
    assert_eq!(md.my_notes, vec!["note".to_string()]);
    assert!(md.reviews.is_empty());
    let back = MarkdownPhrase::parse(&md.to_markdown_string()).unwrap();
    assert_eq!(back.meaning.as_deref(), Some("to leave the ground (for aircraft)"));
}
