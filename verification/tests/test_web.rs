use engai::chat::{chat_conversation, chat_stream_step, error_frame, ChatMessage, StreamAction, StreamEvent};
use engai::db::{apply_word_changes, like_pattern, list_query, ListTable, WordChanges, WordRow};
use engai::routes::phrases::phrase_subject;
use engai::routes::reviews::ReviewSubmit;
use engai::routes::words::ListParams;

#[test]
fn list_pages() {
    let p = ListParams { search: None, familiarity_gte: None, limit: None, offset: None };
    assert_eq!(p.page(), (50, 0));
    let p = engai::routes::readings::ListParams { limit: Some(5), offset: Some(10) };
    assert_eq!(p.page(), (5, 10));
}

#[test]
fn list_sql() {
    assert_eq!(
        list_query(ListTable::Words, true, true),
        "SELECT * FROM words WHERE 1=1 AND word LIKE ? AND familiarity >= ? ORDER BY updated_at DESC LIMIT ? OFFSET ?"
    );
    assert_eq!(
        list_query(ListTable::Phrases, false, false),
        "SELECT * FROM phrases WHERE 1=1 ORDER BY updated_at DESC LIMIT ? OFFSET ?"
    );
    assert_eq!(like_pattern("ell"), "%ell%");
}

#[test]
fn review_submission() {
    assert!(ReviewSubmit { quality: 7 }.check("word").is_err());
    assert!(ReviewSubmit { quality: 3 }.check("phrase").is_ok());
}

#[test]
fn chat_conversation_order() {
    let recent = vec![
        ChatMessage { role: "assistant".to_string(), content: "second".to_string() },
        ChatMessage { role: "user".to_string(), content: "first".to_string() },
    ];
    let conv = chat_conversation(recent);
    assert_eq!(conv.len(), 3);
    assert_eq!(conv[0].role, "system");
    assert_eq!(conv[1].content, "first");
    assert_eq!(conv[2].content, "second");
    assert_eq!(error_frame("boom"), "{\"error\":\"boom\"}");
    assert_eq!(phrase_subject(None, 12), "phrase_12");
    assert_eq!(phrase_subject(Some("x".to_string()), 12), "x");
}

#[test]
fn updates_keep_what_is_not_given() {
    let row = WordRow {
        word: "run".to_string(),
        phonetic: Some("/rʌn/".to_string()),
        meaning: Some("to move fast".to_string()),
        familiarity: 1,
        next_review: None,
        interval: 2,
    };
    let none = WordChanges { word: None, phonetic: None, meaning: None, familiarity: None, next_review: None, interval: None };
    let same = apply_word_changes(&row, &none);
    assert_eq!(same.meaning, row.meaning);
    assert_eq!(same.familiarity, 1);
    let ch = WordChanges { meaning: Some("to hurry".to_string()), interval: Some(5), ..none };
    let once = apply_word_changes(&row, &ch);
    let twice = apply_word_changes(&once, &ch);
    assert_eq!(once.meaning.as_deref(), Some("to hurry"));
    assert_eq!(once.phonetic.as_deref(), Some("/rʌn/"));
    assert_eq!((once.interval, twice.interval), (5, 5));
    assert_eq!(twice.meaning, once.meaning);
}

#[test]
fn streamed_reply_is_relayed_and_stored() {
    let mut reply = String::new();
    match chat_stream_step(&mut reply, StreamEvent::Chunk("Hel".to_string())) {
        StreamAction::Forward(c) => assert_eq!(c, "Hel"),
        other => panic!("unexpected {:?}", other),
    }
    chat_stream_step(&mut reply, StreamEvent::Chunk("lo".to_string()));
    match chat_stream_step(&mut reply, StreamEvent::Failed("timeout".to_string())) {
        StreamAction::FailAndStore { frame, reply: kept } => {
            assert_eq!(frame, "{\"error\":\"timeout\"}");
            assert_eq!(kept, "Hello");
        }
        other => panic!("unexpected {:?}", other),
    }
    match chat_stream_step(&mut reply, StreamEvent::Finished) {
        StreamAction::Store(kept) => assert_eq!(kept, "Hello"),
        other => panic!("unexpected {:?}", other),
    }
}
