use engai::tui::{Effect, Key, Panel, TuiState, VocabTab};

#[test]
fn panel_labels_and_order() {
    assert_eq!(Panel::Vocab.label(), "Vocabulary");
    assert_eq!(Panel::Read.label(), "Reading");
    assert_eq!(Panel::Vocab.next(), Panel::Review);
    assert_eq!(Panel::Stats.next(), Panel::Vocab);
    assert_eq!(Panel::Vocab.prev(), Panel::Stats);
    for p in [Panel::Vocab, Panel::Review, Panel::Read, Panel::Chat, Panel::Stats] {
        assert_eq!(p.next().prev(), p);
        assert_eq!(p.next().next().next().next().next(), p);
    }
}

#[test]
fn quit_keys() {
    let mut s = TuiState::new();
    assert!(matches!(s.handle_key(Key::Char('q'), false), Effect::Nothing));
    assert!(s.should_quit);
    let mut s = TuiState::new();
    s.handle_key(Key::Char('c'), true);
    assert!(s.should_quit);
}

#[test]
fn vocab_navigation_and_tab() {
    let mut s = TuiState::new();
    s.word_count = 2;
    s.phrase_count = 0;
    s.handle_key(Key::Down, false);
    s.handle_key(Key::Down, false);
    assert_eq!(s.vocab_list_index, 1);
    s.handle_key(Key::Up, false);
    s.handle_key(Key::Up, false);
    assert_eq!(s.vocab_list_index, 0);
    s.handle_key(Key::Down, false);
    s.handle_key(Key::Tab, false);
    assert_eq!(s.vocab_tab, VocabTab::Phrases);
    assert_eq!(s.vocab_list_index, 0);
    assert!(matches!(s.handle_key(Key::Enter, false), Effect::Nothing));
    s.handle_tab();
    assert_eq!(s.vocab_tab, VocabTab::Words);
    match s.handle_key(Key::Enter, false) {
        Effect::OpenVocab(VocabTab::Words, 0) => {}
        other => panic!("unexpected {:?}", other),
    }
    assert!(s.vocab_detail_open);
    assert!(matches!(s.handle_key(Key::Char('e'), false), Effect::Explain));
    assert!(matches!(s.handle_key(Key::Esc, false), Effect::CloseVocab));
    assert!(!s.vocab_detail_open);
}

#[test]
fn panel_switching_loads() {
    let mut s = TuiState::new();
    assert!(matches!(s.handle_key(Key::Right, false), Effect::Load(Panel::Review)));
    assert_eq!(s.panel, Panel::Review);
    s.review_count = 3;
    assert!(matches!(s.handle_key(Key::Char('['), false), Effect::Load(Panel::Vocab)));
    assert!(matches!(s.handle_key(Key::Left, false), Effect::Load(Panel::Stats)));
    assert!(matches!(s.handle_key(Key::Char('r'), false), Effect::RefreshStats));
}

#[test]
fn review_grades_and_skips() {
    let mut s = TuiState::new();
    s.panel = Panel::Review;
    s.review_count = 2;
    s.handle_key(Key::Char(' '), false);
    assert!(s.review_show_answer);
    match s.handle_key(Key::Char('4'), false) {
        Effect::SubmitReview { index: 0, quality: 4, last: false } => {}
        other => panic!("unexpected {:?}", other),
    }
    assert!(!s.review_show_answer);
    assert!(matches!(s.handle_key(Key::Char('n'), false), Effect::SkipReview));
    assert_eq!(s.review_index, 2);
    assert!(matches!(s.handle_key(Key::Char('5'), false), Effect::Nothing));
}

#[test]
fn review_last_item() {
    let mut s = TuiState::new();
    s.panel = Panel::Review;
    s.review_count = 1;
    match s.handle_key(Key::Char('0'), false) {
        Effect::SubmitReview { index: 0, quality: 0, last: true } => {}
        other => panic!("unexpected {:?}", other),
    }
}

#[test]
fn chat_typing_and_sending() {
    let mut s = TuiState::new();
    s.panel = Panel::Chat;
    s.chat_count = 1;
    for c in " hi q".chars() {
        s.handle_key(Key::Char(c), false);
    }
    assert_eq!(s.chat_input, " hi q");
    assert!(!s.should_quit);
    s.handle_key(Key::Char(']'), false);
    assert_eq!(s.panel, Panel::Chat);
    s.handle_key(Key::Backspace, false);
    match s.handle_key(Key::Enter, false) {
        Effect::SendChat(t) => assert_eq!(t, "hi q"),
        other => panic!("unexpected {:?}", other),
    }
    assert_eq!(s.chat_input, "");
    s.handle_key(Key::Char(' '), false);
    assert!(matches!(s.handle_key(Key::Enter, false), Effect::Nothing));
}

#[test]
fn reading_open_and_close() {
    let mut s = TuiState::new();
    s.panel = Panel::Read;
    s.reading_count = 2;
    s.handle_key(Key::Down, false);
    match s.handle_key(Key::Enter, false) {
        Effect::OpenReading(1) => {}
        other => panic!("unexpected {:?}", other),
    }
    assert!(matches!(s.handle_key(Key::Esc, false), Effect::CloseReading));
}

#[test]
fn right_then_left_returns() {
    for p in [Panel::Vocab, Panel::Review, Panel::Read, Panel::Chat, Panel::Stats] {
        let mut s = TuiState::new();
        s.panel = p;
        s.review_count = 1;
        s.handle_key(Key::Right, false);
        s.handle_key(Key::Left, false);
        assert_eq!(s.panel, p);
    }
}
