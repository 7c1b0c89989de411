use engai::review::{
    check_review_submit, parse_i32, plan_review, quality_from_input, review_list_line, EaseChange,
    NextInterval, ReviewRequestError, ReviewTarget,
};

#[test]
fn failed_grades_reset() {
    for q in [-3, 0, 1, 2] {
        let p = plan_review(q, 10);
        assert_eq!(p.familiarity, 0);
        assert_eq!(p.interval, NextInterval::Days(1));
        assert_eq!(p.ease, EaseChange::Lower);
    }
}

#[test]
fn grade_three_keeps() {
    let p = plan_review(3, 5);
    assert_eq!(p.familiarity, 1);
    assert_eq!(p.interval, NextInterval::Days(5));
    assert_eq!(p.ease, EaseChange::Keep);
}

#[test]
fn good_grades_raise() {
    let p = plan_review(4, 5);
    assert_eq!(p.familiarity, 2);
    assert_eq!(p.interval, NextInterval::ScaledByEase);
    assert_eq!(p.ease, EaseChange::RaiseSmall);
    let p = plan_review(9, 0);
    assert_eq!(p.quality, 5);
    assert_eq!(p.familiarity, 3);
    assert_eq!(p.interval, NextInterval::Days(1));
    assert_eq!(p.ease, EaseChange::RaiseLarge);
}

#[test]
fn integers_are_read_as_std_reads_them() {
    for s in ["0", "+7", "-12", "2147483647", "-2147483648", "007"] {
        assert_eq!(parse_i32(s), s.parse::<i32>().ok(), "{}", s);
    }
    for s in ["", "+", "-", "2147483648", "-2147483649", "1a", " 1", "99999999999999999999"] {
        assert_eq!(parse_i32(s), None, "{}", s);
    }
}

#[test]
fn typed_grades() {
    assert_eq!(quality_from_input(" 4\n"), 4);
    assert_eq!(quality_from_input("9"), 5);
    assert_eq!(quality_from_input("-1"), 0);
    assert_eq!(quality_from_input("good"), 0);
}

#[test]
fn submitted_reviews_are_checked() {
    assert_eq!(check_review_submit("word", 3), Ok(ReviewTarget::Word));
    assert_eq!(check_review_submit("phrase", 0), Ok(ReviewTarget::Phrase));
    assert_eq!(check_review_submit("word", 6), Err(ReviewRequestError::QualityOutOfRange));
    assert_eq!(check_review_submit("reading", 6), Err(ReviewRequestError::QualityOutOfRange));
    assert_eq!(check_review_submit("reading", 2), Err(ReviewRequestError::UnknownTarget));
    assert_eq!(ReviewRequestError::QualityOutOfRange.message(), "quality must be between 0 and 5");
    assert_eq!(ReviewRequestError::UnknownTarget.message(), "target_type must be 'word' or 'phrase'");
    assert_eq!(ReviewTarget::Phrase.as_str(), "phrase");
}

#[test]
fn listing_lines() {
    let d = engai::datetime::DateTime { year: 2026, month: 4, day: 5, hour: 0, minute: 0, second: 0, nanosecond: 0 };
    assert_eq!(
        review_list_line("abandon", 3, Some(d), &Some("to leave".to_string())),
        "  abandon | familiarity: 3 | next_review: 2026-04-05 | to leave"
    );
    assert_eq!(review_list_line("x", 0, None, &None), "  x | familiarity: 0 | next_review: N/A | N/A");
}
