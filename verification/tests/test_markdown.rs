use engai::markdown::{MarkdownPhrase, MarkdownReading, MarkdownWord};
use engai::note::MarkdownError;

const WORD_MD: &str = r#"---
word: abandon
phonetic: /əˈbændən/
familiarity: 3
interval: 7
next_review: 2026-04-05 00:00:00
synced_at: 2026-03-29T10:00:00
---

# abandon

## Meaning
to leave completely and forever

## Examples
- He abandoned his car in the snow.
- She abandoned hope of finding her lost ring.

## Synonyms
- forsake
- desert

## AI Explanation
Abandon means to give up completely. It can be used for physical objects, people, or abstract concepts like hope.

## My Notes
- Used a lot in weather reports

## Review
- 2026-03-20: quality 4
- 2026-03-25: quality 5
"#;

#[test]
fn test_parse_word_markdown() {
    let word = MarkdownWord::parse(WORD_MD).unwrap();
    assert_eq!(word.word, "abandon");
    assert_eq!(word.phonetic.as_deref(), Some("/əˈbændən/"));
    assert_eq!(word.familiarity, 3);
    assert_eq!(word.interval, 7);
    assert!(word.next_review.is_some());
    assert_eq!(
        word.next_review.unwrap().format("%Y-%m-%d").to_string(),
        "2026-04-05"
    );
    assert_eq!(word.meaning.as_deref(), Some("to leave completely and forever"));
    assert_eq!(word.examples.len(), 2);
    assert_eq!(word.examples[0], "He abandoned his car in the snow.");
    assert_eq!(word.synonyms.len(), 2);
    assert_eq!(word.synonyms[0], "forsake");
    assert!(word.ai_explanation.is_some());
    assert!(word.ai_explanation.as_ref().unwrap().contains("give up completely"));
    assert_eq!(word.my_notes.len(), 1);
    assert_eq!(word.my_notes[0], "Used a lot in weather reports");
    assert_eq!(word.reviews.len(), 2);
    assert!(word.reviews[0].contains("quality 4"));
}

#[test]
fn test_generate_word_markdown() {
    let word = MarkdownWord {
        word: "test".to_string(),
        phonetic: Some("/tɛst/".to_string()),
        familiarity: 1,
        interval: 2,
        next_review: None,
        meaning: Some("a procedure intended to establish quality".to_string()),
        examples: vec!["This is a test.".to_string()],
        synonyms: vec![],
        ai_explanation: None,
        my_notes: vec![],
        reviews: vec![],
    };
    let md = word.to_markdown_string();
    assert!(md.contains("# test"));
    assert!(md.contains("a procedure intended to establish quality"));
    assert!(md.contains("phonetic: /tɛst/"));
    assert!(md.contains("familiarity: 1"));
}

const PHRASE_MD: &str = r#"---
phrase: break the ice
familiarity: 2
interval: 3
next_review: 2026-04-01 12:00:00
synced_at: 2026-03-28T08:00:00
---

# break the ice

## Meaning
To initiate conversation in a social setting.

## Examples
- She told a joke to break the ice.

## AI Explanation
An idiom used when you start a conversation to make people feel more relaxed.

## My Notes
- Common in business meetings

## Review
- 2026-03-20: quality 3
"#;

#[test]
fn test_parse_phrase_markdown() {
    let phrase = MarkdownPhrase::parse(PHRASE_MD).unwrap();
    assert_eq!(phrase.phrase, "break the ice");
    assert_eq!(phrase.familiarity, 2);
    assert_eq!(phrase.interval, 3);
    assert!(phrase.next_review.is_some());
    assert_eq!(
        phrase.meaning.as_deref(),
        Some("To initiate conversation in a social setting.")
    );
    assert_eq!(phrase.examples.len(), 1);
    assert_eq!(phrase.examples[0], "She told a joke to break the ice.");
    assert!(phrase.ai_explanation.is_some());
    assert_eq!(phrase.my_notes.len(), 1);
    assert_eq!(phrase.reviews.len(), 1);
}

const READING_MD: &str = r#"---
title: The Art of Focus
source: https://example.com/focus
imported_at: 2026-03-25T09:00:00
synced_at: 2026-03-29T10:00:00
---

# The Art of Focus

## Content
Focus is the ability to direct one's attention.
It requires practice and discipline.

## Vocabulary
- concentration
- mindfulness
- discipline

## Summary (AI)
This article discusses the importance of focus and provides tips for improving concentration.

## My Notes
- Need to practice this daily
"#;

#[test]
fn test_parse_reading_markdown() {
    let reading = MarkdownReading::parse(READING_MD).unwrap();
    assert_eq!(reading.title, "The Art of Focus");
    assert_eq!(reading.source.as_deref(), Some("https://example.com/focus"));
    assert!(reading.content.contains("Focus is the ability"));
    assert_eq!(reading.vocabulary.len(), 3);
    assert_eq!(reading.vocabulary[0], "concentration");
    assert!(reading.summary.is_some());
    assert!(reading.summary.as_ref().unwrap().contains("importance of focus"));
    assert_eq!(reading.my_notes.len(), 1);
    assert_eq!(reading.my_notes[0], "Need to practice this daily");
}

fn ephemeral() -> MarkdownWord {
    MarkdownWord {
        word: "ephemeral".to_string(),
        phonetic: Some("/ɪˈfɛmərəl/".to_string()),
        familiarity: 2,
        interval: 5,
        next_review: None,
        meaning: Some("lasting for a very short time".to_string()),
        examples: vec!["The ephemeral beauty of cherry blossoms.".to_string()],
        synonyms: vec!["fleeting".to_string(), "transient".to_string()],
        ai_explanation: Some("Ephemeral describes something that is temporary.".to_string()),
        my_notes: vec!["Good word for essays".to_string()],
        reviews: vec![],
    }
}

#[test]
fn roundtrip_word_text() {
    let word = ephemeral();
    let parsed = MarkdownWord::parse(&word.to_markdown_string()).unwrap();
    assert_eq!(parsed.word, "ephemeral");
    assert_eq!(parsed.phonetic.as_deref(), Some("/ɪˈfɛmərəl/"));
    assert_eq!(parsed.familiarity, 2);
    assert_eq!(parsed.interval, 5);
    assert_eq!(parsed.meaning.as_deref(), Some("lasting for a very short time"));
    assert_eq!(parsed.examples, word.examples);
    assert_eq!(parsed.synonyms, word.synonyms);
    assert_eq!(parsed.ai_explanation, word.ai_explanation);
    assert_eq!(parsed.my_notes, word.my_notes);
    assert_eq!(parsed.reviews, word.reviews);

    let regenerated = parsed.to_markdown_string();
    let reparsed = MarkdownWord::parse(&regenerated).unwrap();
    assert_eq!(reparsed.word, parsed.word);
    assert_eq!(reparsed.meaning, parsed.meaning);
    assert_eq!(reparsed.examples, parsed.examples);
    assert_eq!(reparsed.synonyms, parsed.synonyms);
    assert_eq!(reparsed.ai_explanation, parsed.ai_explanation);
    assert_eq!(reparsed.my_notes, parsed.my_notes);
    assert_eq!(regenerated, word.to_markdown_string());
}

#[test]
fn word_markdown_exact_text() {
    let word = MarkdownWord {
        word: "test".to_string(),
        phonetic: None,
        familiarity: -1,
        interval: 12,
        next_review: Some(engai::datetime::DateTime {
            year: 2026,
            month: 4,
            day: 5,
            hour: 7,
            minute: 8,
            second: 9,
            nanosecond: 0,
        }),
        meaning: Some("m".to_string()),
        examples: vec!["a".to_string(), "b".to_string()],
        synonyms: vec![],
        ai_explanation: None,
        my_notes: vec![],
        reviews: vec!["2026-01-02: quality 5".to_string()],
    };
    assert_eq!(
        word.to_markdown_string(),
        "---\nword: test\nfamiliarity: -1\ninterval: 12\nnext_review: 2026-04-05 07:08:09\n---\n\n# test\n\n## Meaning\nm\n\n## Examples\n- a\n- b\n\n## Review\n- 2026-01-02: quality 5\n"
    );
    let back = MarkdownWord::parse(&word.to_markdown_string()).unwrap();
    assert_eq!(back.next_review, word.next_review);
    assert_eq!(back.familiarity, -1);
    assert_eq!(back.phonetic, None);
}

#[test]
fn roundtrip_phrase_text() {
    let phrase = MarkdownPhrase {
        phrase: "take off".to_string(),
        familiarity: 0,
        interval: 0,
        next_review: None,
        meaning: Some("to leave the ground".to_string()),
        examples: vec!["The plane took off.".to_string()],
        ai_explanation: None,
        my_notes: vec![],
        reviews: vec!["2026-03-20: quality 3".to_string()],
    };
    let md = phrase.to_markdown_string();
    assert!(md.starts_with("---\nphrase: take off\nfamiliarity: 0\ninterval: 0\n---\n\n# take off\n"));
    let back = MarkdownPhrase::parse(&md).unwrap();
    assert_eq!(back.phrase, "take off");
    assert_eq!(back.meaning, phrase.meaning);
    assert_eq!(back.examples, phrase.examples);
    assert_eq!(back.reviews, phrase.reviews);
    assert_eq!(back.ai_explanation, None);
}

#[test]
fn roundtrip_reading_text() {
    let reading = MarkdownReading {
        title: "Notes".to_string(),
        source: None,
        content: "line one\nline two".to_string(),
        vocabulary: vec!["alpha".to_string()],
        summary: None,
        my_notes: vec!["keep".to_string()],
    };
    let md = reading.to_markdown_string();
    assert_eq!(
        md,
        "---\ntitle: Notes\n---\n\n# Notes\n\n## Content\nline one\nline two\n\n## Vocabulary\n- alpha\n\n## My Notes\n- keep\n"
    );
    let back = MarkdownReading::parse(&md).unwrap();
    assert_eq!(back.title, "Notes");
    assert_eq!(back.content, "line one\nline two");
    assert_eq!(back.vocabulary, reading.vocabulary);
    assert_eq!(back.my_notes, reading.my_notes);
    assert_eq!(back.summary, None);
}

#[test]
fn reading_without_title_or_content() {
    let reading = MarkdownReading {
        title: String::new(),
        source: Some("somewhere".to_string()),
        content: String::new(),
        vocabulary: vec![],
        summary: None,
        my_notes: vec![],
    };
    let md = reading.to_markdown_string();
    assert_eq!(md, "---\nsource: somewhere\n---\n\n# \n\n## Content\n\n");
    let back = MarkdownReading::parse(&md).unwrap();
    assert_eq!(back.title, "");
    assert_eq!(back.content, "");
    assert_eq!(back.source.as_deref(), Some("somewhere"));
}

#[test]
fn missing_front_matter_is_refused() {
    let r = MarkdownWord::parse("# abandon\n\n## Meaning\nx\n");
    assert!(matches!(r, Err(MarkdownError::MissingFrontMatter)));
    let r = MarkdownReading::parse("no header at all");
    assert!(matches!(r, Err(MarkdownError::MissingFrontMatter)));
}

#[test]
fn header_without_required_field_is_refused() {
    let r = MarkdownWord::parse("---\nphonetic: x\nfamiliarity: 1\ninterval: 2\n---\n\n# x\n");
    assert!(matches!(r, Err(MarkdownError::InvalidFrontMatter)));
    let r = MarkdownPhrase::parse("---\nphrase: x\nfamiliarity: one\ninterval: 2\n---\n");
    assert!(matches!(r, Err(MarkdownError::InvalidFrontMatter)));
}

#[test]
fn unreadable_date_is_refused() {
    let r = MarkdownWord::parse("---\nword: x\nfamiliarity: 1\ninterval: 2\nnext_review: soon\n---\n\n# x\n");
    match r {
        Err(MarkdownError::InvalidDate(s)) => assert_eq!(s, "soon"),
        other => panic!("unexpected {:?}", other),
    }
}

#[test]
fn iso_date_and_empty_date_are_read() {
    let w = MarkdownWord::parse("---\nword: x\nfamiliarity: 1\ninterval: 2\nnext_review: 2026-03-29T10:11:12\n---\n\n# x\n").unwrap();
    let d = w.next_review.unwrap();
    assert_eq!((d.year, d.month, d.day, d.hour, d.minute, d.second), (2026, 3, 29, 10, 11, 12));
    let w = MarkdownWord::parse("---\nword: x\nfamiliarity: 1\ninterval: 2\nnext_review: ''\n---\n\n# x\n").unwrap();
    assert!(w.next_review.is_none());
}

#[test]
fn examples_fall_back_to_example_heading() {
    let w = MarkdownWord::parse("---\nword: x\nfamiliarity: 0\ninterval: 0\n---\n\n# x\n\n## Example\n- one\n- two\n").unwrap();
    assert_eq!(w.examples, vec!["one".to_string(), "two".to_string()]);
}

#[test]
fn header_as_a_list_is_read_in_field_order() {
    let w = MarkdownWord::parse("---\n- abandon\n- null\n- 3\n- 7\n- ''\n- null\n---\n\n# abandon\n\n## Meaning\nto leave\n").unwrap();
    assert_eq!(w.word, "abandon");
    assert_eq!(w.phonetic, None);
    assert_eq!(w.familiarity, 3);
    assert_eq!(w.interval, 7);
    assert!(w.next_review.is_none());
    assert_eq!(w.meaning.as_deref(), Some("to leave"));
    let short = MarkdownWord::parse("---\n- abandon\n- null\n- 3\n---\n\n# abandon\n");
    assert!(matches!(short, Err(MarkdownError::InvalidFrontMatter)));
}

#[test]
fn empty_header_reads_as_no_header() {
    let reading = MarkdownReading {
        title: String::new(),
        source: None,
        content: "text".to_string(),
        vocabulary: vec![],
        summary: None,
        my_notes: vec![],
    };
    let md = reading.to_markdown_string();
    assert!(md.starts_with("---\n---\n\n# \n"));
    assert!(matches!(MarkdownReading::parse(&md), Err(MarkdownError::MissingFrontMatter)));
}

#[test]
fn non_finite_float_in_optional_field_reads_as_none() {
    let w = MarkdownWord::parse("---\nword: x\nphonetic: 1e999\nfamiliarity: 1\ninterval: 2\nnext_review: NaN\nsynced_at: -inf\n---\n\n# x\n").unwrap();
    assert_eq!(w.phonetic, None);
    assert!(w.next_review.is_none());
    let r = MarkdownWord::parse("---\nword: x\nphonetic: 1.5\nfamiliarity: 1\ninterval: 2\n---\n\n# x\n");
    assert!(matches!(r, Err(MarkdownError::InvalidFrontMatter)));
    let r = MarkdownWord::parse("---\nword: 1e999\nfamiliarity: 1\ninterval: 2\n---\n\n# x\n");
    assert!(matches!(r, Err(MarkdownError::InvalidFrontMatter)));
}
