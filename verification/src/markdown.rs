//! Notes as markdown files: a YAML header block, a `# title` line and
//! `## ` sections. Each kind of note renders to text and reads back from it.

use vstd::prelude::*;
use crate::text::{decimal, push_char, push_decimal, trim_start_nl};
use crate::section::{extract_list, extract_section, list_of, section_of, views};
use crate::layout::{lemma_secs_concat, secs_text};
use crate::datetime::{format_datetime, full_format, full_text, DateTime};
use crate::front_matter::{delimited, front_body, front_shape, gray_matter_parsed, FrontShape};
use crate::readback::{
    date_reads_back, law_phrase_read_back, lemma_phrase_text, law_reading_read_back,
    lemma_reading_text, law_word_read_back, lemma_word_text, phrase_header_data,
    phrase_sections_agree, phrase_writable, reading_header_data, reading_sections_agree,
    reading_writable, word_header_data, word_sections_agree, word_writable,
};
use crate::roundtrip::{
    law_phrase_body_roundtrip, law_reading_body_roundtrip, law_word_body_roundtrip,
    phrase_body_back, reading_body_back, word_body_back,
};
use crate::note::{
    field_line, header_problem, header_value, header_value_of, list_secs, opt_field_line,
    opt_view, optional_text, push_list_section, push_text_section, required_text, review_date,
    small_int, take_i32, take_optional, take_required, take_review_date, text_secs, title_line,
    MarkdownError, NoteError,
};

verus! {

/// A vocabulary note.
#[derive(Clone, Debug)]
pub struct MarkdownWord {
    pub word: String,
    pub phonetic: Option<String>,
    pub familiarity: i32,
    pub interval: i32,
    pub next_review: Option<DateTime>,
    pub meaning: Option<String>,
    pub examples: Vec<String>,
    pub synonyms: Vec<String>,
    pub ai_explanation: Option<String>,
    pub my_notes: Vec<String>,
    pub reviews: Vec<String>,
}

/// A phrase note.
#[derive(Clone, Debug)]
pub struct MarkdownPhrase {
    pub phrase: String,
    pub familiarity: i32,
    pub interval: i32,
    pub next_review: Option<DateTime>,
    pub meaning: Option<String>,
    pub examples: Vec<String>,
    pub ai_explanation: Option<String>,
    pub my_notes: Vec<String>,
    pub reviews: Vec<String>,
}

/// A reading note.
#[derive(Clone, Debug)]
pub struct MarkdownReading {
    pub title: String,
    pub source: Option<String>,
    pub content: String,
    pub vocabulary: Vec<String>,
    pub summary: Option<String>,
    pub my_notes: Vec<String>,
}

/// The view of a vocabulary note.
pub ghost struct WordNote {
    pub word: Seq<char>,
    pub phonetic: Option<Seq<char>>,
    pub familiarity: i32,
    pub interval: i32,
    pub next_review: Option<DateTime>,
    pub meaning: Option<Seq<char>>,
    pub examples: Seq<Seq<char>>,
    pub synonyms: Seq<Seq<char>>,
    pub ai_explanation: Option<Seq<char>>,
    pub my_notes: Seq<Seq<char>>,
    pub reviews: Seq<Seq<char>>,
}

/// The view of a phrase note.
pub ghost struct PhraseNote {
    pub phrase: Seq<char>,
    pub familiarity: i32,
    pub interval: i32,
    pub next_review: Option<DateTime>,
    pub meaning: Option<Seq<char>>,
    pub examples: Seq<Seq<char>>,
    pub ai_explanation: Option<Seq<char>>,
    pub my_notes: Seq<Seq<char>>,
    pub reviews: Seq<Seq<char>>,
}

/// The view of a reading note.
pub ghost struct ReadingNote {
    pub title: Seq<char>,
    pub source: Option<Seq<char>>,
    pub content: Seq<char>,
    pub vocabulary: Seq<Seq<char>>,
    pub summary: Option<Seq<char>>,
    pub my_notes: Seq<Seq<char>>,
}

impl View for MarkdownWord {
    type V = WordNote;

    open spec fn view(&self) -> WordNote {
        WordNote {
            word: self.word@,
            phonetic: opt_view(self.phonetic),
            familiarity: self.familiarity,
            interval: self.interval,
            next_review: self.next_review,
            meaning: opt_view(self.meaning),
            examples: views(self.examples@),
            synonyms: views(self.synonyms@),
            ai_explanation: opt_view(self.ai_explanation),
            my_notes: views(self.my_notes@),
            reviews: views(self.reviews@),
        }
    }
}

impl View for MarkdownPhrase {
    type V = PhraseNote;

    open spec fn view(&self) -> PhraseNote {
        PhraseNote {
            phrase: self.phrase@,
            familiarity: self.familiarity,
            interval: self.interval,
            next_review: self.next_review,
            meaning: opt_view(self.meaning),
            examples: views(self.examples@),
            ai_explanation: opt_view(self.ai_explanation),
            my_notes: views(self.my_notes@),
            reviews: views(self.reviews@),
        }
    }
}

impl View for MarkdownReading {
    type V = ReadingNote;

    open spec fn view(&self) -> ReadingNote {
        ReadingNote {
            title: self.title@,
            source: opt_view(self.source),
            content: self.content@,
            vocabulary: views(self.vocabulary@),
            summary: opt_view(self.summary),
            my_notes: views(self.my_notes@),
        }
    }
}

/// The header line of an optional review date.
pub open spec fn date_line(d: Option<DateTime>) -> Seq<char> {
    match d {
        Some(d) => field_line("next_review: "@, full_text(d)),
        None => Seq::empty(),
    }
}

/// The header of a vocabulary note.
pub open spec fn word_header(n: WordNote) -> Seq<char> {
    field_line("word: "@, n.word) + opt_field_line("phonetic: "@, n.phonetic) + field_line(
        "familiarity: "@,
        decimal(n.familiarity as int),
    ) + field_line("interval: "@, decimal(n.interval as int)) + date_line(n.next_review)
}

/// The sections of a vocabulary note, in order; absent ones are left out.
pub open spec fn word_sections(n: WordNote) -> Seq<(Seq<char>, Seq<char>)> {
    text_secs("Meaning"@, n.meaning) + list_secs("Examples"@, n.examples) + list_secs(
        "Synonyms"@,
        n.synonyms,
    ) + text_secs("AI Explanation"@, n.ai_explanation) + list_secs("My Notes"@, n.my_notes)
        + list_secs("Review"@, n.reviews)
}

/// The body of a vocabulary note: its title line and its sections.
pub open spec fn word_body(n: WordNote) -> Seq<char> {
    title_line(n.word) + secs_text(word_sections(n))
}

/// The text of a vocabulary note.
pub open spec fn word_markdown(n: WordNote) -> Seq<char> {
    delimited(word_header(n), seq!['\n'] + word_body(n))
}

/// The header of a phrase note.
pub open spec fn phrase_header(n: PhraseNote) -> Seq<char> {
    field_line("phrase: "@, n.phrase) + field_line("familiarity: "@, decimal(n.familiarity as int))
        + field_line("interval: "@, decimal(n.interval as int)) + date_line(n.next_review)
}

/// The sections of a phrase note, in order; absent ones are left out.
pub open spec fn phrase_sections(n: PhraseNote) -> Seq<(Seq<char>, Seq<char>)> {
    text_secs("Meaning"@, n.meaning) + list_secs("Examples"@, n.examples) + text_secs(
        "AI Explanation"@,
        n.ai_explanation,
    ) + list_secs("My Notes"@, n.my_notes) + list_secs("Review"@, n.reviews)
}

/// The body of a phrase note.
pub open spec fn phrase_body(n: PhraseNote) -> Seq<char> {
    title_line(n.phrase) + secs_text(phrase_sections(n))
}

/// The text of a phrase note.
pub open spec fn phrase_markdown(n: PhraseNote) -> Seq<char> {
    delimited(phrase_header(n), seq!['\n'] + phrase_body(n))
}

/// The header of a reading note: the title only where it is not empty.
pub open spec fn reading_header(n: ReadingNote) -> Seq<char> {
    (if n.title.len() > 0 {
        field_line("title: "@, n.title)
    } else {
        Seq::empty()
    }) + opt_field_line("source: "@, n.source)
}

/// The sections of a reading note; the content section is always there.
pub open spec fn reading_sections(n: ReadingNote) -> Seq<(Seq<char>, Seq<char>)> {
    text_secs("Content"@, Some(n.content)) + list_secs("Vocabulary"@, n.vocabulary) + text_secs(
        "Summary (AI)"@,
        n.summary,
    ) + list_secs("My Notes"@, n.my_notes)
}

/// The body of a reading note.
pub open spec fn reading_body(n: ReadingNote) -> Seq<char> {
    title_line(n.title) + secs_text(reading_sections(n))
}

/// The text of a reading note.
pub open spec fn reading_markdown(n: ReadingNote) -> Seq<char> {
    delimited(reading_header(n), seq!['\n'] + reading_body(n))
}

/// The examples of a body: the `Examples` list, or where that is empty the
/// `Example` list.
pub open spec fn examples_of(body: Seq<char>) -> Seq<Seq<char>> {
    let ex = list_of(body, "Examples"@);
    if ex.len() == 0 {
        list_of(body, "Example"@)
    } else {
        ex
    }
}

/// What reading a vocabulary note from `text` gives.
pub open spec fn word_parse(text: Seq<char>) -> Result<WordNote, NoteError> {
    let p = gray_matter_parsed(text);
    match header_problem(p, 6) {
        Some(e) => Err(e),
        None => {
            let word = required_text(header_value(p, "word"@, 0));
            let phonetic = optional_text(header_value(p, "phonetic"@, 1));
            let familiarity = small_int(header_value(p, "familiarity"@, 2));
            let interval = small_int(header_value(p, "interval"@, 3));
            let next_review = optional_text(header_value(p, "next_review"@, 4));
            let synced_at = optional_text(header_value(p, "synced_at"@, 5));
            if word is None || phonetic is None || familiarity is None || interval is None
                || next_review is None || synced_at is None {
                Err(NoteError::InvalidFrontMatter)
            } else {
                match review_date(next_review.unwrap()) {
                    Err(e) => Err(e),
                    Ok(date) => {
                        let body = p.content;
                        Ok(
                            WordNote {
                                word: word.unwrap(),
                                phonetic: phonetic.unwrap(),
                                familiarity: familiarity.unwrap(),
                                interval: interval.unwrap(),
                                next_review: date,
                                meaning: section_of(body, "Meaning"@),
                                examples: examples_of(body),
                                synonyms: list_of(body, "Synonyms"@),
                                ai_explanation: section_of(body, "AI Explanation"@),
                                my_notes: list_of(body, "My Notes"@),
                                reviews: list_of(body, "Review"@),
                            },
                        )
                    },
                }
            }
        },
    }
}

/// What reading a phrase note from `text` gives.
pub open spec fn phrase_parse(text: Seq<char>) -> Result<PhraseNote, NoteError> {
    let p = gray_matter_parsed(text);
    match header_problem(p, 5) {
        Some(e) => Err(e),
        None => {
            let phrase = required_text(header_value(p, "phrase"@, 0));
            let familiarity = small_int(header_value(p, "familiarity"@, 1));
            let interval = small_int(header_value(p, "interval"@, 2));
            let next_review = optional_text(header_value(p, "next_review"@, 3));
            let synced_at = optional_text(header_value(p, "synced_at"@, 4));
            if phrase is None || familiarity is None || interval is None || next_review is None
                || synced_at is None {
                Err(NoteError::InvalidFrontMatter)
            } else {
                match review_date(next_review.unwrap()) {
                    Err(e) => Err(e),
                    Ok(date) => {
                        let body = p.content;
                        Ok(
                            PhraseNote {
                                phrase: phrase.unwrap(),
                                familiarity: familiarity.unwrap(),
                                interval: interval.unwrap(),
                                next_review: date,
                                meaning: section_of(body, "Meaning"@),
                                examples: examples_of(body),
                                ai_explanation: section_of(body, "AI Explanation"@),
                                my_notes: list_of(body, "My Notes"@),
                                reviews: list_of(body, "Review"@),
                            },
                        )
                    },
                }
            }
        },
    }
}

/// What reading a reading note from `text` gives.
pub open spec fn reading_parse(text: Seq<char>) -> Result<ReadingNote, NoteError> {
    let p = gray_matter_parsed(text);
    match header_problem(p, 4) {
        Some(e) => Err(e),
        None => {
            let title = optional_text(header_value(p, "title"@, 0));
            let source = optional_text(header_value(p, "source"@, 1));
            let imported_at = optional_text(header_value(p, "imported_at"@, 2));
            let synced_at = optional_text(header_value(p, "synced_at"@, 3));
            if title is None || source is None || imported_at is None || synced_at is None {
                Err(NoteError::InvalidFrontMatter)
            } else {
                let body = p.content;
                Ok(
                    ReadingNote {
                        title: match title.unwrap() {
                            Some(t) => t,
                            None => Seq::empty(),
                        },
                        source: source.unwrap(),
                        content: match section_of(body, "Content"@) {
                            Some(c) => c,
                            None => Seq::empty(),
                        },
                        vocabulary: list_of(body, "Vocabulary"@),
                        summary: section_of(body, "Summary (AI)"@),
                        my_notes: list_of(body, "My Notes"@),
                    },
                )
            }
        },
    }
}

/// Whether the review date of a note can be written (chrono can hold it).
pub open spec fn date_ok(d: Option<DateTime>) -> bool {
    d matches Some(x) ==> x.wf()
}

/// The header check of `text` for a note of `n` fields, with its shape.
fn check_header(text: &str, n: usize) -> (r: Result<FrontShape, MarkdownError>)
    ensures
        match r {
            Ok(shape) => shape == crate::front_matter::shape_of(gray_matter_parsed(text@).data)
                && header_problem(gray_matter_parsed(text@), n as nat) is None,
            Err(e) => header_problem(gray_matter_parsed(text@), n as nat) == Some(e@),
        },
{
    let shape = front_shape(text);
    match shape {
        FrontShape::Missing => Err(MarkdownError::MissingFrontMatter),
        FrontShape::Table => Ok(shape),
        FrontShape::List(k) => if k == n {
            Ok(shape)
        } else {
            Err(MarkdownError::InvalidFrontMatter)
        },
        FrontShape::Scalar => Err(MarkdownError::InvalidFrontMatter),
    }
}

/// Appends the header line of an optional review date.
fn push_date_line(md: &mut String, d: &Option<DateTime>)
    requires
        date_ok(*d),
    ensures
        final(md)@ == old(md)@ + date_line(*d),
{
    match d {
        Some(dt) => {
            md.append("next_review: ");
            proof {
                reveal_strlit("%Y-%m-%d %H:%M:%S");
            }
            assert("%Y-%m-%d %H:%M:%S"@ =~= full_format());
            let text = format_datetime(dt, "%Y-%m-%d %H:%M:%S");
            md.append(text.as_str());
            push_char(md, '\n');
            assert(final(md)@ =~= old(md)@ + date_line(*d));
        },
        None => {
            assert(final(md)@ =~= old(md)@ + date_line(*d));
        },
    }
}

/// Appends `"---\n"`.
fn push_delimiter(md: &mut String)
    ensures
        final(md)@ == old(md)@ + seq!['-', '-', '-', '\n'],
{
    push_char(md, '-');
    push_char(md, '-');
    push_char(md, '-');
    push_char(md, '\n');
    assert(final(md)@ =~= old(md)@ + seq!['-', '-', '-', '\n']);
}

/// Appends the title line `"# " + title + "\n"`.
fn push_title(md: &mut String, title: &str)
    ensures
        final(md)@ == old(md)@ + title_line(title@),
{
    push_char(md, '#');
    push_char(md, ' ');
    md.append(title);
    push_char(md, '\n');
    assert(final(md)@ =~= old(md)@ + title_line(title@));
}

impl MarkdownWord {
    /// The note can be written: its review date is one chrono can hold.
    pub open spec fn wf(&self) -> bool {
        date_ok(self.next_review)
    }

    /// Reads a vocabulary note.
    pub fn parse(content: &str) -> (r: Result<MarkdownWord, MarkdownError>)
        ensures
            match r {
                Ok(w) => word_parse(content@) == Ok::<WordNote, NoteError>(w@),
                Err(e) => word_parse(content@) == Err::<WordNote, NoteError>(e@),
            },
            r matches Ok(w) ==> w.wf(),
            forall|n: WordNote|
                #![trigger word_markdown(n)]
                content@ == word_markdown(n) && word_writable(n) ==> (r matches Ok(w)
                    ==> word_sections_agree(w@, n)),
            forall|n: WordNote|
                #![trigger word_markdown(n)]
                content@ == word_markdown(n) && word_writable(n) && gray_matter_parsed(
                    content@,
                ).data == Some(word_header_data(n)) && date_reads_back(n.next_review) ==> (r matches Ok(w)
                    && w@ == n),
    {
        let body = front_body(content);
        proof {
            assert forall|n: WordNote|
                #![trigger word_markdown(n)]
                content@ == word_markdown(n) && word_writable(n) implies word_body_back(
                body@,
                n,
            ) && gray_matter_parsed(content@).content == word_body(n).drop_last() by {
                lemma_word_text(n);
                law_word_body_roundtrip(n);
                assert(body@ == trim_start_nl((seq!['\n'] + word_body(n)).drop_last()));
            }
            assert forall|n: WordNote|
                #![trigger word_markdown(n)]
                content@ == word_markdown(n) && word_writable(n) && gray_matter_parsed(
                    content@,
                ).data == Some(word_header_data(n)) && date_reads_back(n.next_review) implies word_parse(content@)
                == Ok::<WordNote, NoteError>(n) by {
                law_word_read_back(n, content@);
            }
        }
        let shape = match check_header(content, 6) {
            Ok(s) => s,
            Err(e) => return Err(e),
        };
        let word = take_required(header_value_of(content, shape, "word", 0));
        let phonetic = take_optional(header_value_of(content, shape, "phonetic", 1));
        let familiarity = take_i32(header_value_of(content, shape, "familiarity", 2));
        let interval = take_i32(header_value_of(content, shape, "interval", 3));
        let next_review = take_optional(header_value_of(content, shape, "next_review", 4));
        let synced_at = take_optional(header_value_of(content, shape, "synced_at", 5));
        if word.is_none() || phonetic.is_none() || familiarity.is_none() || interval.is_none()
            || next_review.is_none() || synced_at.is_none() {
            return Err(MarkdownError::InvalidFrontMatter);
        }
        let date = match take_review_date(next_review.unwrap()) {
            Ok(d) => d,
            Err(e) => return Err(e),
        };
        let b = body.as_str();
        let mut examples = extract_list(b, "Examples");
        if examples.len() == 0 {
            examples = extract_list(b, "Example");
        }
        Ok(
            MarkdownWord {
                word: word.unwrap(),
                phonetic: phonetic.unwrap(),
                familiarity: familiarity.unwrap(),
                interval: interval.unwrap(),
                next_review: date,
                meaning: extract_section(b, "Meaning"),
                examples,
                synonyms: extract_list(b, "Synonyms"),
                ai_explanation: extract_section(b, "AI Explanation"),
                my_notes: extract_list(b, "My Notes"),
                reviews: extract_list(b, "Review"),
            },
        )
    }

    fn push_header(&self, md: &mut String)
        requires
            self.wf(),
        ensures
            final(md)@ == old(md)@ + word_header(self@),
    {
        md.append("word: ");
        md.append(self.word.as_str());
        push_char(md, '\n');
        match &self.phonetic {
            Some(ph) => {
                md.append("phonetic: ");
                md.append(ph.as_str());
                push_char(md, '\n');
            },
            None => {},
        }
        md.append("familiarity: ");
        push_decimal(md, self.familiarity as i64);
        push_char(md, '\n');
        md.append("interval: ");
        push_decimal(md, self.interval as i64);
        push_char(md, '\n');
        push_date_line(md, &self.next_review);
        assert(final(md)@ =~= old(md)@ + word_header(self@));
    }

    #[verifier::rlimit(40)]
    fn push_sections(&self, md: &mut String)
        ensures
            final(md)@ == old(md)@ + secs_text(word_sections(self@)),
    {
        let ghost n = self@;
        push_text_section(md, "Meaning", &self.meaning);
        push_list_section(md, "Examples", &self.examples);
        push_list_section(md, "Synonyms", &self.synonyms);
        push_text_section(md, "AI Explanation", &self.ai_explanation);
        push_list_section(md, "My Notes", &self.my_notes);
        push_list_section(md, "Review", &self.reviews);
        proof {
            let a = text_secs("Meaning"@, n.meaning);
            let b = list_secs("Examples"@, n.examples);
            let c = list_secs("Synonyms"@, n.synonyms);
            let d = text_secs("AI Explanation"@, n.ai_explanation);
            let e = list_secs("My Notes"@, n.my_notes);
            let f = list_secs("Review"@, n.reviews);
            lemma_secs_concat(a, b);
            lemma_secs_concat(a + b, c);
            lemma_secs_concat(a + b + c, d);
            lemma_secs_concat(a + b + c + d, e);
            lemma_secs_concat(a + b + c + d + e, f);
            assert(final(md)@ =~= old(md)@ + secs_text(word_sections(n)));
        }
    }

    /// Writes the note as markdown text.
    pub fn to_markdown_string(&self) -> (r: String)
        requires
            self.wf(),
        ensures
            r@ == word_markdown(self@),
    {
        let mut md = String::new();
        push_delimiter(&mut md);
        self.push_header(&mut md);
        push_delimiter(&mut md);
        push_char(&mut md, '\n');
        push_title(&mut md, self.word.as_str());
        self.push_sections(&mut md);
        assert(md@ =~= word_markdown(self@));
        md
    }
}

impl MarkdownPhrase {
    /// The note can be written: its review date is one chrono can hold.
    pub open spec fn wf(&self) -> bool {
        date_ok(self.next_review)
    }

    /// Reads a phrase note.
    pub fn parse(content: &str) -> (r: Result<MarkdownPhrase, MarkdownError>)
        ensures
            match r {
                Ok(p) => phrase_parse(content@) == Ok::<PhraseNote, NoteError>(p@),
                Err(e) => phrase_parse(content@) == Err::<PhraseNote, NoteError>(e@),
            },
            r matches Ok(p) ==> p.wf(),
            forall|n: PhraseNote|
                #![trigger phrase_markdown(n)]
                content@ == phrase_markdown(n) && phrase_writable(n) ==> (r matches Ok(p)
                    ==> phrase_sections_agree(p@, n)),
            forall|n: PhraseNote|
                #![trigger phrase_markdown(n)]
                content@ == phrase_markdown(n) && phrase_writable(n) && gray_matter_parsed(
                    content@,
                ).data == Some(phrase_header_data(n)) && date_reads_back(n.next_review) ==> (r matches Ok(p)
                    && p@ == n),
    {
        let body = front_body(content);
        proof {
            assert forall|n: PhraseNote|
                #![trigger phrase_markdown(n)]
                content@ == phrase_markdown(n) && phrase_writable(n) implies phrase_body_back(
                body@,
                n,
            ) && gray_matter_parsed(content@).content == phrase_body(n).drop_last() by {
                lemma_phrase_text(n);
                law_phrase_body_roundtrip(n);
                assert(body@ == trim_start_nl((seq!['\n'] + phrase_body(n)).drop_last()));
            }
            assert forall|n: PhraseNote|
                #![trigger phrase_markdown(n)]
                content@ == phrase_markdown(n) && phrase_writable(n) && gray_matter_parsed(
                    content@,
                ).data == Some(phrase_header_data(n)) && date_reads_back(n.next_review) implies phrase_parse(content@)
                == Ok::<PhraseNote, NoteError>(n) by {
                law_phrase_read_back(n, content@);
            }
        }
        let shape = match check_header(content, 5) {
            Ok(s) => s,
            Err(e) => return Err(e),
        };
        let phrase = take_required(header_value_of(content, shape, "phrase", 0));
        let familiarity = take_i32(header_value_of(content, shape, "familiarity", 1));
        let interval = take_i32(header_value_of(content, shape, "interval", 2));
        let next_review = take_optional(header_value_of(content, shape, "next_review", 3));
        let synced_at = take_optional(header_value_of(content, shape, "synced_at", 4));
        if phrase.is_none() || familiarity.is_none() || interval.is_none() || next_review.is_none()
            || synced_at.is_none() {
            return Err(MarkdownError::InvalidFrontMatter);
        }
        let date = match take_review_date(next_review.unwrap()) {
            Ok(d) => d,
            Err(e) => return Err(e),
        };
        let b = body.as_str();
        let mut examples = extract_list(b, "Examples");
        if examples.len() == 0 {
            examples = extract_list(b, "Example");
        }
        Ok(
            MarkdownPhrase {
                phrase: phrase.unwrap(),
                familiarity: familiarity.unwrap(),
                interval: interval.unwrap(),
                next_review: date,
                meaning: extract_section(b, "Meaning"),
                examples,
                ai_explanation: extract_section(b, "AI Explanation"),
                my_notes: extract_list(b, "My Notes"),
                reviews: extract_list(b, "Review"),
            },
        )
    }

    fn push_header(&self, md: &mut String)
        requires
            self.wf(),
        ensures
            final(md)@ == old(md)@ + phrase_header(self@),
    {
        md.append("phrase: ");
        md.append(self.phrase.as_str());
        push_char(md, '\n');
        md.append("familiarity: ");
        push_decimal(md, self.familiarity as i64);
        push_char(md, '\n');
        md.append("interval: ");
        push_decimal(md, self.interval as i64);
        push_char(md, '\n');
        push_date_line(md, &self.next_review);
        assert(final(md)@ =~= old(md)@ + phrase_header(self@));
    }

    fn push_sections(&self, md: &mut String)
        ensures
            final(md)@ == old(md)@ + secs_text(phrase_sections(self@)),
    {
        let ghost n = self@;
        push_text_section(md, "Meaning", &self.meaning);
        push_list_section(md, "Examples", &self.examples);
        push_text_section(md, "AI Explanation", &self.ai_explanation);
        push_list_section(md, "My Notes", &self.my_notes);
        push_list_section(md, "Review", &self.reviews);
        proof {
            let a = text_secs("Meaning"@, n.meaning);
            let b = list_secs("Examples"@, n.examples);
            let d = text_secs("AI Explanation"@, n.ai_explanation);
            let e = list_secs("My Notes"@, n.my_notes);
            let f = list_secs("Review"@, n.reviews);
            lemma_secs_concat(a, b);
            lemma_secs_concat(a + b, d);
            lemma_secs_concat(a + b + d, e);
            lemma_secs_concat(a + b + d + e, f);
            assert(final(md)@ =~= old(md)@ + secs_text(phrase_sections(n)));
        }
    }

    /// Writes the note as markdown text.
    pub fn to_markdown_string(&self) -> (r: String)
        requires
            self.wf(),
        ensures
            r@ == phrase_markdown(self@),
    {
        let mut md = String::new();
        push_delimiter(&mut md);
        self.push_header(&mut md);
        push_delimiter(&mut md);
        push_char(&mut md, '\n');
        push_title(&mut md, self.phrase.as_str());
        self.push_sections(&mut md);
        assert(md@ =~= phrase_markdown(self@));
        md
    }
}

impl MarkdownReading {
    /// Reads a reading note.
    pub fn parse(content: &str) -> (r: Result<MarkdownReading, MarkdownError>)
        ensures
            match r {
                Ok(p) => reading_parse(content@) == Ok::<ReadingNote, NoteError>(p@),
                Err(e) => reading_parse(content@) == Err::<ReadingNote, NoteError>(e@),
            },
            forall|n: ReadingNote|
                #![trigger reading_markdown(n)]
                content@ == reading_markdown(n) && reading_writable(n) ==> (r matches Ok(p)
                    ==> reading_sections_agree(p@, n)),
            forall|n: ReadingNote|
                #![trigger reading_markdown(n)]
                content@ == reading_markdown(n) && reading_writable(n) && gray_matter_parsed(
                    content@,
                ).data == Some(reading_header_data(n)) ==> (r matches Ok(p)
                    && p@ == n),
    {
        let body = front_body(content);
        proof {
            assert forall|n: ReadingNote|
                #![trigger reading_markdown(n)]
                content@ == reading_markdown(n) && reading_writable(n) implies reading_body_back(
                body@,
                n,
            ) && gray_matter_parsed(content@).content == reading_body(n).drop_last() by {
                lemma_reading_text(n);
                law_reading_body_roundtrip(n);
                assert(body@ == trim_start_nl((seq!['\n'] + reading_body(n)).drop_last()));
            }
            assert forall|n: ReadingNote|
                #![trigger reading_markdown(n)]
                content@ == reading_markdown(n) && reading_writable(n) && gray_matter_parsed(
                    content@,
                ).data == Some(reading_header_data(n)) implies reading_parse(content@)
                == Ok::<ReadingNote, NoteError>(n) by {
                law_reading_read_back(n, content@);
            }
        }
        let shape = match check_header(content, 4) {
            Ok(s) => s,
            Err(e) => return Err(e),
        };
        let title = take_optional(header_value_of(content, shape, "title", 0));
        let source = take_optional(header_value_of(content, shape, "source", 1));
        let imported_at = take_optional(header_value_of(content, shape, "imported_at", 2));
        let synced_at = take_optional(header_value_of(content, shape, "synced_at", 3));
        if title.is_none() || source.is_none() || imported_at.is_none() || synced_at.is_none() {
            return Err(MarkdownError::InvalidFrontMatter);
        }
        let b = body.as_str();
        let title = match title.unwrap() {
            Some(t) => t,
            None => String::new(),
        };
        let content_text = match extract_section(b, "Content") {
            Some(c) => c,
            None => String::new(),
        };
        Ok(
            MarkdownReading {
                title,
                source: source.unwrap(),
                content: content_text,
                vocabulary: extract_list(b, "Vocabulary"),
                summary: extract_section(b, "Summary (AI)"),
                my_notes: extract_list(b, "My Notes"),
            },
        )
    }

    /// Writes the note as markdown text.
    pub fn to_markdown_string(&self) -> (r: String)
        ensures
            r@ == reading_markdown(self@),
    {
        let ghost n = self@;
        let mut md = String::new();
        push_delimiter(&mut md);
        if !self.title.as_str().is_empty() {
            md.append("title: ");
            md.append(self.title.as_str());
            push_char(&mut md, '\n');
        }
        match &self.source {
            Some(src) => {
                md.append("source: ");
                md.append(src.as_str());
                push_char(&mut md, '\n');
            },
            None => {},
        }
        assert(md@ =~= seq!['-', '-', '-', '\n'] + reading_header(n));
        push_delimiter(&mut md);
        push_char(&mut md, '\n');
        push_title(&mut md, self.title.as_str());
        let ghost start = md@;
        let content = Some(self.content.clone());
        push_text_section(&mut md, "Content", &content);
        push_list_section(&mut md, "Vocabulary", &self.vocabulary);
        push_text_section(&mut md, "Summary (AI)", &self.summary);
        push_list_section(&mut md, "My Notes", &self.my_notes);
        proof {
            let a = text_secs("Content"@, Some(n.content));
            let b = list_secs("Vocabulary"@, n.vocabulary);
            let c = text_secs("Summary (AI)"@, n.summary);
            let d = list_secs("My Notes"@, n.my_notes);
            lemma_secs_concat(a, b);
            lemma_secs_concat(a + b, c);
            lemma_secs_concat(a + b + c, d);
            assert(md@ =~= start + secs_text(reading_sections(n)));
        }
        assert(md@ =~= reading_markdown(n));
        md
    }
}

} // verus!
