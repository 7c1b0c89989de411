//! Spaced repetition: what a graded review does to an item's familiarity,
//! interval and ease, and the checks and lines around it.

use vstd::prelude::*;
use crate::text::{chars_of, decimal, push_char, push_decimal, text_eq, trim_ws};
use crate::datetime::{day_format, day_text, format_datetime, DateTime};
use crate::note::opt_view;
use crate::section::trim_text;

verus! {

/// A grade clamped to 0..5.
pub open spec fn clamp_quality(q: int) -> int {
    if q < 0 {
        0
    } else if q > 5 {
        5
    } else {
        q
    }
}

/// How the ease factor changes after a review.
#[derive(Clone, Copy, PartialEq, Eq, Structural, Debug)]
pub enum EaseChange {
    /// Down by 0.2, but not below 1.3.
    Lower,
    /// Unchanged.
    Keep,
    /// Up by 0.15, but not above 3.0.
    RaiseSmall,
    /// Up by 0.2, but not above 3.0.
    RaiseLarge,
}

/// The next review interval.
#[derive(Clone, Copy, PartialEq, Eq, Structural, Debug)]
pub enum NextInterval {
    /// This many days.
    Days(i32),
    /// The current interval times the new ease factor, rounded.
    ScaledByEase,
}

/// What a review does to an item, the ease factor's arithmetic aside.
#[derive(Clone, Copy, PartialEq, Eq, Structural, Debug)]
pub struct ReviewPlan {
    /// The grade, clamped to 0..5.
    pub quality: i32,
    pub familiarity: i32,
    pub interval: NextInterval,
    pub ease: EaseChange,
}

/// The plan for a review graded `quality` of an item due every
/// `current_interval` days: a failed grade (2 or less) starts over at one
/// day and lowers the ease; 3 keeps interval and ease; 4 and 5 raise the
/// ease and stretch the interval by it (a first interval is one day).
pub open spec fn review_plan(quality: int, current_interval: i32) -> ReviewPlan {
    let q = clamp_quality(quality);
    if q <= 2 {
        ReviewPlan {
            quality: q as i32,
            familiarity: 0,
            interval: NextInterval::Days(1),
            ease: EaseChange::Lower,
        }
    } else if q == 3 {
        ReviewPlan {
            quality: 3,
            familiarity: 1,
            interval: NextInterval::Days(current_interval),
            ease: EaseChange::Keep,
        }
    } else {
        ReviewPlan {
            quality: q as i32,
            familiarity: (q - 2) as i32,
            interval: if current_interval == 0 {
                NextInterval::Days(1)
            } else {
                NextInterval::ScaledByEase
            },
            ease: if q == 4 {
                EaseChange::RaiseSmall
            } else {
                EaseChange::RaiseLarge
            },
        }
    }
}

/// Plans a review graded `quality` of an item due every `current_interval`
/// days.
pub fn plan_review(quality: i32, current_interval: i32) -> (r: ReviewPlan)
    ensures
        r == review_plan(quality as int, current_interval),
{
    let q = if quality < 0 {
        0
    } else if quality > 5 {
        5
    } else {
        quality
    };
    if q <= 2 {
        ReviewPlan {
            quality: q,
            familiarity: 0,
            interval: NextInterval::Days(1),
            ease: EaseChange::Lower,
        }
    } else if q == 3 {
        ReviewPlan {
            quality: 3,
            familiarity: 1,
            interval: NextInterval::Days(current_interval),
            ease: EaseChange::Keep,
        }
    } else {
        ReviewPlan {
            quality: q,
            familiarity: q - 2,
            interval: if current_interval == 0 {
                NextInterval::Days(1)
            } else {
                NextInterval::ScaledByEase
            },
            ease: if q == 4 {
                EaseChange::RaiseSmall
            } else {
                EaseChange::RaiseLarge
            },
        }
    }
}

/// Familiarity after a review is between 0 and 3, and a better grade never
/// gives a lower one.
pub proof fn law_familiarity(q1: int, q2: int, current_interval: i32)
    ensures
        0 <= review_plan(q1, current_interval).familiarity <= 3,
        q1 <= q2 ==> review_plan(q1, current_interval).familiarity <= review_plan(
            q2,
            current_interval,
        ).familiarity,
{
}

/// A failed grade always starts the item over at one day with a lower
/// ease; a passing one never lowers the ease.
pub proof fn law_failed_resets(q: int, current_interval: i32)
    ensures
        clamp_quality(q) <= 2 ==> review_plan(q, current_interval).interval == NextInterval::Days(
            1,
        ) && review_plan(q, current_interval).ease == EaseChange::Lower,
        clamp_quality(q) >= 3 ==> review_plan(q, current_interval).ease != EaseChange::Lower,
{
}

/// A grade of 4 or 5 stretches the interval by the new ease whenever the
/// item already has one: a first interval (0) becomes one day, and one day
/// is given from such a grade only then. A 4 raises the ease a little, a 5
/// more, and familiarity is the grade less two.
pub proof fn law_passing_grade_stretches(q: int, current_interval: i32)
    requires
        clamp_quality(q) >= 4,
    ensures
        current_interval != 0 ==> review_plan(q, current_interval).interval
            == NextInterval::ScaledByEase,
        current_interval == 0 ==> review_plan(q, current_interval).interval == NextInterval::Days(
            1,
        ),
        review_plan(q, current_interval).interval == NextInterval::Days(1) <==> current_interval
            == 0,
        review_plan(q, current_interval).familiarity == clamp_quality(q) - 2,
        clamp_quality(q) == 4 ==> review_plan(q, current_interval).ease == EaseChange::RaiseSmall,
        clamp_quality(q) == 5 ==> review_plan(q, current_interval).ease == EaseChange::RaiseLarge,
{
}

/// A grade of 3 keeps the interval and the ease as they are and sets
/// familiarity to 1; any grade is recorded clamped to 0..5.
pub proof fn law_grade_three_keeps(q: int, current_interval: i32)
    ensures
        clamp_quality(q) == 3 ==> review_plan(q, current_interval).interval == NextInterval::Days(
            current_interval,
        ) && review_plan(q, current_interval).ease == EaseChange::Keep && review_plan(
            q,
            current_interval,
        ).familiarity == 1,
        0 <= review_plan(q, current_interval).quality <= 5,
        0 <= q <= 5 ==> review_plan(q, current_interval).quality == q,
        q < 0 ==> review_plan(q, current_interval).quality == 0,
        q > 5 ==> review_plan(q, current_interval).quality == 5,
{
}

/// An ASCII decimal digit.
pub open spec fn is_digit(c: char) -> bool {
    '0' <= c && c <= '9'
}

/// Every character of `s` is a digit.
pub open spec fn all_digits(s: Seq<char>) -> bool {
    forall|i: int| 0 <= i < s.len() ==> is_digit(#[trigger] s[i])
}

/// The number that the digits `s` write.
pub open spec fn digits_value(s: Seq<char>) -> int
    decreases s.len(),
{
    if s.len() == 0 {
        0
    } else {
        digits_value(s.drop_last()) * 10 + (s.last() as int - '0' as int)
    }
}

/// What `str::parse::<i32>` reads from `s`: an optional `+` or `-`, then at
/// least one digit, with a value that fits in an `i32`.
pub open spec fn parsed_i32(s: Seq<char>) -> Option<i32> {
    let signed = s.len() > 0 && (s[0] == '+' || s[0] == '-');
    let body = if signed {
        s.drop_first()
    } else {
        s
    };
    let v = if signed && s[0] == '-' {
        -digits_value(body)
    } else {
        digits_value(body)
    };
    if body.len() > 0 && all_digits(body) && i32::MIN <= v <= i32::MAX {
        Some(v as i32)
    } else {
        None
    }
}

proof fn lemma_digits_grow(s: Seq<char>, i: int)
    requires
        all_digits(s),
        0 <= i <= s.len(),
    ensures
        0 <= digits_value(s.take(i)) <= digits_value(s),
    decreases s.len() - i,
{
    if i < s.len() {
        lemma_digits_grow(s, i + 1);
        assert(s.take(i + 1).drop_last() =~= s.take(i));
        assert(is_digit(s[i]));
    } else {
        assert(s.take(i) =~= s);
        lemma_digits_nonneg(s);
    }
}

proof fn lemma_digits_nonneg(s: Seq<char>)
    requires
        all_digits(s),
    ensures
        digits_value(s) >= 0,
    decreases s.len(),
{
    if s.len() > 0 {
        assert(all_digits(s.drop_last())) by {
            assert forall|i: int| 0 <= i < s.drop_last().len() implies is_digit(
                #[trigger] s.drop_last()[i],
            ) by {
                assert(s.drop_last()[i] == s[i]);
            }
        }
        lemma_digits_nonneg(s.drop_last());
        assert(is_digit(s[s.len() - 1]));
    }
}

/// Reads an `i32` as `str::parse` does.
pub fn parse_i32(text: &str) -> (r: Option<i32>)
    ensures
        r == parsed_i32(text@),
{
    let v = chars_of(text);
    let n = v.len();
    let signed = n > 0 && (v[0] == '+' || v[0] == '-');
    let negative = signed && v[0] == '-';
    let start: usize = if signed {
        1
    } else {
        0
    };
    let ghost body = if signed {
        text@.drop_first()
    } else {
        text@
    };
    assert(body =~= v@.subrange(start as int, n as int));
    if start >= n {
        return None;
    }
    if !all_digits_from(&v, start) {
        proof {
            let j = choose|j: int| start <= j < v.len() && !is_digit(#[trigger] v@[j]);
            assert(body[j - start] == v@[j]);
        }
        return None;
    }
    assert(all_digits(body)) by {
        assert forall|j: int| 0 <= j < body.len() implies is_digit(#[trigger] body[j]) by {
            assert(body[j] == v@[start + j]);
        }
    }
    let mut acc: i64 = 0;
    let mut big = false;
    let mut i: usize = start;
    while i < n
        invariant
            start <= i <= n == v@.len(),
            body =~= v@.subrange(start as int, n as int),
            all_digits(body),
            !big ==> acc == digits_value(body.take(i - start)),
            0 <= acc <= 2147483648,
            big ==> digits_value(body.take(i - start)) > 2147483648,
        decreases n - i,
    {
        let ghost k = i - start;
        assert(body.take(k + 1).drop_last() =~= body.take(k));
        assert(body.take(k + 1).last() == v@[i as int]);
        assert(is_digit(body[k]));
        proof {
            lemma_digits_grow(body, k);
        }
        let d = (v[i] as u32 - '0' as u32) as i64;
        if !big {
            let b = acc * 10 + d;
            if b > 2147483648 {
                big = true;
            } else {
                acc = b;
            }
        }
        i = i + 1;
    }
    assert(body.take(n - start) =~= body);
    if big {
        return None;
    }
    if negative {
        Some((-acc) as i32)
    } else if acc <= 2147483647 {
        Some(acc as i32)
    } else {
        None
    }
}

/// Every character of `v` from `from` on is a digit.
fn all_digits_from(v: &Vec<char>, from: usize) -> (r: bool)
    requires
        from <= v.len(),
    ensures
        r == (forall|j: int| from <= j < v.len() ==> is_digit(#[trigger] v@[j])),
{
    let mut i = from;
    while i < v.len()
        invariant
            from <= i <= v.len(),
            forall|j: int| from <= j < i ==> is_digit(#[trigger] v@[j]),
        decreases v.len() - i,
    {
        if !('0' <= v[i] && v[i] <= '9') {
            return false;
        }
        i = i + 1;
    }
    true
}

/// The grade typed in answer to a review prompt: the trimmed input read as
/// an integer (0 where it is none), clamped to 0..5.
pub open spec fn typed_quality(input: Seq<char>) -> int {
    clamp_quality(
        match parsed_i32(trim_ws(input)) {
            Some(v) => v as int,
            None => 0,
        },
    )
}

/// Reads the grade typed in answer to a review prompt.
pub fn quality_from_input(input: &str) -> (r: i32)
    ensures
        r == typed_quality(input@),
{
    let t = trim_text(input);
    let q = match parse_i32(t.as_str()) {
        Some(v) => v,
        None => 0,
    };
    if q < 0 {
        0
    } else if q > 5 {
        5
    } else {
        q
    }
}

/// What can be reviewed.
#[derive(Clone, Copy, PartialEq, Eq, Structural, Debug)]
pub enum ReviewTarget {
    Word,
    Phrase,
}

/// The review target named `s`, if any.
pub open spec fn target_named(s: Seq<char>) -> Option<ReviewTarget> {
    if s == "word"@ {
        Some(ReviewTarget::Word)
    } else if s == "phrase"@ {
        Some(ReviewTarget::Phrase)
    } else {
        None
    }
}

impl ReviewTarget {
    /// The name of the target, as stored.
    pub fn as_str(self) -> (r: &'static str)
        ensures
            target_named(r@) == Some(self),
    {
        proof {
            reveal_strlit("word");
            reveal_strlit("phrase");
        }
        match self {
            ReviewTarget::Word => {
                let r = "word";
                assert(target_named(r@) == Some(ReviewTarget::Word));
                r
            },
            ReviewTarget::Phrase => {
                let r = "phrase";
                proof {
                    reveal_strlit("word");
                    reveal_strlit("phrase");
                }
                assert(r@.len() == 6);
                assert(r@ != "word"@);
                r
            },
        }
    }
}

/// Why a submitted review is refused.
#[derive(Clone, Copy, PartialEq, Eq, Structural, Debug)]
pub enum ReviewRequestError {
    /// The grade is not between 0 and 5.
    QualityOutOfRange,
    /// The target is neither a word nor a phrase.
    UnknownTarget,
}

impl ReviewRequestError {
    /// The message shown for the error.
    pub fn message(self) -> (r: String)
        ensures
            r@ == (match self {
                ReviewRequestError::QualityOutOfRange => "quality must be between 0 and 5"@,
                ReviewRequestError::UnknownTarget => "target_type must be 'word' or 'phrase'"@,
            }),
    {
        match self {
            ReviewRequestError::QualityOutOfRange => String::from_str(
                "quality must be between 0 and 5",
            ),
            ReviewRequestError::UnknownTarget => String::from_str(
                "target_type must be 'word' or 'phrase'",
            ),
        }
    }
}

/// Checks a submitted review: the grade first, then the target.
pub fn check_review_submit(target_type: &str, quality: i32) -> (r: Result<
    ReviewTarget,
    ReviewRequestError,
>)
    ensures
        r == (if quality < 0 || quality > 5 {
            Err(ReviewRequestError::QualityOutOfRange)
        } else {
            match target_named(target_type@) {
                Some(t) => Ok(t),
                None => Err(ReviewRequestError::UnknownTarget),
            }
        }),
{
    if quality < 0 || quality > 5 {
        return Err(ReviewRequestError::QualityOutOfRange);
    }
    if text_eq(target_type, "word") {
        Ok(ReviewTarget::Word)
    } else if text_eq(target_type, "phrase") {
        Ok(ReviewTarget::Phrase)
    } else {
        Err(ReviewRequestError::UnknownTarget)
    }
}

/// `N/A`, written where a value is missing.
pub open spec fn not_available() -> Seq<char> {
    seq!['N', '/', 'A']
}

/// A line of the full review listing:
/// `"  name | familiarity: f | next_review: date | meaning"`, with `N/A` for a
/// missing date or meaning.
pub open spec fn listing_line(
    name: Seq<char>,
    familiarity: i32,
    next_review: Option<DateTime>,
    meaning: Option<Seq<char>>,
) -> Seq<char> {
    "  "@ + name + " | familiarity: "@ + decimal(familiarity as int) + " | next_review: "@ + (
    match next_review {
        Some(d) => day_text(d),
        None => not_available(),
    }) + " | "@ + (match meaning {
        Some(m) => m,
        None => not_available(),
    })
}

/// Writes a line of the full review listing.
pub fn review_list_line(
    name: &str,
    familiarity: i32,
    next_review: Option<DateTime>,
    meaning: &Option<String>,
) -> (r: String)
    requires
        next_review matches Some(d) ==> d.wf(),
    ensures
        r@ == listing_line(name@, familiarity, next_review, opt_view(*meaning)),
{
    let mut s = String::from_str("  ");
    s.append(name);
    s.append(" | familiarity: ");
    push_decimal(&mut s, familiarity as i64);
    s.append(" | next_review: ");
    match next_review {
        Some(d) => {
            proof {
                reveal_strlit("%Y-%m-%d");
            }
            assert("%Y-%m-%d"@ =~= day_format());
            let t = format_datetime(&d, "%Y-%m-%d");
            s.append(t.as_str());
        },
        None => {
            s.append("N/A");
            proof {
                reveal_strlit("N/A");
            }
        },
    }
    s.append(" | ");
    match meaning {
        Some(m) => s.append(m.as_str()),
        None => {
            s.append("N/A");
            proof {
                reveal_strlit("N/A");
            }
        },
    }
    assert(s@ =~= listing_line(name@, familiarity, next_review, opt_view(*meaning)));
    s
}

} // verus!
