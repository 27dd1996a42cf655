//! Schedules, clock readings and time limits.
//!
//! Clock readings are whole seconds since the Unix epoch. The library never
//! reads a clock itself: its callers hand the reading in.

use crate::primitives::TimeSpan;
use std::str::FromStr;
use vstd::prelude::*;
use vstd::std_specs::iter::IteratorSpec;

verus! {

/// The last clock reading that is taken as a date: the end of the last day
/// but one of the year 262142, which is as far as the calendar of the UTC
/// times reaches with a second to spare.
pub const MAX_CLOCK_SECS: u64 = 8_210_266_790_399;

/// What the cron schedule `expression` gives for the clock reading `after`:
/// `None` where it is no schedule, else the first time of the schedule
/// later than `after`, if there is one.
pub uninterp spec fn cron_next_after(expression: Seq<char>, after: int) -> Option<Option<int>>;

/// The way a clock reading is written in messages.
pub uninterp spec fn utc_text(secs: int) -> Seq<char>;

/// The length in nanoseconds of the span that `text` describes in words
/// such as `2 min 30s`, or `None` where it describes none.
pub uninterp spec fn parsed_duration_nanos(text: Seq<char>) -> Option<nat>;

/// Whether `c` is one of the digits `0` to `9`.
pub open spec fn is_digit(c: char) -> bool {
    '0' <= c && c <= '9'
}

/// Whether the character at `i` opens an exponent of five digits or more.
pub open spec fn long_exponent_at(text: Seq<char>, i: int) -> bool {
    let j = if i + 1 < text.len() && (text[i + 1] == '+' || text[i + 1] == '-') {
        i + 2
    } else {
        i + 1
    };
    &&& 0 <= i < text.len()
    &&& (text[i] == 'e' || text[i] == 'E')
    &&& j + 4 < text.len()
    &&& is_digit(text[j])
    &&& is_digit(text[j + 1])
    &&& is_digit(text[j + 2])
    &&& is_digit(text[j + 3])
    &&& is_digit(text[j + 4])
}

/// Whether `text` is read as a time limit at all: no number in it has an
/// exponent of five digits or more.
pub open spec fn is_time_limit_text(text: Seq<char>) -> bool {
    forall|i: int| !long_exponent_at(text, i)
}

/// The time limit that `text` describes, in nanoseconds.
pub open spec fn time_limit_nanos(text: Seq<char>) -> Option<nat> {
    if is_time_limit_text(text) {
        parsed_duration_nanos(text)
    } else {
        None
    }
}

/// Looks up the first time of a cron schedule after a clock reading.
///
/// Trusted: calls `cron::Schedule::from_str`, and on a schedule
/// `Schedule::after` with the reading as a UTC time (made by
/// `chrono::DateTime::from_timestamp`) and takes the iterator's first item.
/// The outcome depends on the expression and the reading alone. The search
/// starts one second after the reading, so that the time found is later
/// than the reading; for the same reason the reading is bounded.
#[verifier::external_body]
pub(crate) fn cron_first_after(expression: &str, after_secs: i64) -> (r: Option<Option<i64>>)
    requires
        0 <= after_secs <= MAX_CLOCK_SECS,
    ensures
        match r {
            Some(Some(t)) => cron_next_after(expression@, after_secs as int) == Some(
                Some(t as int),
            ) && t > after_secs,
            Some(None) => cron_next_after(expression@, after_secs as int) == Some(
                None::<int>,
            ),
            None => cron_next_after(expression@, after_secs as int).is_none(),
        },
{
    match (cron::Schedule::from_str(expression), chrono::DateTime::from_timestamp(after_secs, 0)) {
        (Ok(schedule), Some(start)) => Some(schedule.after(&start).next().map(|t| t.timestamp())),
        _ => None,
    }
}

/// Writes a clock reading for a message.
///
/// Trusted: calls `chrono::DateTime::from_timestamp` and the `Display` impl
/// of the UTC time it returns; within the bound the reading is a valid time.
#[verifier::external_body]
pub(crate) fn format_utc(secs: i64) -> (r: String)
    requires
        0 <= secs <= MAX_CLOCK_SECS,
    ensures
        r@ == utc_text(secs as int),
{
    chrono::DateTime::from_timestamp(secs, 0).map(|t| t.to_string()).unwrap_or_default()
}

/// Reads a span of time from words.
///
/// Trusted: calls `parse_duration::parse`, whose result depends on the text
/// alone. The spans it returns are of `std::time::Duration`, whose
/// nanosecond part is below one second. The exponents are bounded because
/// the parser raises ten to the power of each exponent it reads.
#[verifier::external_body]
pub(crate) fn parse_duration_text(text: &str) -> (r: Option<TimeSpan>)
    requires
        is_time_limit_text(text@),
    ensures
        match r {
            Some(span) => span.wf() && parsed_duration_nanos(text@) == Some(span.total_nanos()),
            None => parsed_duration_nanos(text@).is_none(),
        },
{
    match parse_duration::parse(text) {
        Ok(span) => Some(TimeSpan { secs: span.as_secs(), nanos: span.subsec_nanos() }),
        Err(_) => None,
    }
}

/// Whether `c` is one of the digits `0` to `9`.
fn char_is_digit(c: char) -> (r: bool)
    ensures
        r == is_digit(c),
{
    '0' <= c && c <= '9'
}

/// The characters of a text.
pub fn chars_of(text: &str) -> (r: Vec<char>)
    ensures
        r@ == text@,
{
    broadcast use vstd::string::group_string_axioms;

    let mut chars: Vec<char> = Vec::new();
    for c in it: text.chars()
        invariant
            it.seq() == text@,
            chars@ == text@.take(it.index() as int),
    {
        chars.push(c);
        assert(text@.take(it.index() + 1) =~= text@.take(it.index() as int).push(c));
    }
    assert(text@.take(text@.len() as int) =~= text@);
    chars
}

/// Whether the character at `i` opens an exponent of five digits or more.
fn has_long_exponent_at(text: &Vec<char>, i: usize) -> (r: bool)
    requires
        i < text@.len(),
    ensures
        r == long_exponent_at(text@, i as int),
{
    let len = text.len();
    let c = text[i];
    if c != 'e' && c != 'E' {
        return false;
    }
    let mut j: usize = i + 1;
    if j < len && (text[j] == '+' || text[j] == '-') {
        if j == usize::MAX {
            return false;
        }
        j = j + 1;
    }
    if len < 5 || j >= len - 4 {
        return false;
    }
    char_is_digit(text[j]) && char_is_digit(text[j + 1]) && char_is_digit(text[j + 2])
        && char_is_digit(text[j + 3]) && char_is_digit(text[j + 4])
}

/// Reads a time limit from words such as `2 min 30s`. Texts with an
/// exponent of five digits or more are not read.
pub fn parse_time_limit(text: &str) -> (r: Option<TimeSpan>)
    ensures
        match r {
            Some(span) => span.wf() && time_limit_nanos(text@) == Some(span.total_nanos()),
            None => time_limit_nanos(text@).is_none(),
        },
{
    let chars = chars_of(text);
    let mut i: usize = 0;
    while i < chars.len()
        invariant
            i <= chars.len(),
            chars@ == text@,
            forall|k: int| 0 <= k < i ==> !long_exponent_at(text@, k),
        decreases chars.len() - i,
    {
        if has_long_exponent_at(&chars, i) {
            return None;
        }
        i += 1;
    }
    parse_duration_text(text)
}

} // verus!
