//! Event time stamps, read from the text form `<seconds>.<milliseconds>`.

use crate::numbers::{bounded_integer, integer_literal, is_digit, parse_integer};
use crate::text::{leading, lemma_leading_bounds, lemma_leading_is};
use vstd::prelude::*;

verus! {

/// The first second that a UTC date-time can hold: the start of the year
/// -262143 of the proleptic Gregorian calendar, counted from 1970-01-01.
pub const MIN_SECONDS: i64 = -8_334_601_228_800;

/// The last second that a UTC date-time can hold: the end of the year 262142.
pub const MAX_SECONDS: i64 = 8_210_266_876_799;

/// A point in time: whole seconds since 1970-01-01T00:00:00 UTC, and
/// milliseconds after that second.
#[derive(Clone, Copy, Debug, PartialEq, Eq, Structural)]
pub struct Timestamp {
    pub seconds: i64,
    pub millis: u32,
}

/// Why a text is no time stamp.
#[derive(Clone, Copy, Debug, PartialEq, Eq, Structural)]
pub enum TimestampError {
    /// The part before the first `.` is no integer of 64 bits.
    Seconds,
    /// There is no `.`, so no part that could hold the milliseconds.
    MissingMilliseconds,
    /// The part after the first `.` is no unsigned integer of 32 bits.
    Milliseconds,
    /// Both parts are numbers, but no UTC date-time has them.
    OutOfRange,
}

/// Whether a UTC date-time exists at `seconds` since the epoch and `nanos`
/// nanoseconds after that second. The seconds must fall in the years that a
/// date can hold; a billion nanoseconds or more denote a leap second, which
/// can only follow the last second of a minute.
pub open spec fn utc_instant_exists(seconds: int, nanos: int) -> bool {
    &&& MIN_SECONDS <= seconds <= MAX_SECONDS
    &&& 0 <= nanos < 2_000_000_000
    &&& (nanos >= 1_000_000_000 ==> seconds % 60 == 59)
}

/// `chrono::DateTime::<Utc>::from_timestamp`, asked only whether it yields a
/// date-time. Trusted: it does so exactly when the day of `seconds` lies in
/// the years -262143 to 262142 and `nanos` is below one billion, or below
/// two billion in the last second of a minute.
#[verifier::external_body]
fn has_utc_instant(seconds: i64, nanos: u32) -> (representable: bool)
    ensures
        representable == utc_instant_exists(seconds as int, nanos as int),
{
    chrono::DateTime::from_timestamp(seconds, nanos).is_some()
}

impl Timestamp {
    /// The instant in milliseconds since the epoch.
    pub open spec fn instant_millis(self) -> int {
        self.seconds * 1000 + self.millis
    }

    /// A UTC date-time exists for this time stamp.
    pub open spec fn is_representable(self) -> bool {
        utc_instant_exists(self.seconds as int, self.millis * 1_000_000)
    }
}

/// The class of the characters that may stand inside one part of a time
/// stamp: all but the `.` that parts the seconds from the milliseconds.
pub open spec fn within_part() -> spec_fn(char) -> bool {
    |c: char| c != '.'
}

/// The part of `raw` that holds the seconds: what stands before the first
/// `.`, or all of `raw` if it has none.
pub open spec fn seconds_part(raw: Seq<char>) -> Seq<char> {
    raw.take(leading(raw, within_part()) as int)
}

/// The part of `raw` that holds the milliseconds, if `raw` has a `.`: what
/// stands between the first `.` and the next one or the end.
pub open spec fn millis_part(raw: Seq<char>) -> Option<Seq<char>> {
    let first = leading(raw, within_part()) as int;
    if first < raw.len() {
        let rest = raw.skip(first + 1);
        Some(rest.take(leading(rest, within_part()) as int))
    } else {
        None
    }
}

/// The time stamp that `raw` denotes, or why it denotes none. The seconds
/// are a signed integer literal of 64 bits, the milliseconds an unsigned one
/// of 32 bits, and a UTC date-time must exist for the two.
pub open spec fn timestamp_of(raw: Seq<char>) -> Result<Timestamp, TimestampError> {
    match bounded_integer(seconds_part(raw), true, i64::MIN as int, i64::MAX as int) {
        None => Err(TimestampError::Seconds),
        Some(seconds) => match millis_part(raw) {
            None => Err(TimestampError::MissingMilliseconds),
            Some(part) => match bounded_integer(part, false, 0, u32::MAX as int) {
                None => Err(TimestampError::Milliseconds),
                Some(millis) => if utc_instant_exists(seconds, millis * 1_000_000) {
                    Ok(Timestamp { seconds: seconds as i64, millis: millis as u32 })
                } else {
                    Err(TimestampError::OutOfRange)
                },
            },
        },
    }
}

/// Reads a time stamp of the form `<seconds>.<milliseconds>`.
pub fn parse_timestamp(raw: &str) -> (r: Result<Timestamp, TimestampError>)
    ensures
        r == timestamp_of(raw@),
{
    let len = raw.unicode_len();
    let mut first: usize = len;
    let mut second: usize = len;
    let mut position: usize = 0;
    for c in it: raw.chars()
        invariant
            it.seq() == raw@,
            len == raw@.len(),
            position == it.index(),
            first == len || first < position,
            second == len || first < second < position,
            forall|i: int|
                0 <= i < position && (first == len || i < first) ==> #[trigger] raw@[i] != '.',
            forall|i: int|
                first < i < position && (second == len || i < second) ==> #[trigger] raw@[i]
                    != '.',
            first < len ==> raw@[first as int] == '.',
            second < len ==> raw@[second as int] == '.',
    {
        if c == '.' {
            if first == len {
                first = position;
            } else if second == len {
                second = position;
            }
        }
        position = position + 1;
    }
    proof {
        lemma_leading_is(raw@, within_part(), first as int);
        if first < len {
            let rest = raw@.skip(first + 1);
            assert forall|i: int| 0 <= i < second - first - 1 implies within_part()(
                #[trigger] rest[i],
            ) by {
                assert(rest[i] == raw@[first + 1 + i]);
            }
            if second < len {
                assert(rest[second - first - 1] == raw@[second as int]);
            }
            lemma_leading_is(rest, within_part(), second - first - 1);
            assert(rest.take(second - first - 1) == raw@.subrange(first + 1, second as int));
        }
    }
    let seconds = match parse_integer(raw.substring_char(0, first), true, i64::MIN, i64::MAX) {
        Some(seconds) => seconds,
        None => {
            return Err(TimestampError::Seconds);
        },
    };
    if first == len {
        return Err(TimestampError::MissingMilliseconds);
    }
    let millis = match parse_integer(raw.substring_char(first + 1, second), false, 0, 0xffff_ffff) {
        Some(millis) => millis,
        None => {
            return Err(TimestampError::Milliseconds);
        },
    };
    if millis >= 2000 {
        return Err(TimestampError::OutOfRange);
    }
    let millis = millis as u32;
    if has_utc_instant(seconds, millis * 1_000_000) {
        Ok(Timestamp { seconds, millis })
    } else {
        Err(TimestampError::OutOfRange)
    }
}

/// No `.` stands in an integer literal.
proof fn lemma_integer_literal_within_part(s: Seq<char>, signed: bool)
    requires
        integer_literal(s, signed) is Some,
    ensures
        forall|i: int| 0 <= i < s.len() ==> within_part()(#[trigger] s[i]),
{
    assert forall|i: int| 0 <= i < s.len() implies within_part()(#[trigger] s[i]) by {
        if s[0] == '+' || (signed && s[0] == '-') {
            if i > 0 {
                assert(s.skip(1)[i - 1] == s[i]);
                assert(is_digit(s.skip(1)[i - 1]));
            }
        } else {
            assert(is_digit(s[i]));
        }
    }
}

/// The seconds as an integer literal, a `.` and the milliseconds as an
/// unsigned integer literal denote the time stamp of these two numbers,
/// if a UTC date-time exists for them: the instant that lies `millis`
/// milliseconds after the second `seconds`. Whatever follows a second `.`
/// is of no account.
pub proof fn lemma_timestamp_of_parts(
    seconds_text: Seq<char>,
    millis_text: Seq<char>,
    rest: Seq<char>,
    seconds: int,
    millis: int,
)
    requires
        integer_literal(seconds_text, true) == Some(seconds),
        integer_literal(millis_text, false) == Some(millis),
        i64::MIN <= seconds <= i64::MAX,
        0 <= millis <= u32::MAX,
        utc_instant_exists(seconds, millis * 1_000_000),
    ensures
        timestamp_of(seconds_text + seq!['.'] + millis_text) == Ok::<Timestamp, TimestampError>(
            Timestamp { seconds: seconds as i64, millis: millis as u32 },
        ),
        timestamp_of(seconds_text + seq!['.'] + millis_text + seq!['.'] + rest) == Ok::<
            Timestamp,
            TimestampError,
        >(Timestamp { seconds: seconds as i64, millis: millis as u32 }),
        (Timestamp { seconds: seconds as i64, millis: millis as u32 }).instant_millis() == seconds
            * 1000 + millis,
{
    lemma_integer_literal_within_part(seconds_text, true);
    lemma_integer_literal_within_part(millis_text, false);
    let first = seconds_text.len() as int;
    let short = seconds_text + seq!['.'] + millis_text;
    let long = short + seq!['.'] + rest;
    assert forall|i: int| 0 <= i < first implies within_part()(#[trigger] short[i]) by {
        assert(short[i] == seconds_text[i]);
    }
    assert forall|i: int| 0 <= i < first implies within_part()(#[trigger] long[i]) by {
        assert(long[i] == seconds_text[i]);
    }
    assert(short[first] == '.');
    assert(long[first] == '.');
    lemma_leading_is(short, within_part(), first);
    lemma_leading_is(long, within_part(), first);
    assert(short.take(first) == seconds_text);
    assert(long.take(first) == seconds_text);
    assert(short.skip(first + 1) == millis_text);
    assert(long.skip(first + 1) == millis_text + seq!['.'] + rest);
    let tail = millis_text + seq!['.'] + rest;
    assert forall|i: int| 0 <= i < millis_text.len() implies within_part()(#[trigger] tail[i]) by {
        assert(tail[i] == millis_text[i]);
    }
    assert(tail[millis_text.len() as int] == '.');
    lemma_leading_is(millis_text, within_part(), millis_text.len() as int);
    lemma_leading_is(tail, within_part(), millis_text.len() as int);
    assert(millis_text.take(millis_text.len() as int) == millis_text);
    assert(tail.take(millis_text.len() as int) == millis_text);
}

/// A text that lacks one of the two parts denotes no time stamp, nor does
/// one in which a part is not the number that it has to be: the seconds
/// fail first, then the milliseconds.
pub proof fn lemma_timestamp_errors(raw: Seq<char>)
    ensures
        (forall|i: int| 0 <= i < raw.len() ==> raw[i] != '.') ==> timestamp_of(raw) is Err,
        seconds_part(raw).len() == 0 ==> timestamp_of(raw) == Err::<Timestamp, TimestampError>(
            TimestampError::Seconds,
        ),
        millis_part(raw) matches Some(part) && part.len() == 0 ==> timestamp_of(raw) is Err,
        integer_literal(seconds_part(raw), true) is None ==> timestamp_of(raw) == Err::<
            Timestamp,
            TimestampError,
        >(TimestampError::Seconds),
        millis_part(raw) matches Some(part) && integer_literal(part, false) is None
            ==> timestamp_of(raw) is Err,
{
    lemma_leading_bounds(raw, within_part());
    if forall|i: int| 0 <= i < raw.len() ==> raw[i] != '.' {
        let first = leading(raw, within_part()) as int;
        if first < raw.len() {
            assert(raw[first] == '.');
        }
        assert(millis_part(raw) is None);
    }
}

} // verus!
