//! Decimal literals: the text forms in which a field may carry a number.

use crate::text::{chars_of, leading, lemma_leading_is};
use vstd::prelude::*;

verus! {

/// `c` is one of the ten ASCII digits.
pub open spec fn is_digit(c: char) -> bool {
    '0' <= c <= '9'
}

/// The number that the digit `c` stands for.
pub open spec fn digit_value(c: char) -> nat
    recommends
        is_digit(c),
{
    (c as int - '0' as int) as nat
}

/// Every character of `s` is a digit.
pub open spec fn all_digits(s: Seq<char>) -> bool {
    forall|i: int| 0 <= i < s.len() ==> is_digit(#[trigger] s[i])
}

/// The number that a run of digits denotes in base ten; 0 for the empty run.
pub open spec fn digits_value(s: Seq<char>) -> nat
    recommends
        all_digits(s),
    decreases s.len(),
{
    if s.len() == 0 {
        0
    } else {
        digits_value(s.drop_last()) * 10 + digit_value(s.last())
    }
}

/// The integer that `s` denotes, if it is an integer literal: one or more
/// digits, after an optional `+` or, when `signed`, an optional `-`.
/// Nothing else may stand in `s`: no white space, no separators.
pub open spec fn integer_literal(s: Seq<char>, signed: bool) -> Option<int> {
    if s.len() > 0 && s[0] == '+' {
        unsigned_literal(s.skip(1))
    } else if signed && s.len() > 0 && s[0] == '-' {
        with_sign(true, unsigned_literal(s.skip(1)))
    } else {
        unsigned_literal(s)
    }
}

/// `magnitude` with a `-` sign before it, if `negative`.
pub open spec fn with_sign(negative: bool, magnitude: Option<int>) -> Option<int> {
    match magnitude {
        Some(m) => Some(if negative {
            -m
        } else {
            m
        }),
        None => None,
    }
}

/// The number that `s` denotes, if it is one or more digits.
pub open spec fn unsigned_literal(s: Seq<char>) -> Option<int> {
    if s.len() > 0 && all_digits(s) {
        Some(digits_value(s) as int)
    } else {
        None
    }
}

/// The integer that `s` denotes, if it is an integer literal whose value
/// lies between `min` and `max`.
pub open spec fn bounded_integer(s: Seq<char>, signed: bool, min: int, max: int) -> Option<int> {
    match integer_literal(s, signed) {
        Some(value) => if min <= value <= max {
            Some(value)
        } else {
            None
        },
        None => None,
    }
}

/// A run of digits denotes at least what any of its prefixes denotes.
proof fn lemma_digits_value_monotonic(s: Seq<char>, k: int)
    requires
        0 <= k <= s.len(),
    ensures
        digits_value(s.take(k)) <= digits_value(s),
    decreases s.len() - k,
{
    if k < s.len() {
        assert(s.take(k + 1).drop_last() == s.take(k));
        lemma_digits_value_monotonic(s, k + 1);
    } else {
        assert(s.take(k) == s);
    }
}

/// A string with a character outside ASCII is no integer literal.
proof fn lemma_integer_literal_is_ascii(s: Seq<char>, signed: bool)
    requires
        integer_literal(s, signed) is Some,
    ensures
        vstd::utf8::is_ascii_chars(s),
{
    assert forall|i: int| 0 <= i < s.len() implies '\0' <= #[trigger] s[i] <= '\u{7f}' by {
        if s[0] == '+' || (signed && s[0] == '-') {
            if i > 0 {
                assert(s.skip(1)[i - 1] == s[i]);
                assert(is_digit(s.skip(1)[i - 1]));
            }
        } else {
            assert(is_digit(s[i]));
        }
    }
}

/// The integer that `s` spells out in decimal digits, when `s` is an integer
/// literal and its value lies between `min` and `max`; `None` otherwise.
/// A `-` sign is a part of the literal only when `signed`.
pub fn parse_integer(s: &str, signed: bool, min: i64, max: i64) -> (r: Option<i64>)
    ensures
        match bounded_integer(s@, signed, min as int, max as int) {
            Some(value) => r == Some(value as i64),
            None => r is None,
        },
{
    if !s.is_ascii() {
        proof {
            if integer_literal(s@, signed) is Some {
                lemma_integer_literal_is_ascii(s@, signed);
            }
        }
        return None;
    }
    let bytes = s.as_bytes();
    proof {
        vstd::string::is_ascii_spec_bytes(s);
        vstd::utf8::is_ascii_chars_nat_bound(s@);
    }
    assert(bytes@.len() == s@.len());
    assert(forall|i: int| 0 <= i < s@.len() ==> bytes@[i] as int == #[trigger] s@[i] as int);
    let len = bytes.len();
    if len == 0 {
        return None;
    }
    assert(bytes@[0] as int == s@[0] as int);
    let negative = signed && bytes[0] == '-' as u8;
    let first: usize = if negative || bytes[0] == '+' as u8 {
        1
    } else {
        0
    };
    if first == len {
        return None;
    }
    let ghost digits = s@.skip(first as int);
    assert(s@.skip(0) == s@);
    assert(integer_literal(s@, signed) == with_sign(negative, unsigned_literal(digits)));
    let mut magnitude: u64 = 0;
    let mut i: usize = first;
    while i < len
        invariant
            first <= i <= len,
            len == s@.len(),
            len == bytes@.len(),
            digits == s@.skip(first as int),
            digits.len() > 0,
            integer_literal(s@, signed) == with_sign(negative, unsigned_literal(digits)),
            forall|j: int| 0 <= j < s@.len() ==> bytes@[j] as int == #[trigger] s@[j] as int,
            all_digits(digits.take(i - first)),
            magnitude == digits_value(digits.take(i - first)),
            magnitude <= 0x8000_0000_0000_0000,
        decreases len - i,
    {
        let byte = bytes[i];
        assert(digits[i - first] == s@[i as int]);
        if byte < '0' as u8 || byte > '9' as u8 {
            assert(!is_digit(digits[i - first]));
            return None;
        }
        let digit: u64 = (byte - '0' as u8) as u64;
        assert(digits.take(i - first + 1).drop_last() == digits.take(i - first));
        assert(digits.take(i - first + 1).last() == digits[i - first]);
        if magnitude > (0x8000_0000_0000_0000 - digit) / 10 {
            proof {
                lemma_digits_value_monotonic(digits, i - first + 1);
            }
            return None;
        }
        magnitude = magnitude * 10 + digit;
        i = i + 1;
    }
    assert(digits.take(len - first) == digits);
    let value: i128 = if negative {
        -(magnitude as i128)
    } else {
        magnitude as i128
    };
    if value < min as i128 || value > max as i128 {
        None
    } else {
        Some(value as i64)
    }
}

/// The class of the ten digits.
pub open spec fn digit() -> spec_fn(char) -> bool {
    |c: char| is_digit(c)
}

/// `c` is a sign, `+` or `-`.
pub open spec fn is_sign(c: char) -> bool {
    c == '+' || c == '-'
}

/// `c` is the letter `lower` in either case, `upper` being its capital.
pub open spec fn is_letter(c: char, lower: char, upper: char) -> bool {
    c == lower || c == upper
}

/// The number of digits that stand in `s` from `from` on, up to the first
/// character that is none.
pub open spec fn digit_run(s: Seq<char>, from: int) -> int {
    leading(s.skip(from), digit()) as int
}

/// `s` from `from` to its end is one of the words `inf`, `infinity` and
/// `nan`, in any mix of upper and lower case.
pub open spec fn is_special_real(s: Seq<char>, from: int) -> bool {
    let w = s.skip(from);
    ||| w.len() == 3 && is_letter(w[0], 'i', 'I') && is_letter(w[1], 'n', 'N') && is_letter(
        w[2],
        'f',
        'F',
    )
    ||| w.len() == 3 && is_letter(w[0], 'n', 'N') && is_letter(w[1], 'a', 'A') && is_letter(
        w[2],
        'n',
        'N',
    )
    ||| w.len() == 8 && is_letter(w[0], 'i', 'I') && is_letter(w[1], 'n', 'N') && is_letter(
        w[2],
        'f',
        'F',
    ) && is_letter(w[3], 'i', 'I') && is_letter(w[4], 'n', 'N') && is_letter(w[5], 'i', 'I')
        && is_letter(w[6], 't', 'T') && is_letter(w[7], 'y', 'Y')
}

/// `s` from `from` to its end is an exponent: the letter `e` in either case,
/// an optional sign, and one or more digits.
pub open spec fn is_exponent(s: Seq<char>, from: int) -> bool {
    let digits = if from + 1 < s.len() && is_sign(s[from + 1]) {
        from + 2
    } else {
        from + 1
    };
    &&& from < s.len()
    &&& is_letter(s[from], 'e', 'E')
    &&& digits < s.len()
    &&& digit_run(s, digits) == s.len() - digits
}

/// `s` from `from` to its end is a decimal number: digits, with a `.`
/// before, between or after them or with none, and at least one digit in
/// all; then an exponent or nothing.
pub open spec fn is_decimal_number(s: Seq<char>, from: int) -> bool {
    let point = from + digit_run(s, from);
    let has_point = point < s.len() && s[point] == '.';
    let fraction = if has_point {
        digit_run(s, point + 1)
    } else {
        0
    };
    let end = if has_point {
        point + 1 + fraction
    } else {
        point
    };
    &&& from <= s.len()
    &&& digit_run(s, from) + fraction > 0
    &&& (end == s.len() || is_exponent(s, end))
}

/// `s` is a real literal, as `f64::from_str` of std takes it: an optional
/// sign, then a decimal number or one of the words for infinity and for
/// what is not a number.
pub open spec fn is_real_literal(s: Seq<char>) -> bool {
    let from: int = if s.len() > 0 && is_sign(s[0]) {
        1
    } else {
        0
    };
    is_special_real(s, from) || is_decimal_number(s, from)
}

/// The place of the first character from `from` on that is no digit, or the
/// end of `chars`.
fn skip_digits(chars: &Vec<char>, from: usize) -> (end: usize)
    requires
        from <= chars.len(),
    ensures
        from <= end <= chars.len(),
        end - from == digit_run(chars@, from as int),
{
    let mut end: usize = from;
    while end < chars.len() && '0' <= chars[end] && chars[end] <= '9'
        invariant
            from <= end <= chars.len(),
            forall|i: int| from <= i < end ==> is_digit(#[trigger] chars@[i]),
        decreases chars.len() - end,
    {
        end = end + 1;
    }
    proof {
        let rest = chars@.skip(from as int);
        assert forall|i: int| 0 <= i < end - from implies digit()(#[trigger] rest[i]) by {
            assert(rest[i] == chars@[from + i]);
        }
        if end < chars.len() {
            assert(rest[end - from] == chars@[end as int]);
        }
        lemma_leading_is(rest, digit(), end - from);
    }
    end
}

fn letter_at(chars: &Vec<char>, at: usize, lower: char, upper: char) -> (b: bool)
    requires
        at < chars.len(),
    ensures
        b == is_letter(chars@[at as int], lower, upper),
{
    chars[at] == lower || chars[at] == upper
}

fn special_real_at(chars: &Vec<char>, from: usize) -> (b: bool)
    requires
        from <= chars.len(),
    ensures
        b == is_special_real(chars@, from as int),
{
    let n = chars.len() - from;
    proof {
        let w = chars@.skip(from as int);
        assert(forall|i: int| 0 <= i < n ==> #[trigger] w[i] == chars@[from + i]);
    }
    if n == 3 {
        (letter_at(chars, from, 'i', 'I') && letter_at(chars, from + 1, 'n', 'N') && letter_at(
            chars,
            from + 2,
            'f',
            'F',
        )) || (letter_at(chars, from, 'n', 'N') && letter_at(chars, from + 1, 'a', 'A')
            && letter_at(chars, from + 2, 'n', 'N'))
    } else if n == 8 {
        letter_at(chars, from, 'i', 'I') && letter_at(chars, from + 1, 'n', 'N') && letter_at(
            chars,
            from + 2,
            'f',
            'F',
        ) && letter_at(chars, from + 3, 'i', 'I') && letter_at(chars, from + 4, 'n', 'N')
            && letter_at(chars, from + 5, 'i', 'I') && letter_at(chars, from + 6, 't', 'T')
            && letter_at(chars, from + 7, 'y', 'Y')
    } else {
        false
    }
}

fn exponent_at(chars: &Vec<char>, from: usize) -> (b: bool)
    requires
        from < chars.len(),
    ensures
        b == is_exponent(chars@, from as int),
{
    if !letter_at(chars, from, 'e', 'E') {
        return false;
    }
    let signed = from + 1 < chars.len() && (chars[from + 1] == '+' || chars[from + 1] == '-');
    let digits = if signed {
        from + 2
    } else {
        from + 1
    };
    digits < chars.len() && skip_digits(chars, digits) == chars.len()
}

fn decimal_number_at(chars: &Vec<char>, from: usize) -> (b: bool)
    requires
        from <= chars.len(),
    ensures
        b == is_decimal_number(chars@, from as int),
{
    let point = skip_digits(chars, from);
    let has_point = point < chars.len() && chars[point] == '.';
    let end = if has_point {
        skip_digits(chars, point + 1)
    } else {
        point
    };
    let digits = if has_point {
        end - from - 1
    } else {
        end - from
    };
    digits > 0 && (end == chars.len() || exponent_at(chars, end))
}

/// Whether `s` is a real literal.
pub fn is_real(s: &str) -> (b: bool)
    ensures
        b == is_real_literal(s@),
{
    let chars = chars_of(s);
    let from: usize = if chars.len() > 0 && (chars[0] == '+' || chars[0] == '-') {
        1
    } else {
        0
    };
    special_real_at(&chars, from) || decimal_number_at(&chars, from)
}

/// A real number, held as the literal that denotes it.
#[derive(Debug, PartialEq, Eq)]
pub struct RealNumber {
    literal: String,
}

impl View for RealNumber {
    type V = Seq<char>;

    closed spec fn view(&self) -> Seq<char> {
        self.literal@
    }
}

impl Clone for RealNumber {
    fn clone(&self) -> (number: Self)
        ensures
            number@ == self@,
    {
        proof {
            use_type_invariant(self);
        }
        RealNumber { literal: self.literal.clone() }
    }
}

impl RealNumber {
    #[verifier::type_invariant]
    spec fn is_literal(self) -> bool {
        is_real_literal(self.literal@)
    }

    /// The real number that `text` denotes, if it is a real literal.
    pub fn parse(text: &str) -> (number: Option<RealNumber>)
        ensures
            match number {
                Some(number) => is_real_literal(text@) && number@ == text@,
                None => !is_real_literal(text@),
            },
    {
        if is_real(text) {
            Some(RealNumber { literal: text.to_owned() })
        } else {
            None
        }
    }

    /// The literal, which `f64::from_str` takes.
    pub fn as_str(&self) -> (literal: &str)
        ensures
            literal@ == self@,
            is_real_literal(literal@),
    {
        proof {
            use_type_invariant(self);
        }
        self.literal.as_str()
    }
}

/// A type of number that a field can hold, with the literals that denote its
/// values.
pub trait Number: Sized + View {
    /// The value that `text` denotes, if it denotes one of this type.
    spec fn denoted(text: Seq<char>) -> Option<Self::V>;

    /// Reads `text` as a value of this type.
    fn from_text(text: &str) -> (number: Option<Self>)
        ensures
            match number {
                Some(number) => Self::denoted(text@) == Some(number@),
                None => Self::denoted(text@) is None,
            },
    ;
}

impl Number for i32 {
    open spec fn denoted(text: Seq<char>) -> Option<i32> {
        match bounded_integer(text, true, i32::MIN as int, i32::MAX as int) {
            Some(value) => Some(value as i32),
            None => None,
        }
    }

    fn from_text(text: &str) -> (number: Option<i32>) {
        match parse_integer(text, true, -0x8000_0000, 0x7fff_ffff) {
            Some(value) => Some(value as i32),
            None => None,
        }
    }
}

impl Number for i64 {
    open spec fn denoted(text: Seq<char>) -> Option<i64> {
        match bounded_integer(text, true, i64::MIN as int, i64::MAX as int) {
            Some(value) => Some(value as i64),
            None => None,
        }
    }

    fn from_text(text: &str) -> (number: Option<i64>) {
        parse_integer(text, true, i64::MIN, i64::MAX)
    }
}

impl Number for RealNumber {
    open spec fn denoted(text: Seq<char>) -> Option<Seq<char>> {
        if is_real_literal(text) {
            Some(text)
        } else {
            None
        }
    }

    fn from_text(text: &str) -> (number: Option<RealNumber>) {
        RealNumber::parse(text)
    }
}

} // verus!
