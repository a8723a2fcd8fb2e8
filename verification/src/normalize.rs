//! The rules by which the raw value of a field becomes its typed value:
//! empty means absent.

use crate::error::DecodeError;
use crate::numbers::Number;
use crate::text::{
    all_in, is_white_space, leading, lemma_leading_is, lemma_trailing_is, lemma_trimmed,
    trailing, trim, trimmed, white_space,
};
use vstd::prelude::*;

verus! {

/// The value of a text field whose raw value is `raw`: `raw` without the
/// white space around it, and absent if nothing is left.
pub open spec fn normalized_string(raw: Seq<char>) -> Option<Seq<char>> {
    if trimmed(raw).len() == 0 {
        None
    } else {
        Some(trimmed(raw))
    }
}

/// The prefix that marks an IPv4 address written as an IPv6 one.
pub open spec fn mapped_prefix() -> Seq<char> {
    seq![':', ':', 'f', 'f', 'f', 'f', ':']
}

/// The value of an address field whose raw value is `raw`: absent if `raw`
/// is empty, `raw` without the prefix `::ffff:` if it begins with it, and
/// `raw` itself otherwise. No white space is removed.
pub open spec fn normalized_address(raw: Seq<char>) -> Option<Seq<char>> {
    if raw.len() == 0 {
        None
    } else if mapped_prefix().is_prefix_of(raw) {
        Some(raw.skip(mapped_prefix().len() as int))
    } else {
        Some(raw)
    }
}

/// The raw value of a numeric field: text, or a number already.
pub enum Contents<'a, T> {
    Str(&'a str),
    FromStr(T),
}

/// The value of a numeric field whose raw value is `contents`: absent for
/// the empty text, the number that any other text denotes, and a number
/// as it is. Text that denotes no number of the type is an error.
pub open spec fn normalized_number<T: Number>(contents: Contents<T>) -> Result<
    Option<T::V>,
    DecodeError,
> {
    match contents {
        Contents::Str(text) => number_of_text::<T>(text@),
        Contents::FromStr(number) => Ok(Some(number@)),
    }
}

/// The value of a numeric field whose raw value is the text `text`.
pub open spec fn number_of_text<T: Number>(text: Seq<char>) -> Result<Option<T::V>, DecodeError> {
    if text.len() == 0 {
        Ok(None)
    } else {
        match T::denoted(text) {
            Some(number) => Ok(Some(number)),
            None => Err(DecodeError::InvalidNumber),
        }
    }
}

/// What a numeric field has been resolved to, by its view.
pub open spec fn number_view<T: Number>(value: Result<Option<T>, DecodeError>) -> Result<
    Option<T::V>,
    DecodeError,
> {
    match value {
        Ok(Some(number)) => Ok(Some(number@)),
        Ok(None) => Ok(None),
        Err(error) => Err(error),
    }
}

/// Trims `raw`; nothing but white space means that the field is absent.
pub fn normalize_string(raw: &str) -> (value: Option<String>)
    ensures
        value.deep_view() == normalized_string(raw@),
{
    let text = trim(raw);
    if text.is_empty() {
        None
    } else {
        Some(text.to_owned())
    }
}

/// Brings an address into its plain form; the empty text means that the
/// field is absent.
pub fn normalize_address(raw: &str) -> (value: Option<String>)
    ensures
        value.deep_view() == normalized_address(raw@),
{
    let len = raw.unicode_len();
    if len == 0 {
        None
    } else if len >= 7 && raw.get_char(0) == ':' && raw.get_char(1) == ':' && raw.get_char(2)
        == 'f' && raw.get_char(3) == 'f' && raw.get_char(4) == 'f' && raw.get_char(5) == 'f'
        && raw.get_char(6) == ':' {
        assert(mapped_prefix() == raw@.subrange(0, 7));
        Some(raw.substring_char(7, len).to_owned())
    } else {
        assert(mapped_prefix().is_prefix_of(raw@) ==> {
            &&& raw@[0] == mapped_prefix()[0]
            &&& raw@[1] == mapped_prefix()[1]
            &&& raw@[2] == mapped_prefix()[2]
            &&& raw@[3] == mapped_prefix()[3]
            &&& raw@[4] == mapped_prefix()[4]
            &&& raw@[5] == mapped_prefix()[5]
            &&& raw@[6] == mapped_prefix()[6]
        });
        Some(raw.to_owned())
    }
}

/// Resolves the raw value of a numeric field; the empty text means that the
/// field is absent.
pub fn normalize_number<T: Number>(contents: Contents<T>) -> (value: Result<
    Option<T>,
    DecodeError,
>)
    ensures
        number_view(value) == normalized_number(contents),
{
    match contents {
        Contents::Str(text) => if text.is_empty() {
            Ok(None)
        } else {
            match T::from_text(text) {
                Some(number) => Ok(Some(number)),
                None => Err(DecodeError::InvalidNumber),
            }
        },
        Contents::FromStr(number) => Ok(Some(number)),
    }
}

/// Text that is empty or white space throughout is normalized to absent.
/// Any other text is normalized to what stands between its leading and its
/// trailing white space: the characters in between stay as they are, and
/// the first and the last of them are no white space.
pub proof fn lemma_normalized_string(raw: Seq<char>)
    ensures
        all_in(raw, white_space()) <==> normalized_string(raw) is None,
        normalized_string(raw) matches Some(text) ==> {
            let before = raw.take(leading(raw, white_space()) as int);
            let after = raw.skip(raw.len() - trailing(raw, white_space()));
            &&& raw == before + text + after
            &&& all_in(before, white_space())
            &&& all_in(after, white_space())
            &&& !is_white_space(text.first())
            &&& !is_white_space(text.last())
        },
{
    lemma_trimmed(raw);
}

/// Text that holds no white space at either end is its own normal form.
pub proof fn lemma_normalized_string_of_trimmed(raw: Seq<char>)
    requires
        raw.len() > 0,
        !is_white_space(raw.first()),
        !is_white_space(raw.last()),
    ensures
        normalized_string(raw) == Some(raw),
{
    lemma_leading_is(raw, white_space(), 0);
    lemma_trailing_is(raw, white_space(), raw.len() as int);
    assert(raw.subrange(0, raw.len() as int) == raw);
}

/// An address that begins with `::ffff:` loses exactly that prefix; any
/// other address that is not empty stays as it is; the empty one is absent.
pub proof fn lemma_normalized_address(raw: Seq<char>, rest: Seq<char>)
    ensures
        normalized_address(mapped_prefix() + rest) == Some(rest),
        raw.len() > 0 && !mapped_prefix().is_prefix_of(raw) ==> normalized_address(raw) == Some(
            raw,
        ),
        normalized_address(Seq::empty()) is None,
{
    let mapped = mapped_prefix() + rest;
    assert(mapped.subrange(0, 7) == mapped_prefix());
    assert(mapped.skip(7) == rest);
}

} // verus!
