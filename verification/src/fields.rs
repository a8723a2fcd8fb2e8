//! The readers of single fields: each takes the JSON value that stands at
//! the field's place and gives the field's typed value.

use crate::error::DecodeError;
use crate::json::Json;
use crate::normalize::{
    normalize_address, normalize_number, normalize_string, normalized_address,
    normalized_string, number_of_text, number_view, Contents,
};
use crate::numbers::Number;
use crate::timestamp::{parse_timestamp, timestamp_of, Timestamp};
use vstd::prelude::*;

verus! {

/// What a text field has been read as, by its view.
pub open spec fn text_view(value: Result<Option<String>, DecodeError>) -> Result<
    Option<Seq<char>>,
    DecodeError,
> {
    match value {
        Ok(text) => Ok(text.deep_view()),
        Err(error) => Err(error),
    }
}

/// The value of a text field at whose place `leaf` stands: `leaf` must be a
/// JSON string, and its normal form is the value.
pub open spec fn string_leaf(leaf: Json) -> Result<Option<Seq<char>>, DecodeError> {
    match leaf {
        Json::Text(raw) => Ok(normalized_string(raw@)),
        _ => Err(DecodeError::UnexpectedShape),
    }
}

/// The value of an address field at whose place `leaf` stands: `leaf` must
/// be a JSON string, and its normal form as an address is the value.
pub open spec fn address_leaf(leaf: Json) -> Result<Option<Seq<char>>, DecodeError> {
    match leaf {
        Json::Text(raw) => Ok(normalized_address(raw@)),
        _ => Err(DecodeError::UnexpectedShape),
    }
}

/// The value of a numeric field at whose place `leaf` stands. A JSON string
/// is read as text that may be empty; a JSON number must be one that the
/// field's type can hold; nothing else can stand there.
pub open spec fn number_leaf<T: Number>(leaf: Json) -> Result<Option<T::V>, DecodeError> {
    match leaf {
        Json::Text(raw) => number_of_text::<T>(raw@),
        Json::Number(literal) => match T::denoted(literal@) {
            Some(number) => Ok(Some(number)),
            None => Err(DecodeError::InvalidNumber),
        },
        _ => Err(DecodeError::UnexpectedShape),
    }
}

/// The time stamp at whose place `leaf` stands: `leaf` must be a JSON
/// string that denotes one.
pub open spec fn timestamp_leaf(leaf: Json) -> Result<Timestamp, DecodeError> {
    match leaf {
        Json::Text(raw) => match timestamp_of(raw@) {
            Ok(timestamp) => Ok(timestamp),
            Err(error) => Err(DecodeError::InvalidTimestamp(error)),
        },
        _ => Err(DecodeError::UnexpectedShape),
    }
}

/// Reads a text field.
pub fn optional_normalized_string(leaf: &Json) -> (value: Result<Option<String>, DecodeError>)
    ensures
        text_view(value) == string_leaf(*leaf),
{
    match leaf {
        Json::Text(raw) => Ok(normalize_string(raw.as_str())),
        _ => Err(DecodeError::UnexpectedShape),
    }
}

/// Reads an address field.
pub fn optional_normalized_ip(leaf: &Json) -> (value: Result<Option<String>, DecodeError>)
    ensures
        text_view(value) == address_leaf(*leaf),
{
    match leaf {
        Json::Text(raw) => Ok(normalize_address(raw.as_str())),
        _ => Err(DecodeError::UnexpectedShape),
    }
}

/// Reads a numeric field, which may hold its number as text or as a number.
pub fn optional_number_from_string<T: Number>(leaf: &Json) -> (value: Result<
    Option<T>,
    DecodeError,
>)
    ensures
        number_view(value) == number_leaf::<T>(*leaf),
{
    let contents = match leaf {
        Json::Text(raw) => Contents::Str(raw.as_str()),
        Json::Number(literal) => match T::from_text(literal.as_str()) {
            Some(number) => Contents::FromStr(number),
            None => {
                return Err(DecodeError::InvalidNumber);
            },
        },
        _ => {
            return Err(DecodeError::UnexpectedShape);
        },
    };
    normalize_number(contents)
}

/// Reads the time stamp of an event.
pub fn datetime_from_mstimestamp(leaf: &Json) -> (value: Result<Timestamp, DecodeError>)
    ensures
        value == timestamp_leaf(*leaf),
{
    match leaf {
        Json::Text(raw) => match parse_timestamp(raw.as_str()) {
            Ok(timestamp) => Ok(timestamp),
            Err(error) => Err(DecodeError::InvalidTimestamp(error)),
        },
        _ => Err(DecodeError::UnexpectedShape),
    }
}

} // verus!
