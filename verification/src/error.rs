//! Why a datagram yields no event.

use crate::timestamp::TimestampError;
use vstd::prelude::*;

verus! {

/// The reasons for which a datagram is discarded.
#[derive(Clone, Copy, Debug, PartialEq, Eq, Structural)]
pub enum DecodeError {
    /// The datagram is no UTF-8 text.
    InvalidUtf8,
    /// The message body is no JSON document.
    InvalidJson,
    /// The document or one of its groups is no object, or a field holds a
    /// value of a JSON kind that it cannot take.
    UnexpectedShape,
    /// The document has no member `hostname`.
    MissingHostname,
    /// The document has no member `ts`.
    MissingTimestamp,
    /// The member `ts` is no time stamp.
    InvalidTimestamp(TimestampError),
    /// A numeric field holds text or a number that its type cannot take.
    InvalidNumber,
}

} // verus!
