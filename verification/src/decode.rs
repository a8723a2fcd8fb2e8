//! From a datagram to an event.

use crate::entry::{entry_of, view_of, AccessLogEntry, AccessLogEntryView};
use crate::error::DecodeError;
use crate::json::{json_document, Json};
use crate::syslog::{strip_envelope, syslog_message};
use vstd::prelude::*;
use vstd::string::StringSliceAdditionalSpecFns;
use vstd::utf8::{decode_utf8, valid_utf8};

verus! {

/// `std::str::from_utf8`. Trusted: it succeeds exactly on the byte
/// sequences that are UTF-8, and the text it gives has those bytes.
#[verifier::external_body]
fn text_of(bytes: &[u8]) -> (text: Option<&str>)
    ensures
        text is Some <==> valid_utf8(bytes@),
        text matches Some(text) ==> text.spec_bytes() == bytes@,
{
    std::str::from_utf8(bytes).ok()
}

/// The event that the message `body` describes, or why it describes none.
pub open spec fn message_entry(body: Seq<char>) -> Result<AccessLogEntryView, DecodeError> {
    match json_document(body) {
        Some(document) => entry_of(document),
        None => Err(DecodeError::InvalidJson),
    }
}

/// The event that the text `datagram` holds in its message, or why it
/// holds none.
pub open spec fn text_entry(datagram: Seq<char>) -> Result<AccessLogEntryView, DecodeError> {
    message_entry(syslog_message(datagram))
}

/// The event that `datagram` holds, or why it holds none. A datagram that
/// is no UTF-8 text holds none.
pub open spec fn datagram_entry(datagram: Seq<u8>) -> Result<AccessLogEntryView, DecodeError> {
    if valid_utf8(datagram) {
        text_entry(decode_utf8(datagram))
    } else {
        Err(DecodeError::InvalidUtf8)
    }
}

/// Reads the event that a message describes.
pub fn decode_message(body: &str) -> (entry: Result<AccessLogEntry, DecodeError>)
    ensures
        view_of(entry) == message_entry(body@),
        entry matches Ok(entry) ==> entry@.is_normal(),
{
    match Json::parse(body) {
        Some(document) => AccessLogEntry::from_json(&document),
        None => Err(DecodeError::InvalidJson),
    }
}

/// Reads the event of a datagram that is text: takes the message out of its
/// syslog envelope and decodes it.
pub fn parse_datagram(datagram: &str) -> (entry: Result<AccessLogEntry, DecodeError>)
    ensures
        view_of(entry) == text_entry(datagram@),
        entry matches Ok(entry) ==> entry@.is_normal(),
{
    decode_message(strip_envelope(datagram))
}

/// Decodes one datagram.
pub fn decode(datagram: &[u8]) -> (entry: Result<AccessLogEntry, DecodeError>)
    ensures
        view_of(entry) == datagram_entry(datagram@),
        entry matches Ok(entry) ==> entry@.is_normal(),
{
    match text_of(datagram) {
        Some(text) => {
            proof {
                vstd::utf8::encode_utf8_decode_utf8(text@);
            }
            parse_datagram(text)
        },
        None => Err(DecodeError::InvalidUtf8),
    }
}

/// Decoding is repeatable: two decodings of one datagram give the same
/// outcome, and where that is an event, the two events agree in every
/// field.
pub proof fn lemma_decode_repeatable(
    datagram: Seq<u8>,
    first: Result<AccessLogEntry, DecodeError>,
    second: Result<AccessLogEntry, DecodeError>,
)
    requires
        view_of(first) == datagram_entry(datagram),
        view_of(second) == datagram_entry(datagram),
    ensures
        view_of(first) == view_of(second),
        first matches Ok(a) ==> second matches Ok(b) && a@ == b@,
        first matches Err(error) ==> second == Err::<AccessLogEntry, DecodeError>(error),
{
}

} // verus!
