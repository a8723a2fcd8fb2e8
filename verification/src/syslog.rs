//! The syslog envelope around a message.

use crate::text::trimmed;
use vstd::prelude::*;

verus! {

/// The year in which a header is read that names none: a leap year, so that
/// every day that a month can have is a date.
pub const HEADER_YEAR: i32 = 2000;

/// The year of a header that names the month, the day, the hour, the minute
/// and the second `date`, but no year.
pub fn header_year(date: (u32, u32, u32, u32, u32)) -> (year: i32)
    ensures
        year == HEADER_YEAR,
{
    HEADER_YEAR
}

/// The message of `datagram`: what follows its syslog header, in the older
/// style or in the newer one, or all of it if it has neither.
pub uninterp spec fn syslog_message(datagram: Seq<char>) -> Seq<char>;

/// `body` can be the message of `datagram`: it is what stands in the
/// datagram from some place on, up to the white space at its end, or it is
/// the datagram as a whole.
pub open spec fn is_message_of(body: Seq<char>, datagram: Seq<char>) -> bool {
    ||| body == datagram
    ||| exists|start: int|
        0 <= start <= trimmed(datagram).len() && body == #[trigger] trimmed(datagram).skip(start)
}

/// `syslog_loose::parse_message_with_year_tz` with `Variant::Either`, of
/// whose result only the message is kept. The year of a header without one
/// is `header_year`, and its time is taken as UTC, so that neither the clock
/// nor the time zone of the machine is asked. Trusted: the message depends
/// on the datagram alone; the header is read from the datagram without the
/// white space around it, and the message is all that follows the header;
/// a datagram that is taken for no syslog message at all is its own
/// message.
#[verifier::external_body]
fn message_of_datagram(datagram: &str) -> (body: &str)
    ensures
        body@ == syslog_message(datagram@),
        is_message_of(body@, datagram@),
{
    syslog_loose::parse_message_with_year_tz(
        datagram,
        header_year,
        Some(chrono::Utc),
        syslog_loose::Variant::Either,
    ).msg
}

/// The message of a datagram, without the syslog header before it.
pub fn strip_envelope(datagram: &str) -> (body: &str)
    ensures
        body@ == syslog_message(datagram@),
        is_message_of(body@, datagram@),
{
    message_of_datagram(datagram)
}

} // verus!
