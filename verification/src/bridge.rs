//! The pipeline between the socket and the store: what is done with each
//! datagram and with each event that leaves the queue.

use crate::decode::{datagram_entry, decode};
use crate::entry::{AccessLogEntry, AccessLogEntryView};
use crate::error::DecodeError;
use crate::storage::{columns_view, is_row_of, Column};
use tokio::sync::mpsc::{Receiver, Sender};
use vstd::prelude::*;

verus! {

/// `tokio::sync::mpsc::Sender`, the sending end of a bounded queue. Nothing
/// is known of what is inside.
#[verifier::external_type_specification]
#[verifier::external_body]
#[verifier::reject_recursive_types(T)]
pub struct ExSender<T>(Sender<T>);

/// `tokio::sync::mpsc::Receiver`, the receiving end of a bounded queue.
/// Nothing is known of what is inside.
#[verifier::external_type_specification]
#[verifier::external_body]
#[verifier::reject_recursive_types(T)]
pub struct ExReceiver<T>(Receiver<T>);

/// The most bytes that one datagram can hold. A syslog message never spans
/// two datagrams, so a buffer of this size takes any of them.
pub const MAX_DATAGRAM_SIZE: usize = 65535;

/// The number of events that the queue behind `sender` was made to hold,
/// which `Sender::max_capacity` reports. It stays what it is.
pub uninterp spec fn queue_capacity(sender: Sender<AccessLogEntry>) -> nat;

/// The most events that a queue can be made to hold.
pub open spec fn max_queue_size() -> nat {
    (usize::MAX / 8) as nat
}

/// `tokio::sync::mpsc::channel`, which takes no capacity of zero and none
/// above `max_queue_size()`. Trusted: the sending end keeps the capacity
/// that the channel was made with.
#[verifier::external_body]
fn bounded_channel(capacity: usize) -> (ends: (Sender<AccessLogEntry>, Receiver<AccessLogEntry>))
    requires
        0 < capacity <= max_queue_size(),
    ensures
        queue_capacity(ends.0) == capacity,
{
    tokio::sync::mpsc::channel(capacity)
}

/// What became of an event that was offered to the queue.
#[derive(Clone, Copy, Debug, PartialEq, Eq, Structural)]
enum HandOff {
    /// The queue has taken the event.
    Accepted,
    /// The queue was full: the event is dropped.
    Full,
    /// The receiving end is gone: the event is dropped.
    Closed,
}

/// `tokio::sync::mpsc::Sender::try_send`, which never waits. Which answer
/// comes depends on what other tasks do with the queue, so nothing is
/// stated of it.
#[verifier::external_body]
fn try_send(sender: &Sender<AccessLogEntry>, entry: AccessLogEntry) -> (answer: HandOff) {
    match sender.try_send(entry) {
        Ok(()) => HandOff::Accepted,
        Err(tokio::sync::mpsc::error::TrySendError::Full(_)) => HandOff::Full,
        Err(tokio::sync::mpsc::error::TrySendError::Closed(_)) => HandOff::Closed,
    }
}

/// The pipeline as a whole.
pub struct Bridge {}

impl Bridge {
    /// Makes the queue between the receiver and the storer, for up to
    /// `queue_size` events. There is no queue for no events, nor one for
    /// more than `max_queue_size()`.
    pub fn queue(queue_size: usize) -> (ends: Option<
        (Sender<AccessLogEntry>, Receiver<AccessLogEntry>),
    >)
        ensures
            ends is Some <==> 0 < queue_size <= max_queue_size(),
            ends matches Some(ends) ==> queue_capacity(ends.0) == queue_size,
    {
        if queue_size == 0 || queue_size > usize::MAX / 8 {
            None
        } else {
            Some(bounded_channel(queue_size))
        }
    }
}

/// What became of a datagram.
#[derive(Clone, Copy, Debug, PartialEq, Eq, Structural)]
pub enum Outcome {
    /// It held an event, which the queue has taken.
    Enqueued,
    /// It held an event, which was dropped because the queue was full.
    QueueFull,
    /// It held an event, which was dropped because nobody takes events
    /// from the queue any more.
    QueueClosed,
    /// It held no event.
    Discarded(DecodeError),
}

/// The producing side of the queue: decodes datagrams and hands the events
/// on.
pub struct UdpReceiver {
    received_sender: Sender<AccessLogEntry>,
}

impl UdpReceiver {
    /// The sending end of the queue that this receiver fills.
    pub closed spec fn sender(self) -> Sender<AccessLogEntry> {
        self.received_sender
    }

    /// A receiver that hands its events to `received_sender`.
    pub fn new(received_sender: Sender<AccessLogEntry>) -> (receiver: Self)
        ensures
            receiver.sender() == received_sender,
    {
        Self { received_sender }
    }

    /// Deals with one datagram: decodes it and offers the event to the
    /// queue, without ever waiting for room in it. A datagram that holds
    /// no event is discarded, and so is an event that the queue does not
    /// take.
    pub fn receive(&self, datagram: &[u8]) -> (outcome: Outcome)
        ensures
            match outcome {
                Outcome::Discarded(error) => datagram_entry(datagram@) == Err::<
                    AccessLogEntryView,
                    DecodeError,
                >(error),
                _ => datagram_entry(datagram@) is Ok,
            },
    {
        match decode(datagram) {
            Ok(entry) => match try_send(&self.received_sender, entry) {
                HandOff::Accepted => Outcome::Enqueued,
                HandOff::Full => Outcome::QueueFull,
                HandOff::Closed => Outcome::QueueClosed,
            },
            Err(error) => Outcome::Discarded(error),
        }
    }
}

/// What the storer does next.
#[derive(Clone, Debug, PartialEq, Eq)]
pub enum StorerStep {
    /// Store this row, then wait for the next event, whether the row could
    /// be stored or not.
    Store(Vec<Column>),
    /// The queue is closed and empty: stop.
    Stop,
}

/// The consuming side of the queue: decides what to do with what the queue
/// has handed out, an event or the news that there will be no more.
pub fn storer_step(received: Option<AccessLogEntry>) -> (step: StorerStep)
    ensures
        match received {
            Some(entry) => step matches StorerStep::Store(row) && is_row_of(
                columns_view(row@),
                entry@,
            ),
            None => step is Stop,
        },
{
    match received {
        Some(entry) => StorerStep::Store(entry.into_new_row()),
        None => StorerStep::Stop,
    }
}

} // verus!
