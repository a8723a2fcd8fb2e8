//! Decoding of web-server access-log events that arrive as syslog datagrams,
//! and their mapping onto rows of a relational store.
//!
//! A datagram is UTF-8 text: a syslog header, which is dropped, and a message
//! that is a JSON object. `decode` turns it into an `AccessLogEntry`, by the
//! rules of `normalize` for each field, and `AccessLogEntry::into_row` gives
//! the row to store. `bridge` holds what the two sides of the queue between
//! reception and storage do with each datagram and each event.

pub mod bridge;
pub mod decode;
pub mod entry;
pub mod error;
pub mod fields;
pub mod json;
pub mod normalize;
pub mod numbers;
pub mod storage;
pub mod syslog;
pub mod text;
pub mod timestamp;

pub use bridge::{Bridge, UdpReceiver};
pub use decode::decode;
pub use entry::{AccessLogEntry, Client, Req, Res, Server, Upstream};
pub use error::DecodeError;
pub use fields::{
    datetime_from_mstimestamp, optional_normalized_ip, optional_normalized_string,
    optional_number_from_string,
};
