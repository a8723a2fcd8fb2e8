//! The row that an event is stored as.

use crate::entry::{literal_of, AccessLogEntry, AccessLogEntryView};
use crate::numbers::RealNumber;
use crate::timestamp::Timestamp;
use vstd::prelude::*;

verus! {

/// The table that holds the events.
pub const TABLE: &'static str = "access_log";

/// The statement that stores one row. Its parameters are the values of the
/// row's columns, in their order.
pub const INSERT_STATEMENT: &'static str =
    "INSERT INTO access_log (id, event_ts, hostname, server_name, server_port, client_addr, client_forwarded_for, client_referer, client_ua, req_host, req_length, req_method, req_proto, req_scheme, req_uri, res_body_length, res_duration, res_length, res_status, upstream_addr, upstream_bytes_received, upstream_bytes_sent, upstream_cache_status, upstream_connect_time, upstream_host, upstream_response_length, upstream_response_time, upstream_status) VALUES ($1, $2, $3, $4, $5, $6, $7, $8, $9, $10, $11, $12, $13, $14, $15, $16, $17, $18, $19, $20, $21, $22, $23, $24, $25, $26, $27, $28)";

/// The value of one column, by the type of the column. All but the
/// identifier and the time stamp can be null.
#[derive(Clone, Debug, PartialEq, Eq)]
pub enum SqlValue {
    Uuid(u128),
    Timestamp(Timestamp),
    Text(Option<String>),
    Integer(Option<i32>),
    BigInt(Option<i64>),
    Double(Option<RealNumber>),
}

pub enum SqlValueView {
    Uuid(u128),
    Timestamp(Timestamp),
    Text(Option<Seq<char>>),
    Integer(Option<i32>),
    BigInt(Option<i64>),
    Double(Option<Seq<char>>),
}

impl View for SqlValue {
    type V = SqlValueView;

    open spec fn view(&self) -> SqlValueView {
        match self {
            SqlValue::Uuid(id) => SqlValueView::Uuid(*id),
            SqlValue::Timestamp(timestamp) => SqlValueView::Timestamp(*timestamp),
            SqlValue::Text(text) => SqlValueView::Text(text.deep_view()),
            SqlValue::Integer(number) => SqlValueView::Integer(*number),
            SqlValue::BigInt(number) => SqlValueView::BigInt(*number),
            SqlValue::Double(number) => SqlValueView::Double(literal_of(*number)),
        }
    }
}

/// One column of a row: its name in the table, and its value.
#[derive(Clone, Debug, PartialEq, Eq)]
pub struct Column {
    pub name: &'static str,
    pub value: SqlValue,
}

pub struct ColumnView {
    pub name: Seq<char>,
    pub value: SqlValueView,
}

impl View for Column {
    type V = ColumnView;

    open spec fn view(&self) -> ColumnView {
        ColumnView { name: self.name@, value: self.value@ }
    }
}

/// The columns of a row, by their views.
pub open spec fn columns_view(columns: Seq<Column>) -> Seq<ColumnView> {
    columns.map_values(|column: Column| column@)
}

/// The row under which `entry` is stored with the identifier `id`: one
/// column for each field, in the order of the table, and absent fields as
/// nulls.
pub open spec fn row_of(entry: AccessLogEntryView, id: u128) -> Seq<ColumnView> {
    seq![
        ColumnView { name: "id"@, value: SqlValueView::Uuid(id) },
        ColumnView { name: "event_ts"@, value: SqlValueView::Timestamp(entry.ts) },
        ColumnView { name: "hostname"@, value: SqlValueView::Text(Some(entry.hostname)) },
        ColumnView { name: "server_name"@, value: SqlValueView::Text(entry.server.name) },
        ColumnView { name: "server_port"@, value: SqlValueView::Integer(entry.server.port) },
        ColumnView { name: "client_addr"@, value: SqlValueView::Text(entry.client.addr) },
        ColumnView {
            name: "client_forwarded_for"@,
            value: SqlValueView::Text(entry.client.forwarded_for),
        },
        ColumnView { name: "client_referer"@, value: SqlValueView::Text(entry.client.referer) },
        ColumnView { name: "client_ua"@, value: SqlValueView::Text(entry.client.ua) },
        ColumnView { name: "req_host"@, value: SqlValueView::Text(entry.req.host) },
        ColumnView { name: "req_length"@, value: SqlValueView::BigInt(entry.req.length) },
        ColumnView { name: "req_method"@, value: SqlValueView::Text(entry.req.method) },
        ColumnView { name: "req_proto"@, value: SqlValueView::Text(entry.req.proto) },
        ColumnView { name: "req_scheme"@, value: SqlValueView::Text(entry.req.scheme) },
        ColumnView { name: "req_uri"@, value: SqlValueView::Text(entry.req.uri) },
        ColumnView {
            name: "res_body_length"@,
            value: SqlValueView::BigInt(entry.res.body_length),
        },
        ColumnView { name: "res_duration"@, value: SqlValueView::Double(entry.res.duration) },
        ColumnView { name: "res_length"@, value: SqlValueView::BigInt(entry.res.length) },
        ColumnView { name: "res_status"@, value: SqlValueView::Integer(entry.res.status) },
        ColumnView { name: "upstream_addr"@, value: SqlValueView::Text(entry.upstream.addr) },
        ColumnView {
            name: "upstream_bytes_received"@,
            value: SqlValueView::BigInt(entry.upstream.bytes_received),
        },
        ColumnView {
            name: "upstream_bytes_sent"@,
            value: SqlValueView::BigInt(entry.upstream.bytes_sent),
        },
        ColumnView {
            name: "upstream_cache_status"@,
            value: SqlValueView::Text(entry.upstream.cache_status),
        },
        ColumnView {
            name: "upstream_connect_time"@,
            value: SqlValueView::Double(entry.upstream.connect_time),
        },
        ColumnView { name: "upstream_host"@, value: SqlValueView::Text(entry.upstream.host) },
        ColumnView {
            name: "upstream_response_length"@,
            value: SqlValueView::BigInt(entry.upstream.response_length),
        },
        ColumnView {
            name: "upstream_response_time"@,
            value: SqlValueView::Double(entry.upstream.response_time),
        },
        ColumnView {
            name: "upstream_status"@,
            value: SqlValueView::Integer(entry.upstream.status),
        },
    ]
}

/// `row` is the row under which `entry` is stored, with whatever identifier.
pub open spec fn is_row_of(row: Seq<ColumnView>, entry: AccessLogEntryView) -> bool {
    exists|id: u128| row == #[trigger] row_of(entry, id)
}

/// `uuid::Uuid::new_v4`, as a number. It is drawn at random, so nothing is
/// stated of it.
#[verifier::external_body]
fn random_id() -> u128 {
    uuid::Uuid::new_v4().as_u128()
}

impl AccessLogEntry {
    /// The row under which this event is stored with the identifier `id`.
    pub fn into_row(self, id: u128) -> (row: Vec<Column>)
        ensures
            columns_view(row@) == row_of(self@, id),
    {
        let mut row: Vec<Column> = Vec::new();
        row.push(Column { name: "id", value: SqlValue::Uuid(id) });
        row.push(Column { name: "event_ts", value: SqlValue::Timestamp(self.ts) });
        row.push(Column { name: "hostname", value: SqlValue::Text(Some(self.hostname)) });
        row.push(Column { name: "server_name", value: SqlValue::Text(self.server.name) });
        row.push(Column { name: "server_port", value: SqlValue::Integer(self.server.port) });
        row.push(Column { name: "client_addr", value: SqlValue::Text(self.client.addr) });
        row.push(
            Column {
                name: "client_forwarded_for",
                value: SqlValue::Text(self.client.forwarded_for),
            },
        );
        row.push(Column { name: "client_referer", value: SqlValue::Text(self.client.referer) });
        row.push(Column { name: "client_ua", value: SqlValue::Text(self.client.ua) });
        row.push(Column { name: "req_host", value: SqlValue::Text(self.req.host) });
        row.push(Column { name: "req_length", value: SqlValue::BigInt(self.req.length) });
        row.push(Column { name: "req_method", value: SqlValue::Text(self.req.method) });
        row.push(Column { name: "req_proto", value: SqlValue::Text(self.req.proto) });
        row.push(Column { name: "req_scheme", value: SqlValue::Text(self.req.scheme) });
        row.push(Column { name: "req_uri", value: SqlValue::Text(self.req.uri) });
        row.push(
            Column { name: "res_body_length", value: SqlValue::BigInt(self.res.body_length) },
        );
        row.push(Column { name: "res_duration", value: SqlValue::Double(self.res.duration) });
        row.push(Column { name: "res_length", value: SqlValue::BigInt(self.res.length) });
        row.push(Column { name: "res_status", value: SqlValue::Integer(self.res.status) });
        row.push(Column { name: "upstream_addr", value: SqlValue::Text(self.upstream.addr) });
        row.push(
            Column {
                name: "upstream_bytes_received",
                value: SqlValue::BigInt(self.upstream.bytes_received),
            },
        );
        row.push(
            Column {
                name: "upstream_bytes_sent",
                value: SqlValue::BigInt(self.upstream.bytes_sent),
            },
        );
        row.push(
            Column {
                name: "upstream_cache_status",
                value: SqlValue::Text(self.upstream.cache_status),
            },
        );
        row.push(
            Column {
                name: "upstream_connect_time",
                value: SqlValue::Double(self.upstream.connect_time),
            },
        );
        row.push(Column { name: "upstream_host", value: SqlValue::Text(self.upstream.host) });
        row.push(
            Column {
                name: "upstream_response_length",
                value: SqlValue::BigInt(self.upstream.response_length),
            },
        );
        row.push(
            Column {
                name: "upstream_response_time",
                value: SqlValue::Double(self.upstream.response_time),
            },
        );
        row.push(
            Column { name: "upstream_status", value: SqlValue::Integer(self.upstream.status) },
        );
        row
    }

    /// The row under which this event is stored, with an identifier of its
    /// own, drawn at random.
    pub fn into_new_row(self) -> (row: Vec<Column>)
        ensures
            is_row_of(columns_view(row@), self@),
    {
        let id = random_id();
        let row = self.into_row(id);
        assert(columns_view(row@) == row_of(self@, id));
        row
    }
}

} // verus!
