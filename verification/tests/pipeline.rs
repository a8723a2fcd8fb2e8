use nginx_syslog_postgres_bridge::bridge::{storer_step, Outcome, StorerStep};
use nginx_syslog_postgres_bridge::error::DecodeError;
use nginx_syslog_postgres_bridge::numbers::RealNumber;
use nginx_syslog_postgres_bridge::storage::{Column, SqlValue, INSERT_STATEMENT, TABLE};
use nginx_syslog_postgres_bridge::timestamp::Timestamp;
use nginx_syslog_postgres_bridge::{decode, AccessLogEntry, Bridge, UdpReceiver};
use tokio::sync::mpsc::error::TryRecvError;
use tokio::sync::mpsc::Receiver;

const VALID_DATAGRAM_STATIC: &str = r#"<190>Aug 16 18:35:53 nginx: {"hostname":"a970744801bb","ts":"1660674953.230","server":{"name":"_","port":"80"},"client":{"addr":"172.19.0.1","forwarded_for":"","referer":"","ua":"Mozilla/5.0 (Macintosh; Intel Mac OS X 10.15; rv:105.0) Gecko/20100101 Firefox/105.0"},"req":{"host":"localhost","length":"1703","method":"GET","proto":"HTTP/1.1","scheme":"http","uri":"/static_file_example"},"res":{"body_length":"0","duration":"0.000","length":"180","status":"304"},"upstream":{"addr":"","bytes_received":"","bytes_sent":"","cache_status":"","connect_time":"","host":"","response_length":"","response_time":"","status":""}}"#;
const VALID_DATAGRAM_UPSTREAM: &str = r#"<190>Aug 16 18:36:32 nginx: {"hostname":"a970744801bb","ts":"1660674992.468","server":{"name":"_","port":"80"},"client":{"addr":"172.19.0.1","forwarded_for":"","referer":"","ua":"Mozilla/5.0 (Macintosh; Intel Mac OS X 10.15; rv:105.0) Gecko/20100101 Firefox/105.0"},"req":{"host":"localhost","length":"1658","method":"GET","proto":"HTTP/1.1","scheme":"http","uri":"/upstream_proxy_example"},"res":{"body_length":"648","duration":"0.254","length":"1044","status":"200"},"upstream":{"addr":"93.184.216.34:80","bytes_received":"1041","bytes_sent":"1705","cache_status":"","connect_time":"0.128","host":"example.com","response_length":"648","response_time":"0.253","status":"200"}}"#;

/// Runs the pipeline on the datagrams, the storer taking over when all of
/// them have been received, and gives the rows that would be stored.
fn stored_rows(queue_size: usize, datagrams: &[&[u8]]) -> (Vec<Outcome>, Vec<Vec<Column>>) {
    let (sender, mut queue) = Bridge::queue(queue_size).unwrap();
    let receiver = UdpReceiver::new(sender);
    let outcomes = datagrams.iter().map(|datagram| receiver.receive(datagram)).collect();
    (outcomes, drain(&mut queue))
}

fn drain(queue: &mut Receiver<AccessLogEntry>) -> Vec<Vec<Column>> {
    let mut rows = Vec::new();
    while let Ok(entry) = queue.try_recv() {
        match storer_step(Some(entry)) {
            StorerStep::Store(row) => rows.push(row),
            StorerStep::Stop => panic!("the storer stopped on an event"),
        }
    }
    rows
}

fn value<'a>(row: &'a [Column], name: &str) -> &'a SqlValue {
    let mut found = row.iter().filter(|column| column.name == name);
    let column = found.next().unwrap();
    assert!(found.next().is_none());
    &column.value
}

fn text(value: &str) -> SqlValue {
    SqlValue::Text(Some(value.to_string()))
}

#[test]
fn stores_valid_datagram_for_static_requests() {
    let (outcomes, rows) = stored_rows(10000, &[VALID_DATAGRAM_STATIC.as_bytes()]);
    assert_eq!(vec![Outcome::Enqueued], outcomes);
    assert_eq!(1, rows.len());
}

#[test]
fn stores_valid_datagram_with_upstream_data() {
    let (outcomes, rows) = stored_rows(10000, &[VALID_DATAGRAM_UPSTREAM.as_bytes()]);
    assert_eq!(vec![Outcome::Enqueued], outcomes);
    assert_eq!(1, rows.len());
}

#[test]
fn a_datagram_without_upstream_gives_one_row_with_nulls() {
    let datagram = r#"<190>Aug 16 18:35:53 nginx: {"hostname":"h1","ts":"1660674953.230","server":{"name":"_","port":"80"},"upstream":{"addr":"","bytes_received":"","bytes_sent":"","cache_status":"","connect_time":"","host":"","response_length":"","response_time":"","status":""}}"#;
    let (outcomes, rows) = stored_rows(8, &[datagram.as_bytes()]);
    assert_eq!(vec![Outcome::Enqueued], outcomes);
    assert_eq!(1, rows.len());
    let row = &rows[0];

    assert_eq!(&text("h1"), value(row, "hostname"));
    assert_eq!(
        &SqlValue::Timestamp(Timestamp { seconds: 1660674953, millis: 230 }),
        value(row, "event_ts")
    );
    assert_eq!(&SqlValue::Integer(Some(80)), value(row, "server_port"));
    assert_eq!(&text("_"), value(row, "server_name"));
    assert_eq!(&SqlValue::Text(None), value(row, "upstream_addr"));
    assert_eq!(&SqlValue::BigInt(None), value(row, "upstream_bytes_received"));
    assert_eq!(&SqlValue::BigInt(None), value(row, "upstream_bytes_sent"));
    assert_eq!(&SqlValue::Text(None), value(row, "upstream_cache_status"));
    assert_eq!(&SqlValue::Double(None), value(row, "upstream_connect_time"));
    assert_eq!(&SqlValue::Text(None), value(row, "upstream_host"));
    assert_eq!(&SqlValue::BigInt(None), value(row, "upstream_response_length"));
    assert_eq!(&SqlValue::Double(None), value(row, "upstream_response_time"));
    assert_eq!(&SqlValue::Integer(None), value(row, "upstream_status"));
}

#[test]
fn a_datagram_with_upstream_gives_its_address_and_status() {
    let (_, rows) = stored_rows(8, &[VALID_DATAGRAM_UPSTREAM.as_bytes()]);
    let row = &rows[0];
    assert_eq!(&text("93.184.216.34:80"), value(row, "upstream_addr"));
    assert_eq!(&SqlValue::Integer(Some(200)), value(row, "upstream_status"));
    assert_eq!(
        &SqlValue::Double(Some(RealNumber::parse("0.253").unwrap())),
        value(row, "upstream_response_time")
    );
    assert_eq!(&SqlValue::BigInt(Some(1041)), value(row, "upstream_bytes_received"));
}

#[test]
fn a_datagram_without_the_required_fields_gives_no_row() {
    let datagram = r#"<190>Aug 16 18:35:53 nginx: {"hello":"world"}"#;
    let (outcomes, rows) = stored_rows(8, &[datagram.as_bytes(), b"\xff", b"junk"]);
    assert_eq!(
        vec![
            Outcome::Discarded(DecodeError::MissingHostname),
            Outcome::Discarded(DecodeError::InvalidUtf8),
            Outcome::Discarded(DecodeError::InvalidJson),
        ],
        outcomes
    );
    assert!(rows.is_empty());
}

#[test]
fn a_burst_fills_the_queue_and_no_more() {
    let (sender, mut queue) = Bridge::queue(3).unwrap();
    assert_eq!(3, sender.max_capacity());
    let receiver = UdpReceiver::new(sender);

    let burst: Vec<Outcome> =
        (0..10).map(|_| receiver.receive(VALID_DATAGRAM_STATIC.as_bytes())).collect();
    assert_eq!(vec![Outcome::Enqueued; 3], burst[..3]);
    assert_eq!(vec![Outcome::QueueFull; 7], burst[3..]);
    assert_eq!(3, drain(&mut queue).len());

    assert_eq!(Outcome::Enqueued, receiver.receive(VALID_DATAGRAM_UPSTREAM.as_bytes()));
    assert_eq!(
        Outcome::Discarded(DecodeError::InvalidJson),
        receiver.receive(b"<190>Aug 16 18:35:53 nginx: {")
    );
    assert_eq!(Outcome::Enqueued, receiver.receive(VALID_DATAGRAM_STATIC.as_bytes()));
    let rows = drain(&mut queue);
    assert_eq!(2, rows.len());
    assert_eq!(&text("/upstream_proxy_example"), value(&rows[0], "req_uri"));
    assert_eq!(&text("/static_file_example"), value(&rows[1], "req_uri"));
}

#[test]
fn events_leave_the_queue_in_the_order_in_which_they_came() {
    let datagrams: Vec<String> = (0..5)
        .map(|i| format!(r#"{{"hostname": "h{}", "ts": "{}.000"}}"#, i, 1660674953 + i))
        .collect();
    let datagrams: Vec<&[u8]> = datagrams.iter().map(|datagram| datagram.as_bytes()).collect();
    let (outcomes, rows) = stored_rows(5, &datagrams);
    assert_eq!(vec![Outcome::Enqueued; 5], outcomes);
    let hosts: Vec<&SqlValue> = rows.iter().map(|row| value(row, "hostname")).collect();
    assert_eq!(vec![&text("h0"), &text("h1"), &text("h2"), &text("h3"), &text("h4")], hosts);
}

#[test]
fn an_event_is_dropped_when_nobody_takes_events_any_more() {
    let (sender, queue) = Bridge::queue(1).unwrap();
    let receiver = UdpReceiver::new(sender);
    drop(queue);
    assert_eq!(Outcome::QueueClosed, receiver.receive(VALID_DATAGRAM_STATIC.as_bytes()));
    assert_eq!(Outcome::Discarded(DecodeError::InvalidJson), receiver.receive(b"x"));
}

#[test]
fn a_queue_holds_at_least_one_event() {
    assert!(Bridge::queue(0).is_none());
    assert!(Bridge::queue(usize::MAX).is_none());
    assert!(Bridge::queue(usize::MAX / 8 + 1).is_none());
    assert!(Bridge::queue(1).is_some());
    let (sender, mut queue) = Bridge::queue(10000).unwrap();
    assert_eq!(10000, sender.max_capacity());
    assert_eq!(Err(TryRecvError::Empty), queue.try_recv().map(|_| ()));
}

#[test]
fn the_storer_stops_when_the_queue_is_closed_and_empty() {
    assert_eq!(StorerStep::Stop, storer_step(None));
}

#[test]
fn a_row_holds_every_column_of_the_statement_in_its_order() {
    let entry = decode(VALID_DATAGRAM_UPSTREAM.as_bytes()).unwrap();
    let row = entry.into_row(7);
    assert_eq!(28, row.len());
    assert_eq!(Column { name: "id", value: SqlValue::Uuid(7) }, row[0]);

    let names: Vec<&str> = row.iter().map(|column| column.name).collect();
    let parameters: Vec<String> = (1..=row.len()).map(|i| format!("${}", i)).collect();
    assert_eq!(
        format!(
            "INSERT INTO {} ({}) VALUES ({})",
            TABLE,
            names.join(", "),
            parameters.join(", ")
        ),
        INSERT_STATEMENT
    );
}

#[test]
fn a_row_holds_each_field_under_its_column() {
    let entry = decode(VALID_DATAGRAM_UPSTREAM.as_bytes()).unwrap();
    let row = entry.clone().into_row(0xfeed);
    let real = |literal: &str| SqlValue::Double(Some(RealNumber::parse(literal).unwrap()));
    let expected = vec![
        ("id", SqlValue::Uuid(0xfeed)),
        ("event_ts", SqlValue::Timestamp(Timestamp { seconds: 1660674992, millis: 468 })),
        ("hostname", text("a970744801bb")),
        ("server_name", text("_")),
        ("server_port", SqlValue::Integer(Some(80))),
        ("client_addr", text("172.19.0.1")),
        ("client_forwarded_for", SqlValue::Text(None)),
        ("client_referer", SqlValue::Text(None)),
        ("client_ua", SqlValue::Text(entry.client.ua.clone())),
        ("req_host", text("localhost")),
        ("req_length", SqlValue::BigInt(Some(1658))),
        ("req_method", text("GET")),
        ("req_proto", text("HTTP/1.1")),
        ("req_scheme", text("http")),
        ("req_uri", text("/upstream_proxy_example")),
        ("res_body_length", SqlValue::BigInt(Some(648))),
        ("res_duration", real("0.254")),
        ("res_length", SqlValue::BigInt(Some(1044))),
        ("res_status", SqlValue::Integer(Some(200))),
        ("upstream_addr", text("93.184.216.34:80")),
        ("upstream_bytes_received", SqlValue::BigInt(Some(1041))),
        ("upstream_bytes_sent", SqlValue::BigInt(Some(1705))),
        ("upstream_cache_status", SqlValue::Text(None)),
        ("upstream_connect_time", real("0.128")),
        ("upstream_host", text("example.com")),
        ("upstream_response_length", SqlValue::BigInt(Some(648))),
        ("upstream_response_time", real("0.253")),
        ("upstream_status", SqlValue::Integer(Some(200))),
    ];
    let expected: Vec<Column> =
        expected.into_iter().map(|(name, value)| Column { name, value }).collect();
    assert_eq!(expected, row);
}

#[test]
fn each_new_row_has_an_identifier_of_its_own() {
    let entry = decode(VALID_DATAGRAM_STATIC.as_bytes()).unwrap();
    let first = entry.clone().into_new_row();
    let second = entry.clone().into_new_row();
    assert_ne!(first[0], second[0]);
    assert_eq!(first[1..], second[1..]);
    assert_eq!(entry.into_row(1)[1..], first[1..]);
    match (&first[0].value, &second[0].value) {
        (SqlValue::Uuid(a), SqlValue::Uuid(b)) => {
            assert_eq!(4, (a >> 76) & 0xf);
            assert_eq!(4, (b >> 76) & 0xf);
        }
        _ => panic!("the first column is the identifier"),
    }
}
