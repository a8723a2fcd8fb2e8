use nginx_syslog_postgres_bridge::decode::{decode_message, parse_datagram};
use nginx_syslog_postgres_bridge::entry::{Client, Req, Res, Server, Upstream};
use nginx_syslog_postgres_bridge::error::DecodeError;
use nginx_syslog_postgres_bridge::json::{find_member, same_text, Json, Member};
use nginx_syslog_postgres_bridge::numbers::RealNumber;
use nginx_syslog_postgres_bridge::syslog::{header_year, strip_envelope, HEADER_YEAR};
use nginx_syslog_postgres_bridge::timestamp::{Timestamp, TimestampError};
use nginx_syslog_postgres_bridge::{decode, AccessLogEntry};

const MESSAGE: &str = r#"{"hostname":"a970744801bb","ts":"1660674992.468","server":{"name":"_","port":"80"},"client":{"addr":"::ffff:172.19.0.1","forwarded_for":"","referer":" ","ua":"Mozilla/5.0 (Macintosh; Intel Mac OS X 10.15; rv:105.0) Gecko/20100101 Firefox/105.0"},"req":{"host":"localhost","length":"1658","method":"GET","proto":"HTTP/1.1","scheme":"http","uri":"/upstream_proxy_example"},"res":{"body_length":"648","duration":"0.254","length":"1044","status":"200"},"upstream":{"addr":"93.184.216.34:80","bytes_received":"1041","bytes_sent":"1705","cache_status":"","connect_time":"0.128","host":"example.com","response_length":"648","response_time":"0.253","status":"200"}}"#;

fn text(value: &str) -> Option<String> {
    Some(value.to_string())
}

fn seconds(value: &str) -> Option<RealNumber> {
    Some(RealNumber::parse(value).unwrap())
}

fn expected() -> AccessLogEntry {
    AccessLogEntry {
        hostname: "a970744801bb".to_string(),
        ts: Timestamp { seconds: 1660674992, millis: 468 },
        server: Server { name: text("_"), port: Some(80) },
        client: Client {
            addr: text("172.19.0.1"),
            forwarded_for: None,
            referer: None,
            ua: text("Mozilla/5.0 (Macintosh; Intel Mac OS X 10.15; rv:105.0) Gecko/20100101 Firefox/105.0"),
        },
        req: Req {
            host: text("localhost"),
            length: Some(1658),
            method: text("GET"),
            proto: text("HTTP/1.1"),
            scheme: text("http"),
            uri: text("/upstream_proxy_example"),
        },
        res: Res {
            body_length: Some(648),
            duration: seconds("0.254"),
            length: Some(1044),
            status: Some(200),
        },
        upstream: Upstream {
            addr: text("93.184.216.34:80"),
            bytes_received: Some(1041),
            bytes_sent: Some(1705),
            cache_status: None,
            connect_time: seconds("0.128"),
            host: text("example.com"),
            response_length: Some(648),
            response_time: seconds("0.253"),
            status: Some(200),
        },
    }
}

fn bare() -> AccessLogEntry {
    AccessLogEntry {
        hostname: "h1".to_string(),
        ts: Timestamp { seconds: 1660674953, millis: 230 },
        server: Server { name: None, port: None },
        client: Client { addr: None, forwarded_for: None, referer: None, ua: None },
        req: Req { host: None, length: None, method: None, proto: None, scheme: None, uri: None },
        res: Res { body_length: None, duration: None, length: None, status: None },
        upstream: Upstream {
            addr: None,
            bytes_received: None,
            bytes_sent: None,
            cache_status: None,
            connect_time: None,
            host: None,
            response_length: None,
            response_time: None,
            status: None,
        },
    }
}

#[test]
fn a_message_is_decoded_field_by_field() {
    assert_eq!(Ok(expected()), decode_message(MESSAGE));
}

#[test]
fn the_envelope_of_the_older_style_is_dropped() {
    let datagram = format!("<190>Aug 16 18:36:32 nginx: {}", MESSAGE);
    assert_eq!(MESSAGE, strip_envelope(&datagram));
    assert_eq!(Ok(expected()), parse_datagram(&datagram));
    assert_eq!(Ok(expected()), decode(datagram.as_bytes()));
}

#[test]
fn the_envelope_of_the_newer_style_is_dropped() {
    let datagram = format!(
        "<165>1 2022-08-16T18:36:32.468Z web1.example.com nginx 4711 ID47 - {}",
        MESSAGE
    );
    assert_eq!(MESSAGE, strip_envelope(&datagram));
    assert_eq!(Ok(expected()), decode(datagram.as_bytes()));
}

#[test]
fn a_datagram_without_an_envelope_is_its_own_message() {
    assert_eq!(MESSAGE, strip_envelope(MESSAGE));
    assert_eq!(Ok(expected()), decode(MESSAGE.as_bytes()));
    assert_eq!("no syslog here", strip_envelope("no syslog here"));
}

#[test]
fn a_header_is_read_without_the_clock() {
    assert_eq!(2000, HEADER_YEAR);
    assert_eq!(HEADER_YEAR, header_year((2, 29, 18, 36, 32)));
    assert_eq!(HEADER_YEAR, header_year((0, 0, 0, 0, 0)));
    for date in ["Feb 29 18:36:32", "Mar 29 02:30:00", "Mar  8 02:30:00", "Dec 31 23:59:59"] {
        let datagram = format!("<190>{} nginx: {}", date, MESSAGE);
        assert_eq!(MESSAGE, strip_envelope(&datagram), "{}", date);
        assert_eq!(Ok(expected()), decode(datagram.as_bytes()), "{}", date);
    }
    let datagram = format!("<190>Feb 30 18:36:32 nginx: {}", MESSAGE);
    assert_eq!(datagram, strip_envelope(&datagram));
    assert_eq!(Err(DecodeError::InvalidJson), decode(datagram.as_bytes()));
}

#[test]
fn the_message_runs_to_the_end_of_the_datagram() {
    let datagram = format!(" \n<190>Aug 16 18:36:32 nginx: {} \r\n", MESSAGE);
    assert_eq!(MESSAGE, strip_envelope(&datagram));
    assert_eq!(Ok(expected()), decode(datagram.as_bytes()));
    assert_eq!(" junk \n", strip_envelope(" junk \n"));
    assert_eq!("", strip_envelope(""));
    assert_eq!(" ", strip_envelope(" "));
}

#[test]
fn the_message_is_the_rest_of_the_datagram_or_all_of_it() {
    let datagrams = [
        "<190>Aug 16 18:35:53 nginx: {}",
        "<190>Aug 16 18:35:53 nginx: ",
        "<190>Aug 16 18:35:53",
        "<190>",
        "<>",
        "<99999999999999999999>Aug 16 18:35:53 nginx: x",
        "<190>Aug 16 99:99:99 nginx: x",
        "<190>Aug 99999999999 18:35:53 nginx: x",
        "<190>Dec 31 262142 23:59:59 host tag: x",
        "<190>Dec 31 99999999999 23:59:59 host tag: x",
        "<190>Jan 1 -262143 00:00:00 host tag: x",
        "Aug 16 18:35:53 host app[12]: message: with: colons",
        "<34>1 2003-10-11T22:14:15.003Z mymachine.example.com su - ID47 - BOM'su root' failed",
        "<34>1 - - - - - -",
        "<34>1 9999-99-99T99:99:99Z h a p m - x",
        "<165>1 2003-10-11T22:14:15.003Z h a p m [id@1 k=\"v\"][id@2 k=\"\\]\"] é世",
        "<165>1 2003-10-11T22:14:15.003Z h a p m [broken",
        "<13>Aug 16 18:35:53 ü: é",
        "\u{2003}<13>Aug 16 18:35:53 h t: m\u{a0}",
        "{\"hostname\": \"h1\"}",
        ":",
        "-",
        "\0",
    ];
    for datagram in datagrams {
        let body = strip_envelope(datagram);
        assert!(body == datagram || datagram.trim().ends_with(body), "{:?}", datagram);
        assert_eq!(body, strip_envelope(datagram));
    }
}

#[test]
fn a_datagram_that_is_no_text_is_discarded() {
    assert_eq!(Err(DecodeError::InvalidUtf8), decode(&[0xff, 0xfe, 0x7b, 0x7d]));
    assert_eq!(Err(DecodeError::InvalidUtf8), decode(&[0x7b, 0xc3]));
    let mut datagram = MESSAGE.as_bytes().to_vec();
    datagram.push(0x80);
    assert_eq!(Err(DecodeError::InvalidUtf8), decode(&datagram));
    assert_eq!(Err(DecodeError::InvalidUtf8), decode(&[0xed, 0xa0, 0x80]));
    assert_eq!(Err(DecodeError::InvalidUtf8), decode(&[0xc0, 0xaf]));
    assert_eq!(Err(DecodeError::InvalidUtf8), decode(&[0xf4, 0x90, 0x80, 0x80]));
}

#[test]
fn text_beyond_ascii_is_kept() {
    let datagram =
        "<190>Aug 16 18:36:32 nginx: {\"hostname\": \"hôte-世界\", \"ts\": \"1660674953.230\", \"req\": {\"uri\": \"\u{3000}/größe?q=✓ \"}}";
    let entry = decode(datagram.as_bytes()).unwrap();
    assert_eq!("hôte-世界", entry.hostname);
    assert_eq!(text("/größe?q=✓"), entry.req.uri);
}

#[test]
fn a_message_that_is_no_json_is_discarded() {
    assert_eq!(Err(DecodeError::InvalidJson), decode_message(""));
    assert_eq!(Err(DecodeError::InvalidJson), decode_message("hello"));
    assert_eq!(Err(DecodeError::InvalidJson), decode_message(r#"{"hostname": "h1""#));
    assert_eq!(Err(DecodeError::InvalidJson), decode_message(r#"{"hostname": "h1"} trailing"#));
    assert_eq!(Err(DecodeError::InvalidJson), decode(b"<190>Aug 16 18:36:32 nginx: {oops"));
    assert_eq!(Err(DecodeError::InvalidJson), decode(b""));
}

#[test]
fn a_document_that_is_no_object_is_discarded() {
    for message in ["null", "true", "5", r#""text""#, "[]", r#"["h1", "1.2"]"#] {
        assert_eq!(Err(DecodeError::UnexpectedShape), decode_message(message), "{}", message);
    }
}

#[test]
fn the_required_fields_must_be_there() {
    assert_eq!(Err(DecodeError::MissingHostname), decode_message(r#"{"hello": "world"}"#));
    assert_eq!(Err(DecodeError::MissingHostname), decode_message("{}"));
    assert_eq!(Err(DecodeError::MissingHostname), decode_message(r#"{"ts": "1.2"}"#));
    assert_eq!(Err(DecodeError::MissingTimestamp), decode_message(r#"{"hostname": "h1"}"#));
    assert_eq!(
        Err(DecodeError::MissingTimestamp),
        decode_message(r#"{"hostname": "h1", "server": {"port": "80"}}"#)
    );
}

#[test]
fn the_required_fields_alone_make_an_event() {
    assert_eq!(
        Ok(bare()),
        decode_message(r#"{"hostname": "h1", "ts": "1660674953.230"}"#)
    );
    assert_eq!(
        Ok(bare()),
        decode_message(
            r#"{"ts": "1660674953.230", "hostname": "h1", "server": {}, "client": {},
                "req": {}, "res": {}, "upstream": {}, "more": [1, 2, 3]}"#
        )
    );
}

#[test]
fn fields_that_are_not_there_are_absent() {
    let mut entry = bare();
    entry.server.port = Some(8080);
    entry.req.uri = text("/");
    entry.res.duration = seconds("1e-3");
    entry.upstream.status = Some(502);
    assert_eq!(
        Ok(entry),
        decode_message(
            r#"{"hostname": "h1", "ts": "1660674953.230", "server": {"port": 8080},
                "req": {"uri": " / "}, "res": {"duration": "1e-3", "unknown": null},
                "upstream": {"status": "502"}}"#
        )
    );
}

#[test]
fn the_host_name_is_taken_as_it_stands() {
    let entry =
        decode_message(r#"{"hostname": "  h1\t", "ts": "1660674953.230"}"#).unwrap();
    assert_eq!("  h1\t", entry.hostname);
    let entry = decode_message(r#"{"hostname": "", "ts": "1660674953.230"}"#).unwrap();
    assert_eq!("", entry.hostname);
}

#[test]
fn a_value_of_the_wrong_kind_is_an_error() {
    for message in [
        r#"{"hostname": 5, "ts": "1.2"}"#,
        r#"{"hostname": null, "ts": "1.2"}"#,
        r#"{"hostname": "h1", "ts": 1660674953.230}"#,
        r#"{"hostname": "h1", "ts": "1.2", "server": "web"}"#,
        r#"{"hostname": "h1", "ts": "1.2", "server": null}"#,
        r#"{"hostname": "h1", "ts": "1.2", "client": []}"#,
        r#"{"hostname": "h1", "ts": "1.2", "server": {"name": 7}}"#,
        r#"{"hostname": "h1", "ts": "1.2", "server": {"port": null}}"#,
        r#"{"hostname": "h1", "ts": "1.2", "client": {"addr": null}}"#,
        r#"{"hostname": "h1", "ts": "1.2", "req": {"uri": {"path": "/"}}}"#,
        r#"{"hostname": "h1", "ts": "1.2", "upstream": {"response_time": true}}"#,
    ] {
        assert_eq!(Err(DecodeError::UnexpectedShape), decode_message(message), "{}", message);
    }
}

#[test]
fn a_time_stamp_that_is_none_is_an_error() {
    let with = |ts: &str| decode_message(&format!(r#"{{"hostname": "h1", "ts": "{}"}}"#, ts));
    assert_eq!(Err(DecodeError::InvalidTimestamp(TimestampError::Seconds)), with("now"));
    assert_eq!(
        Err(DecodeError::InvalidTimestamp(TimestampError::MissingMilliseconds)),
        with("1660674953")
    );
    assert_eq!(
        Err(DecodeError::InvalidTimestamp(TimestampError::Milliseconds)),
        with("1660674953.")
    );
    assert_eq!(
        Err(DecodeError::InvalidTimestamp(TimestampError::OutOfRange)),
        with("1660674953.2300")
    );
}

#[test]
fn a_number_that_is_none_is_an_error() {
    for message in [
        r#"{"hostname": "h1", "ts": "1.2", "server": {"port": "http"}}"#,
        r#"{"hostname": "h1", "ts": "1.2", "server": {"port": " "}}"#,
        r#"{"hostname": "h1", "ts": "1.2", "server": {"port": "80.0"}}"#,
        r#"{"hostname": "h1", "ts": "1.2", "server": {"port": 80.5}}"#,
        r#"{"hostname": "h1", "ts": "1.2", "server": {"port": "4294967296"}}"#,
        r#"{"hostname": "h1", "ts": "1.2", "req": {"length": "9223372036854775808"}}"#,
        r#"{"hostname": "h1", "ts": "1.2", "res": {"duration": "0,254"}}"#,
        r#"{"hostname": "h1", "ts": "1.2", "upstream": {"connect_time": "-"}}"#,
    ] {
        assert_eq!(Err(DecodeError::InvalidNumber), decode_message(message), "{}", message);
    }
}

#[test]
fn the_first_field_that_fails_gives_the_error() {
    assert_eq!(
        Err(DecodeError::UnexpectedShape),
        decode_message(r#"{"hostname": 1, "server": {"port": "x"}}"#)
    );
    assert_eq!(
        Err(DecodeError::InvalidTimestamp(TimestampError::Seconds)),
        decode_message(r#"{"hostname": "h1", "ts": "x", "server": {"port": "x"}}"#)
    );
    assert_eq!(
        Err(DecodeError::InvalidNumber),
        decode_message(
            r#"{"hostname": "h1", "ts": "1.2", "upstream": 5, "server": {"port": "x"}}"#
        )
    );
    assert_eq!(
        Err(DecodeError::UnexpectedShape),
        decode_message(
            r#"{"hostname": "h1", "ts": "1.2", "res": {"status": "x", "body_length": []}}"#
        )
    );
}

#[test]
fn decoding_twice_gives_the_same_event() {
    let datagram = format!("<190>Aug 16 18:36:32 nginx: {}", MESSAGE);
    let first = decode(datagram.as_bytes());
    let second = decode(datagram.as_bytes());
    assert!(first.is_ok());
    assert_eq!(first, second);
    assert_eq!(decode_message("{]"), decode_message("{]"));
    for datagram in [&b"\xff"[..], b"", b"{}", b"<190>Feb 29 18:36:32 nginx: {}"] {
        assert_eq!(decode(datagram), decode(datagram));
    }
}

#[test]
fn escapes_in_json_strings_are_resolved() {
    let entry = decode_message(
        r#"{"hostname": "h\u0031", "ts": "16606749\u00353\u002e230", "server": {"p\u006frt": "8\u0030"}}"#,
    )
    .unwrap();
    assert_eq!("h1", entry.hostname);
    assert_eq!(Timestamp { seconds: 1660674953, millis: 230 }, entry.ts);
    assert_eq!(Some(80), entry.server.port);
}

#[test]
fn members_are_found_by_their_keys() {
    let document = Json::parse(r#"{"b": 1, "a": {"c": "x"}, "é": []}"#).unwrap();
    assert_eq!(Some(&Json::Number("1".to_string())), document.member("b"));
    assert_eq!(Some(&Json::Array(vec![])), document.member("é"));
    assert_eq!(None, document.member("c"));
    assert_eq!(None, document.member(""));
    let inner = document.member("a").unwrap();
    assert_eq!(Some(&Json::Text("x".to_string())), inner.member("c"));
    assert_eq!(None, Json::Null.member("a"));
    assert_eq!(None, Json::Text("a".to_string()).member("a"));

    let members = vec![
        Member { key: "k".to_string(), value: Json::Bool(true) },
        Member { key: "k".to_string(), value: Json::Bool(false) },
    ];
    assert_eq!(Some(&Json::Bool(true)), find_member(&members, "k"));
    assert_eq!(None, find_member(&members, "K"));
}

#[test]
fn json_values_keep_their_kind() {
    assert_eq!(Some(Json::Null), Json::parse(" null "));
    assert_eq!(Some(Json::Bool(false)), Json::parse("false"));
    assert_eq!(Some(Json::Number("-12".to_string())), Json::parse("-12"));
    assert_eq!(Some(Json::Number("0.5".to_string())), Json::parse("5e-1"));
    assert_eq!(Some(Json::Text("a\"b".to_string())), Json::parse(r#""a\"b""#));
    assert_eq!(
        Some(Json::Array(vec![Json::Null, Json::Array(vec![])])),
        Json::parse("[null, []]")
    );
    assert_eq!(
        Some(Json::Object(vec![Member {
            key: "a".to_string(),
            value: Json::Object(vec![])
        }])),
        Json::parse(r#"{"a": {}}"#)
    );
    assert_eq!(None, Json::parse("{\"a\": }"));
    assert_eq!(None, Json::parse("1 2"));
}

#[test]
fn texts_are_compared_by_their_characters() {
    assert!(same_text("", ""));
    assert!(same_text("hostname", "hostname"));
    assert!(same_text("é世", "é世"));
    assert!(!same_text("hostname", "hostnam"));
    assert!(!same_text("hostname", "hostnamE"));
    assert!(!same_text("e\u{301}", "é"));
    assert!(!same_text("", " "));
}
