//! The event: one access-log record, and its schema as a JSON document.

use crate::error::DecodeError;
use crate::fields::{
    address_leaf, datetime_from_mstimestamp, number_leaf, optional_normalized_ip,
    optional_normalized_string, optional_number_from_string, string_leaf, text_view,
    timestamp_leaf,
};
use crate::json::{find_member, found, member_of, Json, Member};
use crate::normalize::number_view;
use crate::numbers::{is_real_literal, Number, RealNumber};
use crate::text::{is_white_space, lemma_trimmed};
use crate::timestamp::{timestamp_of, Timestamp};
use vstd::prelude::*;

verus! {

/// The server that took the request.
#[derive(Clone, Debug, PartialEq, Eq)]
pub struct Server {
    pub name: Option<String>,
    pub port: Option<i32>,
}

/// The client that sent the request.
#[derive(Clone, Debug, PartialEq, Eq)]
pub struct Client {
    pub addr: Option<String>,
    pub forwarded_for: Option<String>,
    pub referer: Option<String>,
    pub ua: Option<String>,
}

/// The request.
#[derive(Clone, Debug, PartialEq, Eq)]
pub struct Req {
    pub host: Option<String>,
    pub length: Option<i64>,
    pub method: Option<String>,
    pub proto: Option<String>,
    pub scheme: Option<String>,
    pub uri: Option<String>,
}

/// The response. The duration is in seconds.
#[derive(Clone, Debug, PartialEq, Eq)]
pub struct Res {
    pub body_length: Option<i64>,
    pub duration: Option<RealNumber>,
    pub length: Option<i64>,
    pub status: Option<i32>,
}

/// The upstream that the request was handed to, if any. The times are in
/// seconds.
#[derive(Clone, Debug, PartialEq, Eq)]
pub struct Upstream {
    pub addr: Option<String>,
    pub bytes_received: Option<i64>,
    pub bytes_sent: Option<i64>,
    pub cache_status: Option<String>,
    pub connect_time: Option<RealNumber>,
    pub host: Option<String>,
    pub response_length: Option<i64>,
    pub response_time: Option<RealNumber>,
    pub status: Option<i32>,
}

/// One access-log record.
#[derive(Clone, Debug, PartialEq, Eq)]
pub struct AccessLogEntry {
    pub hostname: String,
    pub ts: Timestamp,
    pub server: Server,
    pub client: Client,
    pub req: Req,
    pub res: Res,
    pub upstream: Upstream,
}

pub struct ServerView {
    pub name: Option<Seq<char>>,
    pub port: Option<i32>,
}

pub struct ClientView {
    pub addr: Option<Seq<char>>,
    pub forwarded_for: Option<Seq<char>>,
    pub referer: Option<Seq<char>>,
    pub ua: Option<Seq<char>>,
}

pub struct ReqView {
    pub host: Option<Seq<char>>,
    pub length: Option<i64>,
    pub method: Option<Seq<char>>,
    pub proto: Option<Seq<char>>,
    pub scheme: Option<Seq<char>>,
    pub uri: Option<Seq<char>>,
}

pub struct ResView {
    pub body_length: Option<i64>,
    pub duration: Option<Seq<char>>,
    pub length: Option<i64>,
    pub status: Option<i32>,
}

pub struct UpstreamView {
    pub addr: Option<Seq<char>>,
    pub bytes_received: Option<i64>,
    pub bytes_sent: Option<i64>,
    pub cache_status: Option<Seq<char>>,
    pub connect_time: Option<Seq<char>>,
    pub host: Option<Seq<char>>,
    pub response_length: Option<i64>,
    pub response_time: Option<Seq<char>>,
    pub status: Option<i32>,
}

pub struct AccessLogEntryView {
    pub hostname: Seq<char>,
    pub ts: Timestamp,
    pub server: ServerView,
    pub client: ClientView,
    pub req: ReqView,
    pub res: ResView,
    pub upstream: UpstreamView,
}

/// A text field is in its normal form: absent, or text that begins and ends
/// with a character that is no white space.
pub open spec fn is_normal_text(field: Option<Seq<char>>) -> bool {
    field matches Some(text) ==> text.len() > 0 && !is_white_space(text.first())
        && !is_white_space(text.last())
}

/// A field of seconds is in its normal form: absent, or a real literal.
pub open spec fn is_normal_real(field: Option<Seq<char>>) -> bool {
    field matches Some(literal) ==> is_real_literal(literal)
}

impl ServerView {
    /// Every field is in its normal form.
    pub open spec fn is_normal(self) -> bool {
        is_normal_text(self.name)
    }
}

impl ClientView {
    /// Every field is in its normal form. An address may be any text.
    pub open spec fn is_normal(self) -> bool {
        &&& is_normal_text(self.forwarded_for)
        &&& is_normal_text(self.referer)
        &&& is_normal_text(self.ua)
    }
}

impl ReqView {
    /// Every field is in its normal form.
    pub open spec fn is_normal(self) -> bool {
        &&& is_normal_text(self.host)
        &&& is_normal_text(self.method)
        &&& is_normal_text(self.proto)
        &&& is_normal_text(self.scheme)
        &&& is_normal_text(self.uri)
    }
}

impl ResView {
    /// Every field is in its normal form.
    pub open spec fn is_normal(self) -> bool {
        is_normal_real(self.duration)
    }
}

impl UpstreamView {
    /// Every field is in its normal form. An address may be any text.
    pub open spec fn is_normal(self) -> bool {
        &&& is_normal_text(self.cache_status)
        &&& is_normal_real(self.connect_time)
        &&& is_normal_text(self.host)
        &&& is_normal_real(self.response_time)
    }
}

impl AccessLogEntryView {
    /// The event is as decoding leaves it: a UTC date-time exists for its
    /// time stamp, and every field that is there is in its normal form, so
    /// that no text field is empty or has white space at either end.
    pub open spec fn is_normal(self) -> bool {
        &&& self.ts.is_representable()
        &&& self.server.is_normal()
        &&& self.client.is_normal()
        &&& self.req.is_normal()
        &&& self.res.is_normal()
        &&& self.upstream.is_normal()
    }
}

/// A real number that may be absent, by its literal.
pub open spec fn literal_of(number: Option<RealNumber>) -> Option<Seq<char>> {
    match number {
        Some(number) => Some(number@),
        None => None,
    }
}

impl View for Server {
    type V = ServerView;

    open spec fn view(&self) -> ServerView {
        ServerView { name: self.name.deep_view(), port: self.port }
    }
}

impl View for Client {
    type V = ClientView;

    open spec fn view(&self) -> ClientView {
        ClientView {
            addr: self.addr.deep_view(),
            forwarded_for: self.forwarded_for.deep_view(),
            referer: self.referer.deep_view(),
            ua: self.ua.deep_view(),
        }
    }
}

impl View for Req {
    type V = ReqView;

    open spec fn view(&self) -> ReqView {
        ReqView {
            host: self.host.deep_view(),
            length: self.length,
            method: self.method.deep_view(),
            proto: self.proto.deep_view(),
            scheme: self.scheme.deep_view(),
            uri: self.uri.deep_view(),
        }
    }
}

impl View for Res {
    type V = ResView;

    open spec fn view(&self) -> ResView {
        ResView {
            body_length: self.body_length,
            duration: literal_of(self.duration),
            length: self.length,
            status: self.status,
        }
    }
}

impl View for Upstream {
    type V = UpstreamView;

    open spec fn view(&self) -> UpstreamView {
        UpstreamView {
            addr: self.addr.deep_view(),
            bytes_received: self.bytes_received,
            bytes_sent: self.bytes_sent,
            cache_status: self.cache_status.deep_view(),
            connect_time: literal_of(self.connect_time),
            host: self.host.deep_view(),
            response_length: self.response_length,
            response_time: literal_of(self.response_time),
            status: self.status,
        }
    }
}

impl View for AccessLogEntry {
    type V = AccessLogEntryView;

    open spec fn view(&self) -> AccessLogEntryView {
        AccessLogEntryView {
            hostname: self.hostname@,
            ts: self.ts,
            server: self.server@,
            client: self.client@,
            req: self.req@,
            res: self.res@,
            upstream: self.upstream@,
        }
    }
}

/// Both results, or the error of the first of them that is one.
pub open spec fn both<A, B>(first: Result<A, DecodeError>, second: Result<B, DecodeError>) -> Result<
    (A, B),
    DecodeError,
> {
    match first {
        Ok(a) => match second {
            Ok(b) => Ok((a, b)),
            Err(error) => Err(error),
        },
        Err(error) => Err(error),
    }
}

/// The text field under `key`: absent if `members` has no such member.
pub open spec fn text_field(members: Seq<Member>, key: Seq<char>) -> Result<
    Option<Seq<char>>,
    DecodeError,
> {
    match member_of(members, key) {
        Some(leaf) => string_leaf(leaf),
        None => Ok(None),
    }
}

/// The address field under `key`: absent if `members` has no such member.
pub open spec fn address_field(members: Seq<Member>, key: Seq<char>) -> Result<
    Option<Seq<char>>,
    DecodeError,
> {
    match member_of(members, key) {
        Some(leaf) => address_leaf(leaf),
        None => Ok(None),
    }
}

/// The numeric field under `key`: absent if `members` has no such member.
pub open spec fn number_field<T: Number>(members: Seq<Member>, key: Seq<char>) -> Result<
    Option<T::V>,
    DecodeError,
> {
    match member_of(members, key) {
        Some(leaf) => number_leaf::<T>(leaf),
        None => Ok(None),
    }
}

/// The members of the group under `key`: none if `members` has no such
/// member, so that every field of the group is absent.
pub open spec fn group_of(members: Seq<Member>, key: Seq<char>) -> Result<
    Seq<Member>,
    DecodeError,
> {
    match member_of(members, key) {
        Some(Json::Object(group)) => Ok(group@),
        Some(_) => Err(DecodeError::UnexpectedShape),
        None => Ok(Seq::empty()),
    }
}

/// The host name, which the document must hold as a JSON string. It is
/// taken as it stands.
pub open spec fn hostname_of(members: Seq<Member>) -> Result<Seq<char>, DecodeError> {
    match member_of(members, "hostname"@) {
        Some(Json::Text(hostname)) => Ok(hostname@),
        Some(_) => Err(DecodeError::UnexpectedShape),
        None => Err(DecodeError::MissingHostname),
    }
}

/// The time stamp, which the document must hold under `ts`.
pub open spec fn timestamp_field(members: Seq<Member>) -> Result<Timestamp, DecodeError> {
    match member_of(members, "ts"@) {
        Some(leaf) => timestamp_leaf(leaf),
        None => Err(DecodeError::MissingTimestamp),
    }
}

/// The server that the members of the group `server` describe.
pub open spec fn server_of(group: Seq<Member>) -> Result<ServerView, DecodeError> {
    match both(text_field(group, "name"@), number_field::<i32>(group, "port"@)) {
        Ok((name, port)) => Ok(ServerView { name, port }),
        Err(error) => Err(error),
    }
}

/// The client that the members of the group `client` describe.
pub open spec fn client_of(group: Seq<Member>) -> Result<ClientView, DecodeError> {
    match both(
        address_field(group, "addr"@),
        both(
            text_field(group, "forwarded_for"@),
            both(text_field(group, "referer"@), text_field(group, "ua"@)),
        ),
    ) {
        Ok((addr, (forwarded_for, (referer, ua)))) => Ok(
            ClientView { addr, forwarded_for, referer, ua },
        ),
        Err(error) => Err(error),
    }
}

/// The request that the members of the group `req` describe.
pub open spec fn req_of(group: Seq<Member>) -> Result<ReqView, DecodeError> {
    match both(
        text_field(group, "host"@),
        both(
            number_field::<i64>(group, "length"@),
            both(
                text_field(group, "method"@),
                both(
                    text_field(group, "proto"@),
                    both(text_field(group, "scheme"@), text_field(group, "uri"@)),
                ),
            ),
        ),
    ) {
        Ok((host, (length, (method, (proto, (scheme, uri)))))) => Ok(
            ReqView { host, length, method, proto, scheme, uri },
        ),
        Err(error) => Err(error),
    }
}

/// The response that the members of the group `res` describe.
pub open spec fn res_of(group: Seq<Member>) -> Result<ResView, DecodeError> {
    match both(
        number_field::<i64>(group, "body_length"@),
        both(
            number_field::<RealNumber>(group, "duration"@),
            both(number_field::<i64>(group, "length"@), number_field::<i32>(group, "status"@)),
        ),
    ) {
        Ok((body_length, (duration, (length, status)))) => Ok(
            ResView { body_length, duration, length, status },
        ),
        Err(error) => Err(error),
    }
}

/// The upstream that the members of the group `upstream` describe.
pub open spec fn upstream_of(group: Seq<Member>) -> Result<UpstreamView, DecodeError> {
    match both(
        address_field(group, "addr"@),
        both(
            number_field::<i64>(group, "bytes_received"@),
            both(
                number_field::<i64>(group, "bytes_sent"@),
                both(
                    text_field(group, "cache_status"@),
                    both(
                        number_field::<RealNumber>(group, "connect_time"@),
                        both(
                            text_field(group, "host"@),
                            both(
                                number_field::<i64>(group, "response_length"@),
                                both(
                                    number_field::<RealNumber>(group, "response_time"@),
                                    number_field::<i32>(group, "status"@),
                                ),
                            ),
                        ),
                    ),
                ),
            ),
        ),
    ) {
        Ok(
            (
                addr,
                (
                    bytes_received,
                    (
                        bytes_sent,
                        (
                            cache_status,
                            (connect_time, (host, (response_length, (response_time, status)))),
                        ),
                    ),
                ),
            ),
        ) => Ok(
            UpstreamView {
                addr,
                bytes_received,
                bytes_sent,
                cache_status,
                connect_time,
                host,
                response_length,
                response_time,
                status,
            },
        ),
        Err(error) => Err(error),
    }
}

/// What the group under `key` describes, by `describe`.
pub open spec fn in_group<V>(
    members: Seq<Member>,
    key: Seq<char>,
    describe: spec_fn(Seq<Member>) -> Result<V, DecodeError>,
) -> Result<V, DecodeError> {
    match group_of(members, key) {
        Ok(group) => describe(group),
        Err(error) => Err(error),
    }
}

/// The event that `document` describes, or the reason why it describes
/// none: the error of the first field, in the order of the schema, that
/// cannot be read. Only `hostname` and `ts` must be there.
pub open spec fn entry_of(document: Json) -> Result<AccessLogEntryView, DecodeError> {
    match document {
        Json::Object(members) => match both(
            hostname_of(members@),
            both(
                timestamp_field(members@),
                both(
                    in_group(members@, "server"@, |group: Seq<Member>| server_of(group)),
                    both(
                        in_group(members@, "client"@, |group: Seq<Member>| client_of(group)),
                        both(
                            in_group(members@, "req"@, |group: Seq<Member>| req_of(group)),
                            both(
                                in_group(members@, "res"@, |group: Seq<Member>| res_of(group)),
                                in_group(
                                    members@,
                                    "upstream"@,
                                    |group: Seq<Member>| upstream_of(group),
                                ),
                            ),
                        ),
                    ),
                ),
            ),
        ) {
            Ok((hostname, (ts, (server, (client, (req, (res, upstream))))))) => Ok(
                AccessLogEntryView { hostname, ts, server, client, req, res, upstream },
            ),
            Err(error) => Err(error),
        },
        _ => Err(DecodeError::UnexpectedShape),
    }
}

/// What has been read, by its view.
pub open spec fn view_of<T: View>(value: Result<T, DecodeError>) -> Result<T::V, DecodeError> {
    match value {
        Ok(value) => Ok(value@),
        Err(error) => Err(error),
    }
}

fn text_in(members: &Vec<Member>, key: &str) -> (value: Result<Option<String>, DecodeError>)
    ensures
        text_view(value) == text_field(members@, key@),
{
    match find_member(members, key) {
        Some(leaf) => optional_normalized_string(leaf),
        None => Ok(None),
    }
}

fn address_in(members: &Vec<Member>, key: &str) -> (value: Result<Option<String>, DecodeError>)
    ensures
        text_view(value) == address_field(members@, key@),
{
    match find_member(members, key) {
        Some(leaf) => optional_normalized_ip(leaf),
        None => Ok(None),
    }
}

fn number_in<T: Number>(members: &Vec<Member>, key: &str) -> (value: Result<
    Option<T>,
    DecodeError,
>)
    ensures
        number_view(value) == number_field::<T>(members@, key@),
{
    match find_member(members, key) {
        Some(leaf) => optional_number_from_string(leaf),
        None => Ok(None),
    }
}

impl Server {
    /// Reads the fields of a server from the members of its group.
    pub fn from_members(group: &Vec<Member>) -> (server: Result<Server, DecodeError>)
        ensures
            view_of(server) == server_of(group@),
    {
        let name = text_in(group, "name")?;
        let port = number_in::<i32>(group, "port")?;
        Ok(Server { name, port })
    }
}

impl Client {
    /// Reads the fields of a client from the members of its group.
    pub fn from_members(group: &Vec<Member>) -> (client: Result<Client, DecodeError>)
        ensures
            view_of(client) == client_of(group@),
    {
        let addr = address_in(group, "addr")?;
        let forwarded_for = text_in(group, "forwarded_for")?;
        let referer = text_in(group, "referer")?;
        let ua = text_in(group, "ua")?;
        Ok(Client { addr, forwarded_for, referer, ua })
    }
}

impl Req {
    /// Reads the fields of a request from the members of its group.
    pub fn from_members(group: &Vec<Member>) -> (req: Result<Req, DecodeError>)
        ensures
            view_of(req) == req_of(group@),
    {
        let host = text_in(group, "host")?;
        let length = number_in::<i64>(group, "length")?;
        let method = text_in(group, "method")?;
        let proto = text_in(group, "proto")?;
        let scheme = text_in(group, "scheme")?;
        let uri = text_in(group, "uri")?;
        Ok(Req { host, length, method, proto, scheme, uri })
    }
}

impl Res {
    /// Reads the fields of a response from the members of its group.
    pub fn from_members(group: &Vec<Member>) -> (res: Result<Res, DecodeError>)
        ensures
            view_of(res) == res_of(group@),
    {
        let body_length = number_in::<i64>(group, "body_length")?;
        let duration = number_in::<RealNumber>(group, "duration")?;
        let length = number_in::<i64>(group, "length")?;
        let status = number_in::<i32>(group, "status")?;
        Ok(Res { body_length, duration, length, status })
    }
}

impl Upstream {
    /// Reads the fields of an upstream from the members of its group.
    pub fn from_members(group: &Vec<Member>) -> (upstream: Result<Upstream, DecodeError>)
        ensures
            view_of(upstream) == upstream_of(group@),
    {
        let addr = address_in(group, "addr")?;
        let bytes_received = number_in::<i64>(group, "bytes_received")?;
        let bytes_sent = number_in::<i64>(group, "bytes_sent")?;
        let cache_status = text_in(group, "cache_status")?;
        let connect_time = number_in::<RealNumber>(group, "connect_time")?;
        let host = text_in(group, "host")?;
        let response_length = number_in::<i64>(group, "response_length")?;
        let response_time = number_in::<RealNumber>(group, "response_time")?;
        let status = number_in::<i32>(group, "status")?;
        Ok(
            Upstream {
                addr,
                bytes_received,
                bytes_sent,
                cache_status,
                connect_time,
                host,
                response_length,
                response_time,
                status,
            },
        )
    }
}

/// The members of the group under `key`, if there is such a group.
fn group_in<'a>(members: &'a Vec<Member>, key: &str) -> (group: Result<
    Option<&'a Vec<Member>>,
    DecodeError,
>)
    ensures
        match group {
            Ok(Some(group)) => group_of(members@, key@) == Ok::<Seq<Member>, DecodeError>(group@),
            Ok(None) => group_of(members@, key@) == Ok::<Seq<Member>, DecodeError>(Seq::empty()),
            Err(error) => group_of(members@, key@) == Err::<Seq<Member>, DecodeError>(error),
        },
{
    match find_member(members, key) {
        Some(Json::Object(group)) => Ok(Some(group)),
        Some(_) => Err(DecodeError::UnexpectedShape),
        None => Ok(None),
    }
}

impl AccessLogEntry {
    /// Reads an event from the JSON document that describes it.
    pub fn from_json(document: &Json) -> (entry: Result<AccessLogEntry, DecodeError>)
        ensures
            view_of(entry) == entry_of(*document),
            entry matches Ok(entry) ==> entry@.is_normal(),
    {
        proof {
            lemma_decoded_entry_is_normal(*document);
        }
        let members = match document {
            Json::Object(members) => members,
            _ => {
                return Err(DecodeError::UnexpectedShape);
            },
        };
        let absent: Vec<Member> = Vec::new();
        let hostname = match find_member(members, "hostname") {
            Some(Json::Text(hostname)) => hostname.clone(),
            Some(_) => {
                return Err(DecodeError::UnexpectedShape);
            },
            None => {
                return Err(DecodeError::MissingHostname);
            },
        };
        let ts = match find_member(members, "ts") {
            Some(leaf) => datetime_from_mstimestamp(leaf)?,
            None => {
                return Err(DecodeError::MissingTimestamp);
            },
        };
        let server = Server::from_members(
            match group_in(members, "server")? {
                Some(group) => group,
                None => &absent,
            },
        )?;
        let client = Client::from_members(
            match group_in(members, "client")? {
                Some(group) => group,
                None => &absent,
            },
        )?;
        let req = Req::from_members(
            match group_in(members, "req")? {
                Some(group) => group,
                None => &absent,
            },
        )?;
        let res = Res::from_members(
            match group_in(members, "res")? {
                Some(group) => group,
                None => &absent,
            },
        )?;
        let upstream = Upstream::from_members(
            match group_in(members, "upstream")? {
                Some(group) => group,
                None => &absent,
            },
        )?;
        Ok(AccessLogEntry { hostname, ts, server, client, req, res, upstream })
    }
}

/// A text field that can be read is in its normal form.
proof fn lemma_text_field_is_normal(members: Seq<Member>, key: Seq<char>)
    ensures
        text_field(members, key) matches Ok(field) ==> is_normal_text(field),
{
    if let Some(Json::Text(raw)) = member_of(members, key) {
        lemma_trimmed(raw@);
    }
}

/// The event that a document describes is in its normal form.
pub proof fn lemma_decoded_entry_is_normal(document: Json)
    ensures
        entry_of(document) matches Ok(entry) ==> entry.is_normal(),
{
    if let Json::Object(members) = document {
        if let Ok(server) = group_of(members@, "server"@) {
            lemma_text_field_is_normal(server, "name"@);
        }
        if let Ok(client) = group_of(members@, "client"@) {
            lemma_text_field_is_normal(client, "forwarded_for"@);
            lemma_text_field_is_normal(client, "referer"@);
            lemma_text_field_is_normal(client, "ua"@);
        }
        if let Ok(req) = group_of(members@, "req"@) {
            lemma_text_field_is_normal(req, "host"@);
            lemma_text_field_is_normal(req, "method"@);
            lemma_text_field_is_normal(req, "proto"@);
            lemma_text_field_is_normal(req, "scheme"@);
            lemma_text_field_is_normal(req, "uri"@);
        }
        if let Ok(upstream) = group_of(members@, "upstream"@) {
            lemma_text_field_is_normal(upstream, "cache_status"@);
            lemma_text_field_is_normal(upstream, "host"@);
        }
    }
}

/// A document that lacks `hostname` or `ts` describes no event.
pub proof fn lemma_required_fields(document: Json)
    ensures
        document matches Json::Object(members) && member_of(members@, "hostname"@) is None
            ==> entry_of(document) == Err::<AccessLogEntryView, DecodeError>(
            DecodeError::MissingHostname,
        ),
        document matches Json::Object(members) && member_of(members@, "ts"@) is None ==> entry_of(
            document,
        ) is Err,
{
}

/// A field for which there is no member is absent, of whatever kind it is,
/// and a group for which there is none has no members. Neither is an
/// error.
pub proof fn lemma_absent_member(members: Seq<Member>, key: Seq<char>)
    requires
        member_of(members, key) is None,
    ensures
        text_field(members, key) == Ok::<Option<Seq<char>>, DecodeError>(None),
        address_field(members, key) == Ok::<Option<Seq<char>>, DecodeError>(None),
        number_field::<i32>(members, key) == Ok::<Option<i32>, DecodeError>(None),
        number_field::<i64>(members, key) == Ok::<Option<i64>, DecodeError>(None),
        number_field::<RealNumber>(members, key) == Ok::<Option<Seq<char>>, DecodeError>(None),
        group_of(members, key) == Ok::<Seq<Member>, DecodeError>(Seq::empty()),
{
}

/// The server, client, request, response and upstream of which nothing is
/// known: every field is absent.
pub open spec fn absent_server() -> ServerView {
    ServerView { name: None, port: None }
}

pub open spec fn absent_client() -> ClientView {
    ClientView { addr: None, forwarded_for: None, referer: None, ua: None }
}

pub open spec fn absent_req() -> ReqView {
    ReqView { host: None, length: None, method: None, proto: None, scheme: None, uri: None }
}

pub open spec fn absent_res() -> ResView {
    ResView { body_length: None, duration: None, length: None, status: None }
}

pub open spec fn absent_upstream() -> UpstreamView {
    UpstreamView {
        addr: None,
        bytes_received: None,
        bytes_sent: None,
        cache_status: None,
        connect_time: None,
        host: None,
        response_length: None,
        response_time: None,
        status: None,
    }
}

/// A document describes an event exactly when it is an object in which the
/// host name, the time stamp and the five groups can be read, and a group
/// can be read exactly when each of its fields can. With `lemma_absent_member`
/// this says that nothing but `hostname` and `ts` has to be there.
pub proof fn lemma_entry_exists(document: Json, group: Seq<Member>)
    ensures
        entry_of(document) is Ok <==> (document matches Json::Object(members) && {
            &&& hostname_of(members@) is Ok
            &&& timestamp_field(members@) is Ok
            &&& in_group(members@, "server"@, |group: Seq<Member>| server_of(group)) is Ok
            &&& in_group(members@, "client"@, |group: Seq<Member>| client_of(group)) is Ok
            &&& in_group(members@, "req"@, |group: Seq<Member>| req_of(group)) is Ok
            &&& in_group(members@, "res"@, |group: Seq<Member>| res_of(group)) is Ok
            &&& in_group(members@, "upstream"@, |group: Seq<Member>| upstream_of(group)) is Ok
        }),
        server_of(group) is Ok <==> {
            &&& text_field(group, "name"@) is Ok
            &&& number_field::<i32>(group, "port"@) is Ok
        },
        client_of(group) is Ok <==> {
            &&& address_field(group, "addr"@) is Ok
            &&& text_field(group, "forwarded_for"@) is Ok
            &&& text_field(group, "referer"@) is Ok
            &&& text_field(group, "ua"@) is Ok
        },
        req_of(group) is Ok <==> {
            &&& text_field(group, "host"@) is Ok
            &&& number_field::<i64>(group, "length"@) is Ok
            &&& text_field(group, "method"@) is Ok
            &&& text_field(group, "proto"@) is Ok
            &&& text_field(group, "scheme"@) is Ok
            &&& text_field(group, "uri"@) is Ok
        },
        res_of(group) is Ok <==> {
            &&& number_field::<i64>(group, "body_length"@) is Ok
            &&& number_field::<RealNumber>(group, "duration"@) is Ok
            &&& number_field::<i64>(group, "length"@) is Ok
            &&& number_field::<i32>(group, "status"@) is Ok
        },
        upstream_of(group) is Ok <==> {
            &&& address_field(group, "addr"@) is Ok
            &&& number_field::<i64>(group, "bytes_received"@) is Ok
            &&& number_field::<i64>(group, "bytes_sent"@) is Ok
            &&& text_field(group, "cache_status"@) is Ok
            &&& number_field::<RealNumber>(group, "connect_time"@) is Ok
            &&& text_field(group, "host"@) is Ok
            &&& number_field::<i64>(group, "response_length"@) is Ok
            &&& number_field::<RealNumber>(group, "response_time"@) is Ok
            &&& number_field::<i32>(group, "status"@) is Ok
        },
{
}

/// A document with a host name and a valid time stamp, and with none of the
/// groups, describes the event that has these two and nothing else. In any
/// event that a document describes, a group that is not there leaves its
/// fields absent.
pub proof fn lemma_absent_groups(document: Json, hostname: String, ts: String)
    requires
        document matches Json::Object(members) && member_of(members@, "hostname"@) == Some(
            Json::Text(hostname),
        ) && member_of(members@, "ts"@) == Some(Json::Text(ts)),
        timestamp_of(ts@) is Ok,
    ensures
        document matches Json::Object(members) ==> {
            let groups_absent = member_of(members@, "server"@) is None && member_of(
                members@,
                "client"@,
            ) is None && member_of(members@, "req"@) is None && member_of(members@, "res"@)
                is None && member_of(members@, "upstream"@) is None;
            &&& groups_absent ==> entry_of(document) == Ok::<AccessLogEntryView, DecodeError>(
                AccessLogEntryView {
                    hostname: hostname@,
                    ts: timestamp_of(ts@)->Ok_0,
                    server: absent_server(),
                    client: absent_client(),
                    req: absent_req(),
                    res: absent_res(),
                    upstream: absent_upstream(),
                },
            )
            &&& entry_of(document) matches Ok(entry) ==> {
                &&& entry.hostname == hostname@
                &&& member_of(members@, "server"@) is None ==> entry.server == absent_server()
                &&& member_of(members@, "client"@) is None ==> entry.client == absent_client()
                &&& member_of(members@, "req"@) is None ==> entry.req == absent_req()
                &&& member_of(members@, "res"@) is None ==> entry.res == absent_res()
                &&& member_of(members@, "upstream"@) is None ==> entry.upstream
                    == absent_upstream()
            }
        },
{
    let empty = Seq::<Member>::empty();
    assert(member_of(empty, "name"@) is None);
    assert(server_of(empty) == Ok::<ServerView, DecodeError>(absent_server()));
    assert(client_of(empty) == Ok::<ClientView, DecodeError>(absent_client()));
    assert(req_of(empty) == Ok::<ReqView, DecodeError>(absent_req()));
    assert(res_of(empty) == Ok::<ResView, DecodeError>(absent_res()));
    assert(upstream_of(empty) == Ok::<UpstreamView, DecodeError>(absent_upstream()));
}

/// Within a group that can be read, each field for which the group has no
/// member is absent.
pub proof fn lemma_absent_fields(group: Seq<Member>)
    ensures
        server_of(group) matches Ok(server) ==> {
            &&& member_of(group, "name"@) is None ==> server.name is None
            &&& member_of(group, "port"@) is None ==> server.port is None
        },
        client_of(group) matches Ok(client) ==> {
            &&& member_of(group, "addr"@) is None ==> client.addr is None
            &&& member_of(group, "forwarded_for"@) is None ==> client.forwarded_for is None
            &&& member_of(group, "referer"@) is None ==> client.referer is None
            &&& member_of(group, "ua"@) is None ==> client.ua is None
        },
        req_of(group) matches Ok(req) ==> {
            &&& member_of(group, "host"@) is None ==> req.host is None
            &&& member_of(group, "length"@) is None ==> req.length is None
            &&& member_of(group, "method"@) is None ==> req.method is None
            &&& member_of(group, "proto"@) is None ==> req.proto is None
            &&& member_of(group, "scheme"@) is None ==> req.scheme is None
            &&& member_of(group, "uri"@) is None ==> req.uri is None
        },
        res_of(group) matches Ok(res) ==> {
            &&& member_of(group, "body_length"@) is None ==> res.body_length is None
            &&& member_of(group, "duration"@) is None ==> res.duration is None
            &&& member_of(group, "length"@) is None ==> res.length is None
            &&& member_of(group, "status"@) is None ==> res.status is None
        },
        upstream_of(group) matches Ok(upstream) ==> {
            &&& member_of(group, "addr"@) is None ==> upstream.addr is None
            &&& member_of(group, "bytes_received"@) is None ==> upstream.bytes_received is None
            &&& member_of(group, "bytes_sent"@) is None ==> upstream.bytes_sent is None
            &&& member_of(group, "cache_status"@) is None ==> upstream.cache_status is None
            &&& member_of(group, "connect_time"@) is None ==> upstream.connect_time is None
            &&& member_of(group, "host"@) is None ==> upstream.host is None
            &&& member_of(group, "response_length"@) is None ==> upstream.response_length
                is None
            &&& member_of(group, "response_time"@) is None ==> upstream.response_time is None
            &&& member_of(group, "status"@) is None ==> upstream.status is None
        },
{
}

} // verus!
