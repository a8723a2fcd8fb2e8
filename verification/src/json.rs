//! JSON documents as the library reads them.

use vstd::prelude::*;

verus! {

/// A JSON value. A number is held as its literal in canonical form: digits
/// with an optional `-` for an integer that fits 64 bits, and for any other
/// number a shortest decimal text that gives back the same double.
#[derive(Debug, PartialEq, Eq)]
pub enum Json {
    Null,
    Bool(bool),
    Number(String),
    Text(String),
    Array(Vec<Json>),
    Object(Vec<Member>),
}

/// One member of a JSON object.
#[derive(Debug, PartialEq, Eq)]
pub struct Member {
    pub key: String,
    pub value: Json,
}

/// `serde_json::Value`. Nothing is known of what is inside.
#[verifier::external_type_specification]
#[verifier::external_body]
pub struct ExValue(serde_json::Value);

/// The document that `serde_json` reads from `text`, if it reads one: `text`
/// has to be one JSON value, with nothing but white space around it.
pub uninterp spec fn json_document(text: Seq<char>) -> Option<Json>;

/// Moves a `serde_json::Value` into a `Json`, variant by variant. A number
/// becomes the text that `serde_json::Number` displays, an object its
/// members in the order in which `serde_json::Map` hands them out.
#[verifier::external_body]
fn json_from_value(value: serde_json::Value) -> Json {
    match value {
        serde_json::Value::Null => Json::Null,
        serde_json::Value::Bool(b) => Json::Bool(b),
        serde_json::Value::Number(n) => Json::Number(n.to_string()),
        serde_json::Value::String(s) => Json::Text(s),
        serde_json::Value::Array(items) => Json::Array(
            items.into_iter().map(json_from_value).collect(),
        ),
        serde_json::Value::Object(members) => Json::Object(
            members.into_iter().map(
                |(key, value)| Member { key, value: json_from_value(value) },
            ).collect(),
        ),
    }
}

/// `serde_json::from_str` at the type `serde_json::Value`. Trusted: whether
/// it succeeds, and the value it gives, depend on `text` alone.
#[verifier::external_body]
fn read_json(text: &str) -> (document: Option<Json>)
    ensures
        document == json_document(text@),
{
    serde_json::from_str::<serde_json::Value>(text).ok().map(json_from_value)
}

/// The value of the first member of `members` whose key is `key`.
pub open spec fn member_of(members: Seq<Member>, key: Seq<char>) -> Option<Json>
    decreases members.len(),
{
    if members.len() == 0 {
        None
    } else if members.first().key@ == key {
        Some(members.first().value)
    } else {
        member_of(members.drop_first(), key)
    }
}

/// What a lookup has found, without the borrow.
pub open spec fn found(value: Option<&Json>) -> Option<Json> {
    match value {
        Some(json) => Some(*json),
        None => None,
    }
}

/// Whether two texts hold the same characters.
pub fn same_text(a: &str, b: &str) -> (same: bool)
    ensures
        same == (a@ == b@),
{
    let x = a.as_bytes();
    let y = b.as_bytes();
    if x.len() != y.len() {
        return false;
    }
    let mut i: usize = 0;
    while i < x.len()
        invariant
            i <= x.len(),
            x.len() == y.len(),
            x@ == vstd::utf8::encode_utf8(a@),
            y@ == vstd::utf8::encode_utf8(b@),
            x@.take(i as int) == y@.take(i as int),
        decreases x.len() - i,
    {
        if x[i] != y[i] {
            return false;
        }
        assert(x@.take(i + 1) == x@.take(i as int).push(x@[i as int]));
        assert(y@.take(i + 1) == y@.take(i as int).push(y@[i as int]));
        i = i + 1;
    }
    proof {
        assert(x@.take(x@.len() as int) == x@);
        assert(y@.take(y@.len() as int) == y@);
        vstd::utf8::encode_utf8_decode_utf8(a@);
        vstd::utf8::encode_utf8_decode_utf8(b@);
    }
    true
}

impl Json {
    /// Reads `text` as one JSON document.
    pub fn parse(text: &str) -> (document: Option<Json>)
        ensures
            document == json_document(text@),
    {
        read_json(text)
    }

    /// The members of this value, if it is an object.
    pub open spec fn members(self) -> Option<Seq<Member>> {
        match self {
            Json::Object(members) => Some(members@),
            _ => None,
        }
    }

    /// The value under `key`, if this is an object that has a member of
    /// that key.
    pub fn member(&self, key: &str) -> (value: Option<&Json>)
        ensures
            match self.members() {
                Some(members) => found(value) == member_of(members, key@),
                None => value is None,
            },
    {
        match self {
            Json::Object(members) => find_member(members, key),
            _ => None,
        }
    }
}

/// The value of the first member of `members` whose key is `key`.
pub fn find_member<'a>(members: &'a Vec<Member>, key: &str) -> (value: Option<&'a Json>)
    ensures
        found(value) == member_of(members@, key@),
{
    let mut i: usize = 0;
    assert(members@.skip(0) == members@);
    while i < members.len()
        invariant
            i <= members.len(),
            member_of(members@, key@) == member_of(members@.skip(i as int), key@),
        decreases members.len() - i,
    {
        if same_text(members[i].key.as_str(), key) {
            assert(members@.skip(i as int).first() == members@[i as int]);
            return Some(&members[i].value);
        }
        assert(members@.skip(i as int).drop_first() == members@.skip(i + 1));
        assert(members@.skip(i as int).first() == members@[i as int]);
        i = i + 1;
    }
    None
}

} // verus!
