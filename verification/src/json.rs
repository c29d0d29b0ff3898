//! JSON documents, held as `serde_json::Value` and described by a
//! mathematical model.
//!
//! The library never looks inside a `serde_json::Value` itself. It reads and
//! builds documents through the small functions at the end of this file, whose
//! contracts are stated over [`Json`], the model of a document, and are
//! trusted. Objects keep their members in insertion order, which is what
//! `serde_json` does with its `preserve_order` feature.

use vstd::prelude::*;

verus! {

/// Declares `serde_json::Value`, a JSON document, as an opaque type.
#[verifier::external_type_specification]
#[verifier::external_body]
pub struct ExJsonValue(serde_json::Value);

/// Declares `serde_json::Error`, the failure to parse, as an opaque type.
#[verifier::external_type_specification]
#[verifier::external_body]
pub struct ExJsonError(serde_json::Error);

/// The model of a JSON number: a non-negative integer, a negative integer, or
/// a finite double given by its IEEE 754 bit pattern.
pub enum JsonNumber {
    PosInt(u64),
    NegInt(i64),
    Real(u64),
}

/// The model of a JSON document.
pub enum Json {
    Null,
    Bool(bool),
    Number(JsonNumber),
    Text(Seq<char>),
    Array(Seq<Json>),
    /// The members in order; no key occurs twice.
    Object(Seq<(Seq<char>, Json)>),
}

/// The model of a document held in memory.
pub uninterp spec fn json_of(v: serde_json::Value) -> Json;

/// What parsing `text` as JSON gives: the document, or `None` where `text` is
/// not a JSON document.
pub uninterp spec fn json_parsed(text: Seq<char>) -> Option<Json>;

/// The compact serialisation of a document.
pub uninterp spec fn json_text(doc: Json) -> Seq<char>;

/// The bit pattern of the double nearest to an integer.
pub uninterp spec fn integer_as_double_bits(i: int) -> u64;

/// The value of the first member of `members` whose key is `key`.
pub open spec fn lookup(members: Seq<(Seq<char>, Json)>, key: Seq<char>) -> Option<Json>
    decreases members.len(),
{
    if members.len() == 0 {
        None
    } else if members[0].0 == key {
        Some(members[0].1)
    } else {
        lookup(members.skip(1), key)
    }
}

/// No key occurs twice among `members`.
pub open spec fn distinct_keys(members: Seq<(Seq<char>, Json)>) -> bool {
    forall|i: int, j: int|
        0 <= i < j < members.len() ==> (#[trigger] members[i]).0 != (#[trigger] members[j]).0
}

/// The models of a list of documents.
pub open spec fn jsons_of(items: Seq<serde_json::Value>) -> Seq<Json> {
    items.map_values(|v: serde_json::Value| json_of(v))
}

/// The model of a document that may be missing.
pub open spec fn optional_json_of(v: Option<serde_json::Value>) -> Option<Json> {
    match v {
        Some(doc) => Some(json_of(doc)),
        None => None,
    }
}

/// The models of a list of object members.
pub open spec fn members_of(entries: Seq<(String, serde_json::Value)>) -> Seq<(Seq<char>, Json)> {
    entries.map_values(|e: (String, serde_json::Value)| (e.0@, json_of(e.1)))
}

impl Json {
    /// The member `key` of an object; `None` for a missing key and for
    /// anything but an object.
    pub open spec fn member(self, key: Seq<char>) -> Option<Json> {
        match self {
            Json::Object(members) => lookup(members, key),
            _ => None,
        }
    }

    /// The number as a `u64`, where the document is a non-negative integer.
    pub open spec fn as_u64(self) -> Option<u64> {
        match self {
            Json::Number(JsonNumber::PosInt(n)) => Some(n),
            _ => None,
        }
    }

    /// The number as the bit pattern of a double, where the document is a
    /// number.
    pub open spec fn as_double_bits(self) -> Option<u64> {
        match self {
            Json::Number(JsonNumber::PosInt(n)) => Some(integer_as_double_bits(n as int)),
            Json::Number(JsonNumber::NegInt(n)) => Some(integer_as_double_bits(n as int)),
            Json::Number(JsonNumber::Real(bits)) => Some(bits),
            _ => None,
        }
    }

    /// The characters of a string document.
    pub open spec fn as_text(self) -> Option<Seq<char>> {
        match self {
            Json::Text(s) => Some(s),
            _ => None,
        }
    }

    /// The elements of an array document.
    pub open spec fn as_array(self) -> Option<Seq<Json>> {
        match self {
            Json::Array(items) => Some(items),
            _ => None,
        }
    }

    /// The `u64` at member `key`, or 0 where there is none.
    pub open spec fn u64_member_or_zero(self, key: Seq<char>) -> u64 {
        match self.member(key) {
            Some(v) => match v.as_u64() {
                Some(n) => n,
                None => 0,
            },
            None => 0,
        }
    }

    /// The double at member `key` as its bit pattern, or that of 0.0 (which is
    /// 0) where there is none.
    pub open spec fn double_bits_member_or_zero(self, key: Seq<char>) -> u64 {
        match self.member(key) {
            Some(v) => match v.as_double_bits() {
                Some(bits) => bits,
                None => 0,
            },
            None => 0,
        }
    }

    /// An object of one member.
    pub open spec fn object1(k1: Seq<char>, v1: Json) -> Json {
        Json::Object(seq![(k1, v1)])
    }

    /// An object of two members.
    pub open spec fn object2(k1: Seq<char>, v1: Json, k2: Seq<char>, v2: Json) -> Json {
        Json::Object(seq![(k1, v1), (k2, v2)])
    }

    /// An object of three members.
    pub open spec fn object3(
        k1: Seq<char>,
        v1: Json,
        k2: Seq<char>,
        v2: Json,
        k3: Seq<char>,
        v3: Json,
    ) -> Json {
        Json::Object(seq![(k1, v1), (k2, v2), (k3, v3)])
    }
}

/// Trusted: `serde_json::from_str::<Value>` succeeds exactly on the texts that
/// are JSON documents, and then returns the document that the text denotes.
#[verifier::external_body]
pub(crate) fn parse(text: &str) -> (r: Result<serde_json::Value, serde_json::Error>)
    ensures
        r is Ok <==> json_parsed(text@) is Some,
        r matches Ok(v) ==> json_parsed(text@) == Some(json_of(v)),
{
    serde_json::from_str::<serde_json::Value>(text)
}

/// Trusted: `Value::get` with a string key returns the member of that name
/// where the document is an object that has one, and `None` otherwise.
#[verifier::external_body]
pub(crate) fn get<'a>(v: &'a serde_json::Value, key: &str) -> (r: Option<&'a serde_json::Value>)
    ensures
        match r {
            Some(m) => json_of(*v).member(key@) == Some(json_of(*m)),
            None => json_of(*v).member(key@) is None,
        },
{
    v.get(key)
}

/// Trusted: `Value::as_u64` returns the number where the document is a
/// non-negative integer, and `None` otherwise.
#[verifier::external_body]
pub(crate) fn as_u64(v: &serde_json::Value) -> (r: Option<u64>)
    ensures
        r == json_of(*v).as_u64(),
{
    v.as_u64()
}

/// Trusted: `Value::as_f64` returns a double for every number (an integer is
/// rounded to the nearest double) and `None` for anything else. The double is
/// handed on as its bit pattern.
#[verifier::external_body]
pub(crate) fn as_double_bits(v: &serde_json::Value) -> (r: Option<u64>)
    ensures
        r == (match json_of(*v) {
            Json::Number(JsonNumber::PosInt(n)) => Some(integer_as_double_bits(n as int)),
            Json::Number(JsonNumber::NegInt(n)) => Some(integer_as_double_bits(n as int)),
            Json::Number(JsonNumber::Real(bits)) => Some(bits),
            _ => None,
        }),
{
    v.as_f64().map(|x| x.to_bits())
}

/// Trusted: `Value::as_str` returns the characters of a string document, and
/// `None` for anything else.
#[verifier::external_body]
pub(crate) fn as_str<'a>(v: &'a serde_json::Value) -> (r: Option<&'a str>)
    ensures
        match r {
            Some(s) => json_of(*v).as_text() == Some(s@),
            None => json_of(*v).as_text() is None,
        },
{
    v.as_str()
}

/// Trusted: `Value::as_array` returns the elements of an array document, and
/// `None` for anything else.
#[verifier::external_body]
pub(crate) fn as_array<'a>(v: &'a serde_json::Value) -> (r: Option<&'a Vec<serde_json::Value>>)
    ensures
        match r {
            Some(items) => json_of(*v).as_array() == Some(jsons_of(items@)),
            None => json_of(*v).as_array() is None,
        },
{
    v.as_array()
}

/// Trusted: `Value::clone` returns an equal document.
#[verifier::external_body]
pub(crate) fn duplicate(v: &serde_json::Value) -> (r: serde_json::Value)
    ensures
        json_of(r) == json_of(*v),
{
    v.clone()
}

/// Trusted: `Value::from(String)` is the string document of those characters.
#[verifier::external_body]
pub(crate) fn string(s: String) -> (r: serde_json::Value)
    ensures
        json_of(r) == Json::Text(s@),
{
    serde_json::Value::from(s)
}

/// Trusted: `Value::from(u64)` is the non-negative integer document.
#[verifier::external_body]
pub(crate) fn unsigned(n: u64) -> (r: serde_json::Value)
    ensures
        json_of(r) == Json::Number(JsonNumber::PosInt(n)),
{
    serde_json::Value::from(n)
}

/// Trusted: `Value::from(Vec<Value>)` is the array of those elements.
#[verifier::external_body]
pub(crate) fn array(items: Vec<serde_json::Value>) -> (r: serde_json::Value)
    ensures
        json_of(r) == Json::Array(jsons_of(items@)),
{
    serde_json::Value::from(items)
}

/// Trusted: `Map::from_iter`, wrapped in `Value::Object`, is the object whose
/// members are the given pairs in their order, provided no key occurs twice.
#[verifier::external_body]
pub(crate) fn object(entries: Vec<(String, serde_json::Value)>) -> (r: serde_json::Value)
    ensures
        distinct_keys(members_of(entries@)) ==> json_of(r) == Json::Object(members_of(entries@)),
{
    serde_json::Value::Object(entries.into_iter().collect())
}

/// Trusted: `Value::to_string` is the compact serialisation of the document.
#[verifier::external_body]
pub(crate) fn render(v: &serde_json::Value) -> (r: String)
    ensures
        r@ == json_text(json_of(*v)),
{
    v.to_string()
}

/// The `u64` at member `key` of `doc`, or 0 where `doc` is no object, has no
/// such member, or the member is no non-negative integer.
pub fn u64_member_or_zero(doc: &serde_json::Value, key: &str) -> (r: u64)
    ensures
        r == json_of(*doc).u64_member_or_zero(key@),
{
    match get(doc, key) {
        Some(v) => match as_u64(v) {
            Some(n) => n,
            None => 0,
        },
        None => 0,
    }
}

/// The double at member `key` of `doc` as its bit pattern, or 0 (the pattern
/// of 0.0) where `doc` is no object, has no such member, or the member is no
/// number.
pub fn double_bits_member_or_zero(doc: &serde_json::Value, key: &str) -> (r: u64)
    ensures
        r == json_of(*doc).double_bits_member_or_zero(key@),
{
    match get(doc, key) {
        Some(v) => match as_double_bits(v) {
            Some(bits) => bits,
            None => 0,
        },
        None => 0,
    }
}

/// The object `{k1: v1}`.
pub(crate) fn object1(k1: &str, v1: serde_json::Value) -> (r: serde_json::Value)
    ensures
        json_of(r) == Json::object1(k1@, json_of(v1)),
{
    let mut entries: Vec<(String, serde_json::Value)> = Vec::new();
    entries.push((String::from_str(k1), v1));
    proof {
        assert(members_of(entries@) == seq![(k1@, json_of(v1))]);
    }
    object(entries)
}

/// The object `{k1: v1, k2: v2}`.
pub(crate) fn object2(k1: &str, v1: serde_json::Value, k2: &str, v2: serde_json::Value) -> (r:
    serde_json::Value)
    requires
        k1@ != k2@,
    ensures
        json_of(r) == Json::object2(k1@, json_of(v1), k2@, json_of(v2)),
{
    let mut entries: Vec<(String, serde_json::Value)> = Vec::new();
    entries.push((String::from_str(k1), v1));
    entries.push((String::from_str(k2), v2));
    proof {
        assert(members_of(entries@) == seq![(k1@, json_of(v1)), (k2@, json_of(v2))]);
    }
    object(entries)
}

/// The object `{k1: v1, k2: v2, k3: v3}`.
pub(crate) fn object3(
    k1: &str,
    v1: serde_json::Value,
    k2: &str,
    v2: serde_json::Value,
    k3: &str,
    v3: serde_json::Value,
) -> (r: serde_json::Value)
    requires
        k1@ != k2@,
        k1@ != k3@,
        k2@ != k3@,
    ensures
        json_of(r) == Json::object3(k1@, json_of(v1), k2@, json_of(v2), k3@, json_of(v3)),
{
    let mut entries: Vec<(String, serde_json::Value)> = Vec::new();
    entries.push((String::from_str(k1), v1));
    entries.push((String::from_str(k2), v2));
    entries.push((String::from_str(k3), v3));
    proof {
        assert(members_of(entries@) == seq![
            (k1@, json_of(v1)),
            (k2@, json_of(v2)),
            (k3@, json_of(v3)),
        ]);
    }
    object(entries)
}

} // verus!
