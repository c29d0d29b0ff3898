//! The capability record that the service returns to a handshake query.

use crate::json::{as_array, as_str, as_u64, get, json_of, json_parsed, jsons_of, parse, Json};
use vstd::prelude::*;

verus! {

/// What the service says of itself.
#[derive(Debug, Clone, PartialEq, Eq)]
pub struct Handshake {
    pub encoding_name: Option<String>,
    pub special_tokens: Vec<String>,
    pub stop_tokens_for_assistant_actions: Vec<u32>,
}

/// The mathematical value of a [`Handshake`].
pub struct HandshakeView {
    pub encoding_name: Option<Seq<char>>,
    pub special_tokens: Seq<Seq<char>>,
    pub stop_tokens_for_assistant_actions: Seq<u32>,
}

impl View for Handshake {
    type V = HandshakeView;

    open spec fn view(&self) -> HandshakeView {
        HandshakeView {
            encoding_name: self.encoding_name.deep_view(),
            special_tokens: self.special_tokens.deep_view(),
            stop_tokens_for_assistant_actions: self.stop_tokens_for_assistant_actions@,
        }
    }
}

impl DeepView for Handshake {
    type V = HandshakeView;

    open spec fn deep_view(&self) -> HandshakeView {
        self@
    }
}

/// The strings among `items`, in order; anything else is passed over.
pub open spec fn texts_among(items: Seq<Json>) -> Seq<Seq<char>>
    decreases items.len(),
{
    if items.len() == 0 {
        Seq::empty()
    } else {
        match items.last().as_text() {
            Some(s) => texts_among(items.drop_last()).push(s),
            None => texts_among(items.drop_last()),
        }
    }
}

/// The non-negative integers among `items`, in order, each cut to its low 32
/// bits, that is taken modulo 2^32; anything else is passed over.
pub open spec fn tokens_among(items: Seq<Json>) -> Seq<u32>
    decreases items.len(),
{
    if items.len() == 0 {
        Seq::empty()
    } else {
        match items.last().as_u64() {
            Some(n) => tokens_among(items.drop_last()).push((n % 0x1_0000_0000) as u32),
            None => tokens_among(items.drop_last()),
        }
    }
}

/// The elements of the array at member `key`; none where `doc` has no such
/// member or the member is no array.
pub open spec fn array_member(doc: Json, key: Seq<char>) -> Seq<Json> {
    match doc.member(key) {
        Some(v) => match v.as_array() {
            Some(items) => items,
            None => Seq::empty(),
        },
        None => Seq::empty(),
    }
}

/// The capability record that a handshake document stands for. A field that
/// is missing or of another type reads as absent or empty.
pub open spec fn handshake_of(doc: Json) -> HandshakeView {
    HandshakeView {
        encoding_name: match doc.member("encoding_name"@) {
            Some(v) => v.as_text(),
            None => None,
        },
        special_tokens: texts_among(array_member(doc, "special_tokens"@)),
        stop_tokens_for_assistant_actions: tokens_among(
            array_member(doc, "stop_tokens_for_assistant_actions"@),
        ),
    }
}

/// The strings among the elements of the array at member `key`.
fn texts_at(doc: &serde_json::Value, key: &str) -> (out: Vec<String>)
    ensures
        out.deep_view() == texts_among(array_member(json_of(*doc), key@)),
{
    let mut out: Vec<String> = Vec::new();
    let items = match get(doc, key) {
        Some(v) => match as_array(v) {
            Some(items) => items,
            None => {
                return out;
            },
        },
        None => {
            return out;
        },
    };
    let ghost all = jsons_of(items@);
    let mut i: usize = 0;
    while i < items.len()
        invariant
            i <= items.len(),
            all == jsons_of(items@),
            out.deep_view() == texts_among(all.take(i as int)),
        decreases items.len() - i,
    {
        proof {
            assert(all.take(i + 1).drop_last() == all.take(i as int));
            assert(all.take(i + 1).last() == json_of(items@[i as int]));
        }
        let ghost before = out.deep_view();
        match as_str(&items[i]) {
            Some(s) => {
                out.push(String::from_str(s));
                proof {
                    assert(out.deep_view() == before.push(s@));
                }
            },
            None => {},
        }
        i = i + 1;
    }
    proof {
        assert(all.take(items.len() as int) == all);
    }
    out
}

/// The non-negative integers among the elements of the array at member `key`,
/// each cut to its low 32 bits.
fn tokens_at(doc: &serde_json::Value, key: &str) -> (out: Vec<u32>)
    ensures
        out@ == tokens_among(array_member(json_of(*doc), key@)),
{
    let mut out: Vec<u32> = Vec::new();
    let items = match get(doc, key) {
        Some(v) => match as_array(v) {
            Some(items) => items,
            None => {
                return out;
            },
        },
        None => {
            return out;
        },
    };
    let ghost all = jsons_of(items@);
    let mut i: usize = 0;
    while i < items.len()
        invariant
            i <= items.len(),
            all == jsons_of(items@),
            out@ == tokens_among(all.take(i as int)),
        decreases items.len() - i,
    {
        proof {
            assert(all.take(i + 1).drop_last() == all.take(i as int));
            assert(all.take(i + 1).last() == json_of(items@[i as int]));
        }
        match as_u64(&items[i]) {
            Some(n) => {
                let token = #[verifier::truncate] (n as u32);
                assert(token == (n % 0x1_0000_0000) as u32) by (bit_vector)
                    requires
                        token == n as u32,
                ;
                out.push(token);
            },
            None => {},
        }
        i = i + 1;
    }
    proof {
        assert(all.take(items.len() as int) == all);
    }
    out
}

impl Handshake {
    /// The capability record of a parsed handshake document.
    pub fn from_json(doc: &serde_json::Value) -> (h: Handshake)
        ensures
            h@ == handshake_of(json_of(*doc)),
    {
        let encoding_name = match get(doc, "encoding_name") {
            Some(v) => match as_str(v) {
                Some(s) => Some(String::from_str(s)),
                None => None,
            },
            None => None,
        };
        Handshake {
            encoding_name,
            special_tokens: texts_at(doc, "special_tokens"),
            stop_tokens_for_assistant_actions: tokens_at(doc, "stop_tokens_for_assistant_actions"),
        }
    }
}

/// Decodes the service's answer to a handshake query. An answer that is not a
/// JSON document gives `None`; every JSON document gives a record.
pub fn decode_handshake(answer: &str) -> (r: Option<Handshake>)
    ensures
        r.deep_view() == (match json_parsed(answer@) {
            Some(doc) => Some(handshake_of(doc)),
            None => None,
        }),
{
    match parse(answer) {
        Ok(doc) => Some(Handshake::from_json(&doc)),
        Err(_) => None,
    }
}

} // verus!
