//! JSON documents as plain values.
//!
//! [`Json`] is the executable document, [`JsonValue`] its mathematical value.
//! Text is read by `serde_json`; everything else in this crate works on the
//! documents that come out of it.

use serde_json::Value;
use vstd::prelude::*;

verus! {

/// A JSON number, in the three forms in which `serde_json` holds one: a
/// non-negative integer, a negative integer, or a finite binary64 quantity.
/// The last is kept by its IEEE 754 bit pattern.
#[derive(Debug, Clone, Copy, PartialEq, Eq)]
pub enum Number {
    PosInt(u64),
    NegInt(i64),
    Float(u64),
}

impl Number {
    /// The integer that the number is, if it is one.
    pub open spec fn as_int(self) -> Option<int> {
        match self {
            Number::PosInt(u) => Some(u as int),
            Number::NegInt(i) => Some(i as int),
            Number::Float(_) => None,
        }
    }
}

impl DeepView for Number {
    type V = Number;

    open spec fn deep_view(&self) -> Number {
        *self
    }
}

/// A JSON document.
#[derive(Debug, PartialEq, Eq)]
pub enum Json {
    Null,
    Bool(bool),
    Number(Number),
    String(String),
    Array(Vec<Json>),
    /// The members of an object, in order. Where a key occurs twice, readers
    /// take the first occurrence.
    Object(Vec<(String, Json)>),
}

/// The mathematical value of a [`Json`] document.
pub enum JsonValue {
    Null,
    Bool(bool),
    Number(Number),
    String(Seq<char>),
    Array(Seq<JsonValue>),
    Object(Seq<(Seq<char>, JsonValue)>),
}

/// The value under `key` among the members of an object: that of the first
/// member with this key.
pub open spec fn lookup(members: Seq<(Seq<char>, JsonValue)>, key: Seq<char>) -> Option<JsonValue>
    decreases members.len(),
{
    if members.len() == 0 {
        None
    } else if members[0].0 == key {
        Some(members[0].1)
    } else {
        lookup(members.skip(1), key)
    }
}

impl JsonValue {
    /// The member `key` of an object; `None` for a key that the object lacks
    /// and for every document that is no object.
    pub open spec fn get(self, key: Seq<char>) -> Option<JsonValue> {
        match self {
            JsonValue::Object(members) => lookup(members, key),
            _ => None,
        }
    }
}

impl Json {
    /// The value of the document.
    pub open spec fn value(self) -> JsonValue
        decreases self,
    {
        match self {
            Json::Null => JsonValue::Null,
            Json::Bool(b) => JsonValue::Bool(b),
            Json::Number(n) => JsonValue::Number(n),
            Json::String(s) => JsonValue::String(s@),
            Json::Array(items) => JsonValue::Array(
                Seq::new(
                    items.len() as nat,
                    |i: int|
                        if 0 <= i < items.len() {
                            items[i].value()
                        } else {
                            JsonValue::Null
                        },
                ),
            ),
            Json::Object(members) => JsonValue::Object(
                Seq::new(
                    members.len() as nat,
                    |i: int|
                        if 0 <= i < members.len() {
                            (members[i].0@, members[i].1.value())
                        } else {
                            (Seq::empty(), JsonValue::Null)
                        },
                ),
            ),
        }
    }
}

impl DeepView for Json {
    type V = JsonValue;

    open spec fn deep_view(&self) -> JsonValue {
        self.value()
    }
}

impl Clone for Json {
    /// A copy with the same value.
    #[verifier::loop_isolation(false)]
    fn clone(&self) -> (r: Json)
        ensures
            r.deep_view() == self.deep_view(),
        decreases self,
    {
        match self {
            Json::Null => Json::Null,
            Json::Bool(b) => Json::Bool(*b),
            Json::Number(n) => Json::Number(*n),
            Json::String(s) => Json::String(s.clone()),
            Json::Array(items) => {
                let mut copies: Vec<Json> = Vec::new();
                let mut i: usize = 0;
                while i < items.len()
                    invariant
                        i <= items.len(),
                        copies.len() == i,
                        forall|k: int| 0 <= k < i ==> copies[k].value() == items[k].value(),
                    decreases items.len() - i,
                {
                    copies.push(items[i].clone());
                    i += 1;
                }
                let r = Json::Array(copies);
                assert(r.value()->Array_0 =~= self.value()->Array_0);
                r
            },
            Json::Object(members) => {
                let mut copies: Vec<(String, Json)> = Vec::new();
                let mut i: usize = 0;
                while i < members.len()
                    invariant
                        i <= members.len(),
                        copies.len() == i,
                        forall|k: int|
                            0 <= k < i ==> copies[k].0@ == members[k].0@ && copies[k].1.value()
                                == members[k].1.value(),
                    decreases members.len() - i,
                {
                    copies.push((members[i].0.clone(), members[i].1.clone()));
                    i += 1;
                }
                let r = Json::Object(copies);
                assert(r.value()->Object_0 =~= self.value()->Object_0);
                r
            },
        }
    }
}

impl Json {
    /// A string document.
    pub fn string(text: &str) -> (r: Json)
        ensures
            r.deep_view() == JsonValue::String(text@),
    {
        Json::String(text.to_owned())
    }

    /// An integer document.
    pub fn integer(n: i32) -> (r: Json)
        ensures
            r.deep_view() == JsonValue::Number(Json::spec_integer(n as int)),
    {
        if n < 0 {
            Json::Number(Number::NegInt(n as i64))
        } else {
            Json::Number(Number::PosInt(n as u64))
        }
    }

    /// The number that stands for an integer: `NegInt` below zero, `PosInt`
    /// from zero on.
    pub open spec fn spec_integer(n: int) -> Number {
        if n < 0 {
            Number::NegInt(n as i64)
        } else {
            Number::PosInt(n as u64)
        }
    }

    /// Whether the document is an object.
    pub fn is_object(&self) -> (r: bool)
        ensures
            r == (self.deep_view() is Object),
    {
        match self {
            Json::Object(_) => true,
            _ => false,
        }
    }

    /// The member `key` of an object; `None` for a key that the object lacks
    /// and for every document that is no object.
    pub fn get(&self, key: &str) -> (r: Option<&Json>)
        ensures
            r.deep_view() == self.deep_view().get(key@),
    {
        match self {
            Json::Object(members) => {
                let wanted = key.to_owned();
                let ghost all = self.value()->Object_0;
                let mut i: usize = 0;
                assert(all.skip(0) =~= all);
                while i < members.len()
                    invariant
                        i <= members.len(),
                        wanted@ == key@,
                        self.value() == JsonValue::Object(all),
                        all.len() == members.len(),
                        forall|k: int|
                            0 <= k < members.len() ==> all[k] == (
                                members[k].0@,
                                members[k].1.value(),
                            ),
                        lookup(all, key@) == lookup(all.skip(i as int), key@),
                    decreases members.len() - i,
                {
                    assert(all.skip(i as int)[0] == all[i as int]);
                    if members[i].0 == wanted {
                        return Some(&members[i].1);
                    }
                    assert(all.skip(i as int).skip(1) =~= all.skip(i + 1));
                    i += 1;
                }
                None
            },
            _ => None,
        }
    }
}

/// The value of an object is the list of its keys with the values of its
/// members.
pub proof fn lemma_object_value(members: Vec<(String, Json)>)
    ensures
        Json::Object(members).value() == JsonValue::Object(members.deep_view()),
{
    assert(Json::Object(members).value()->Object_0 =~= members.deep_view());
}

/// Appends a member to a list of members.
pub fn push_member(members: &mut Vec<(String, Json)>, key: &str, value: Json)
    ensures
        final(members).deep_view() == old(members).deep_view().push((key@, value.deep_view())),
{
    members.push((key.to_owned(), value));
    assert(final(members).deep_view() =~= old(members).deep_view().push(
        (key@, value.deep_view()),
    ));
}

/// The object with these members.
pub fn object(members: Vec<(String, Json)>) -> (r: Json)
    ensures
        r.deep_view() == JsonValue::Object(members.deep_view()),
{
    proof {
        lemma_object_value(members);
    }
    Json::Object(members)
}

/// `serde_json::Value`, the document type of `serde_json`. Verus sees nothing
/// inside it: it is carried from the parser to the copy into [`Json`].
#[verifier::external_type_specification]
#[verifier::external_body]
pub struct ExValue(serde_json::Value);

/// The document that `serde_json::from_slice` reads from `bytes` as a
/// `serde_json::Value`, or `None` where it reports an error.
pub uninterp spec fn parsed_json(bytes: Seq<u8>) -> Option<JsonValue>;

/// The document that a `serde_json::Value` holds.
pub uninterp spec fn content(value: Value) -> JsonValue;

/// Calls `serde_json::from_slice` for a `serde_json::Value`. The parser
/// either gives a value or reports an error, which becomes `None` here; what
/// it gives depends on the bytes alone.
#[verifier::external_body]
fn read_value(bytes: &[u8]) -> (r: Option<Value>)
    ensures
        match r {
            Some(value) => parsed_json(bytes@) == Some(content(value)),
            None => parsed_json(bytes@) is None,
        },
{
    serde_json::from_slice::<Value>(bytes).ok()
}

/// One level of a `serde_json::Value`: its variant, with what the variant
/// holds. A list and an object hold their parts as they are.
enum Node<'a> {
    Null,
    Bool(bool),
    Number(Number),
    String(&'a String),
    Array(Vec<&'a Value>),
    Object(Vec<(&'a String, &'a Value)>),
}

/// The document that a node stands for, given what its parts hold.
spec fn node_value(node: Node) -> JsonValue {
    match node {
        Node::Null => JsonValue::Null,
        Node::Bool(b) => JsonValue::Bool(b),
        Node::Number(n) => JsonValue::Number(n),
        Node::String(s) => JsonValue::String(s@),
        Node::Array(items) => JsonValue::Array(
            Seq::new(items.len() as nat, |i: int| content(*items[i])),
        ),
        Node::Object(members) => JsonValue::Object(
            Seq::new(members.len() as nat, |i: int| (members[i].0@, content(*members[i].1))),
        ),
    }
}

/// Tells the variants of a `serde_json::Value` apart and hands out what each
/// holds. The items of a list come in their order, the members of an object
/// in the order in which `serde_json` walks its map. A number keeps the form
/// in which `serde_json` holds it: `Number::as_u64` answers for a non-negative
/// integer, `Number::as_i64` for a negative one, and what is left is a finite
/// float, which `Number::as_f64` gives and which is kept by its bits.
#[verifier::external_body]
fn inspect<'a>(value: &'a Value) -> (node: Node<'a>)
    ensures
        node_value(node) == content(*value),
{
    match value {
        Value::Null => Node::Null,
        Value::Bool(b) => Node::Bool(*b),
        Value::String(s) => Node::String(s),
        Value::Array(a) => Node::Array(a.iter().collect()),
        Value::Object(m) => Node::Object(m.iter().collect()),
        Value::Number(n) => Node::Number(match (n.as_u64(), n.as_i64()) {
            (Some(u), _) => Number::PosInt(u),
            (_, Some(i)) => Number::NegInt(i),
            _ => Number::Float(n.as_f64().unwrap_or_default().to_bits()),
        }),
    }
}

/// Copies a `serde_json::Value` into a [`Json`].
#[verifier::loop_isolation(false)]
fn lift(value: &Value) -> (j: Json)
    ensures
        j.deep_view() == content(*value),
    decreases content(*value),
{
    match inspect(value) {
        Node::Null => Json::Null,
        Node::Bool(b) => Json::Bool(b),
        Node::Number(n) => Json::Number(n),
        Node::String(s) => Json::String(s.clone()),
        Node::Array(items) => {
            let mut copies: Vec<Json> = Vec::new();
            let mut i: usize = 0;
            while i < items.len()
                invariant
                    i <= items.len(),
                    copies.len() == i,
                    forall|k: int| 0 <= k < i ==> copies[k].value() == content(*items[k]),
                decreases items.len() - i,
            {
                assert(content(*value)->Array_0[i as int] == content(*items[i as int]));
                copies.push(lift(items[i]));
                i += 1;
            }
            let j = Json::Array(copies);
            assert(j.value()->Array_0 =~= content(*value)->Array_0);
            j
        },
        Node::Object(members) => {
            let mut copies: Vec<(String, Json)> = Vec::new();
            let mut i: usize = 0;
            while i < members.len()
                invariant
                    i <= members.len(),
                    copies.len() == i,
                    forall|k: int|
                        0 <= k < i ==> copies[k].0@ == members[k].0@ && copies[k].1.value()
                            == content(*members[k].1),
                decreases members.len() - i,
            {
                assert(content(*value)->Object_0[i as int].1 == content(*members[i as int].1));
                copies.push((members[i].0.clone(), lift(members[i].1)));
                i += 1;
            }
            let j = Json::Object(copies);
            assert(j.value()->Object_0 =~= content(*value)->Object_0);
            j
        },
    }
}

impl Json {
    /// Reads a document from JSON text. The result is `None` where the text is
    /// no well-formed JSON.
    pub fn parse(bytes: &[u8]) -> (r: Option<Json>)
        ensures
            r.deep_view() == parsed_json(bytes@),
    {
        match read_value(bytes) {
            Some(value) => Some(lift(&value)),
            None => None,
        }
    }
}

} // verus!
