//! Reading typed values out of JSON documents.
//!
//! Every record of the API is read by the same few rules: a member that must
//! be there, a member that may be missing or `null`, a list whose items must
//! all be readable. [`Decode`] ties each type to the documents that stand for
//! its values.

use crate::json::{Json, JsonValue, Number};
use vstd::prelude::*;

verus! {

/// A type whose values can be read from JSON documents.
pub trait Decode: DeepView + Sized {
    /// The value that a document stands for, where it stands for one.
    spec fn spec_decode(j: JsonValue) -> Option<Self::V>;

    /// Reads a value from a document; `None` where the document stands for
    /// no value of this type.
    fn decode(j: &Json) -> (r: Option<Self>)
        ensures
            r.deep_view() == Self::spec_decode(j.deep_view()),
    ;
}

/// The integer that a document holds, if it lies between `low` and `high`.
pub open spec fn spec_integer(j: JsonValue, low: int, high: int) -> Option<int> {
    match j {
        JsonValue::Number(n) => match n.as_int() {
            Some(v) => if low <= v <= high {
                Some(v)
            } else {
                None
            },
            None => None,
        },
        _ => None,
    }
}

impl Decode for bool {
    open spec fn spec_decode(j: JsonValue) -> Option<bool> {
        match j {
            JsonValue::Bool(b) => Some(b),
            _ => None,
        }
    }

    fn decode(j: &Json) -> (r: Option<bool>) {
        match j {
            Json::Bool(b) => Some(*b),
            _ => None,
        }
    }
}

impl Decode for i8 {
    open spec fn spec_decode(j: JsonValue) -> Option<i8> {
        match spec_integer(j, i8::MIN as int, i8::MAX as int) {
            Some(v) => Some(v as i8),
            None => None,
        }
    }

    fn decode(j: &Json) -> (r: Option<i8>) {
        match j {
            Json::Number(Number::PosInt(u)) => if *u <= 127 {
                Some(*u as i8)
            } else {
                None
            },
            Json::Number(Number::NegInt(i)) => if -128 <= *i && *i <= 127 {
                Some(*i as i8)
            } else {
                None
            },
            _ => None,
        }
    }
}

impl Decode for i32 {
    open spec fn spec_decode(j: JsonValue) -> Option<i32> {
        match spec_integer(j, i32::MIN as int, i32::MAX as int) {
            Some(v) => Some(v as i32),
            None => None,
        }
    }

    fn decode(j: &Json) -> (r: Option<i32>) {
        match j {
            Json::Number(Number::PosInt(u)) => if *u <= 0x7fff_ffff {
                Some(*u as i32)
            } else {
                None
            },
            Json::Number(Number::NegInt(i)) => if -0x8000_0000 <= *i && *i <= 0x7fff_ffff {
                Some(*i as i32)
            } else {
                None
            },
            _ => None,
        }
    }
}

impl Decode for i64 {
    open spec fn spec_decode(j: JsonValue) -> Option<i64> {
        match spec_integer(j, i64::MIN as int, i64::MAX as int) {
            Some(v) => Some(v as i64),
            None => None,
        }
    }

    fn decode(j: &Json) -> (r: Option<i64>) {
        match j {
            Json::Number(Number::PosInt(u)) => if *u <= 0x7fff_ffff_ffff_ffff {
                Some(*u as i64)
            } else {
                None
            },
            Json::Number(Number::NegInt(i)) => Some(*i),
            _ => None,
        }
    }
}

impl Decode for Number {
    open spec fn spec_decode(j: JsonValue) -> Option<Number> {
        match j {
            JsonValue::Number(n) => Some(n),
            _ => None,
        }
    }

    fn decode(j: &Json) -> (r: Option<Number>) {
        match j {
            Json::Number(n) => Some(*n),
            _ => None,
        }
    }
}

impl Decode for String {
    open spec fn spec_decode(j: JsonValue) -> Option<Seq<char>> {
        match j {
            JsonValue::String(s) => Some(s),
            _ => None,
        }
    }

    fn decode(j: &Json) -> (r: Option<String>) {
        match j {
            Json::String(s) => Some(s.clone()),
            _ => None,
        }
    }
}

impl Decode for Json {
    open spec fn spec_decode(j: JsonValue) -> Option<JsonValue> {
        Some(j)
    }

    fn decode(j: &Json) -> (r: Option<Json>) {
        Some(j.clone())
    }
}

/// The values that the items of a list stand for, if every one of them
/// stands for a value.
pub open spec fn spec_decode_all<T: Decode>(items: Seq<JsonValue>) -> Option<Seq<T::V>> {
    if forall|i: int| 0 <= i < items.len() ==> (#[trigger] T::spec_decode(items[i])) is Some {
        Some(Seq::new(items.len(), |i: int| T::spec_decode(items[i])->0))
    } else {
        None
    }
}

impl<T: Decode> Decode for Vec<T> {
    open spec fn spec_decode(j: JsonValue) -> Option<Seq<T::V>> {
        match j {
            JsonValue::Array(items) => spec_decode_all::<T>(items),
            _ => None,
        }
    }

    fn decode(j: &Json) -> (r: Option<Vec<T>>) {
        match j {
            Json::Array(items) => {
                let ghost all = j.value()->Array_0;
                let mut out: Vec<T> = Vec::new();
                let mut i: usize = 0;
                while i < items.len()
                    invariant
                        i <= items.len(),
                        out.len() == i,
                        j.value() == JsonValue::Array(all),
                        all.len() == items.len(),
                        forall|k: int| 0 <= k < items.len() ==> all[k] == items[k].value(),
                        forall|k: int|
                            0 <= k < i ==> T::spec_decode(#[trigger] all[k]) == Some(
                                out[k].deep_view(),
                            ),
                    decreases items.len() - i,
                {
                    match T::decode(&items[i]) {
                        Some(v) => out.push(v),
                        None => {
                            assert(T::spec_decode(all[i as int]) is None);
                            return None;
                        },
                    }
                    i += 1;
                }
                assert(out.deep_view() =~= spec_decode_all::<T>(all)->0);
                Some(out)
            },
            _ => None,
        }
    }
}

/// A member that must be present: what the member `key` of `j` stands for.
pub open spec fn spec_required<T: Decode>(j: JsonValue, key: Seq<char>) -> Option<T::V> {
    match j.get(key) {
        Some(v) => T::spec_decode(v),
        None => None,
    }
}

/// Reads a member that must be present.
pub fn required<T: Decode>(j: &Json, key: &str) -> (r: Option<T>)
    ensures
        r.deep_view() == spec_required::<T>(j.deep_view(), key@),
{
    match j.get(key) {
        Some(v) => T::decode(v),
        None => None,
    }
}

/// A member that may be missing: `Some(None)` where `j` has no member `key`
/// or holds `null` there, `Some(Some(v))` where the member stands for `v`, and
/// `None` where it is present and stands for nothing of the type.
pub open spec fn spec_optional<T: Decode>(j: JsonValue, key: Seq<char>) -> Option<Option<T::V>> {
    match j.get(key) {
        None => Some(None),
        Some(JsonValue::Null) => Some(None),
        Some(v) => match T::spec_decode(v) {
            Some(x) => Some(Some(x)),
            None => None,
        },
    }
}

/// Reads a member that may be missing or `null`.
pub fn optional<T: Decode>(j: &Json, key: &str) -> (r: Option<Option<T>>)
    ensures
        r.deep_view() == spec_optional::<T>(j.deep_view(), key@),
{
    match j.get(key) {
        None => Some(None),
        Some(Json::Null) => Some(None),
        Some(v) => match T::decode(v) {
            Some(x) => Some(Some(x)),
            None => None,
        },
    }
}

/// A member that a document lacks may not be required, and reads as absent
/// where it is optional.
pub proof fn lemma_missing_member<T: Decode>(j: JsonValue, key: Seq<char>)
    requires
        j.get(key) is None,
    ensures
        spec_required::<T>(j, key) is None,
        spec_optional::<T>(j, key) == Some(None::<T::V>),
{
}

} // verus!
