//! JSON documents as a tree of plain values, with the lookups the adapters
//! make and the reading of JSON and YAML text.

use serde_json::Value;
use vstd::prelude::*;
use vstd::string::*;
use crate::number::{
    Float32, Float64, F32_HUNDRED, F32_MINUS_HUNDRED, F32_ONE, F32_ZERO, F64_HUNDRED,
    F64_MINUS_HUNDRED, F64_ONE, F64_ZERO,
};
use crate::text::str_eq;

verus! {

broadcast use vstd::std_specs::vec::group_vec_axioms;

/// A JSON number: an integer that is not negative, a negative integer, or a
/// binary floating-point number. A document that was read holds no `Single`:
/// that is a binary32 number on its way out, written as the binary64 number of
/// the same value.
#[derive(Clone, Copy, Debug, PartialEq, Eq, Structural)]
pub enum Number {
    PosInt(u64),
    NegInt(i64),
    Float(Float64),
    Single(Float32),
}

/// One member of a JSON object.
#[derive(Debug)]
pub struct Member {
    pub key: String,
    pub value: Json,
}

/// A JSON value. An object is the list of its members; where a key occurs
/// more than once, the last occurrence counts.
#[derive(Debug)]
pub enum Json {
    Null,
    Bool(bool),
    Number(Number),
    String(String),
    Array(Vec<Json>),
    Object(Vec<Member>),
}

/// The two lists hold the same members in the same order.
pub open spec fn same_members(a: Seq<Member>, b: Seq<Member>) -> bool
    decreases a,
{
    a.len() == b.len() && forall|i: int|
        0 <= i < a.len() ==> (#[trigger] a[i]).key == b[i].key && a[i].value.same(b[i].value)
}

/// The two lists hold the same values in the same order.
pub open spec fn same_items(a: Seq<Json>, b: Seq<Json>) -> bool
    decreases a,
{
    a.len() == b.len() && forall|i: int| 0 <= i < a.len() ==> (#[trigger] a[i]).same(b[i])
}

impl Json {
    /// The two values are the same document: the same shape with the same
    /// strings and numbers all the way down.
    pub open spec fn same(self, other: Json) -> bool
        decreases self,
    {
        match self {
            Json::Null => other is Null,
            Json::Bool(a) => other == Json::Bool(a),
            Json::Number(a) => other == Json::Number(a),
            Json::String(a) => other == Json::String(a),
            Json::Array(a) => other matches Json::Array(b) && same_items(a@, b@),
            Json::Object(a) => other matches Json::Object(b) && same_members(a@, b@),
        }
    }
}

impl Clone for Json {
    fn clone(&self) -> (r: Json)
        ensures
            self.same(r),
        decreases *self,
    {
        match self {
            Json::Null => Json::Null,
            Json::Bool(b) => Json::Bool(*b),
            Json::Number(n) => Json::Number(*n),
            Json::String(s) => Json::String(s.clone()),
            Json::Array(items) => {
                let mut out: Vec<Json> = Vec::new();
                let mut i: usize = 0;
                while i < items.len()
                    invariant
                        i <= items.len(),
                        *self == Json::Array(*items),
                        out@.len() == i,
                        forall|k: int| 0 <= k < i ==> (#[trigger] items@[k]).same(out@[k]),
                    decreases items.len() - i,
                {
                    assert(decreases_to!(*items => items[i as int]));
                    assert(decreases_to!(*self => self->Array_0));
                    out.push(items[i].clone());
                    i = i + 1;
                }
                Json::Array(out)
            },
            Json::Object(members) => {
                let mut out: Vec<Member> = Vec::new();
                let mut i: usize = 0;
                while i < members.len()
                    invariant
                        i <= members.len(),
                        *self == Json::Object(*members),
                        out@.len() == i,
                        forall|k: int|
                            0 <= k < i ==> (#[trigger] members@[k]).key == out@[k].key
                                && members@[k].value.same(out@[k].value),
                    decreases members.len() - i,
                {
                    assert(decreases_to!(*self => self->Object_0));
                    assert(decreases_to!(*members => members[i as int]));
                    assert(decreases_to!(members[i as int] => members[i as int].value));
                    out.push(Member { key: members[i].key.clone(), value: members[i].value.clone() });
                    i = i + 1;
                }
                Json::Object(out)
            },
        }
    }
}

impl Clone for Member {
    fn clone(&self) -> (r: Member)
        ensures
            r.key == self.key,
            self.value.same(r.value),
    {
        Member { key: self.key.clone(), value: self.value.clone() }
    }
}

impl Number {
    /// The number as an `i64`, where it is an integer in that range.
    pub open spec fn spec_as_i64(self) -> Option<i64> {
        match self {
            Number::PosInt(n) => if n <= i64::MAX {
                Some(n as i64)
            } else {
                None
            },
            Number::NegInt(n) => Some(n),
            Number::Float(_) => None,
            Number::Single(_) => None,
        }
    }

    /// The number as a `u64`, where it is an integer that is not negative.
    pub open spec fn spec_as_u64(self) -> Option<u64> {
        match self {
            Number::PosInt(n) => Some(n),
            _ => None,
        }
    }

    /// The value is below zero.
    pub open spec fn is_negative(self) -> bool {
        match self {
            Number::PosInt(_) => false,
            Number::NegInt(n) => n < 0,
            Number::Float(f) => f.lt(Float64 { bits: F64_ZERO }),
            Number::Single(f) => f.lt(Float32 { bits: F32_ZERO }),
        }
    }

    /// The value is above zero.
    pub open spec fn is_positive(self) -> bool {
        match self {
            Number::PosInt(n) => n > 0,
            Number::NegInt(n) => n > 0,
            Number::Float(f) => (Float64 { bits: F64_ZERO }).lt(f),
            Number::Single(f) => (Float32 { bits: F32_ZERO }).lt(f),
        }
    }

    /// The value lies in 0 ..= 1.
    pub open spec fn in_unit_interval(self) -> bool {
        match self {
            Number::PosInt(n) => n <= 1,
            Number::NegInt(n) => 0 <= n <= 1,
            Number::Float(f) => (Float64 { bits: F64_ZERO }).le(f) && f.le(Float64 { bits: F64_ONE }),
            Number::Single(f) => (Float32 { bits: F32_ZERO }).le(f) && f.le(Float32 { bits: F32_ONE }),
        }
    }

    /// The value lies in -100 ..= 100.
    pub open spec fn within_hundred(self) -> bool {
        match self {
            Number::PosInt(n) => n <= 100,
            Number::NegInt(n) => -100 <= n <= 100,
            Number::Float(f) => (Float64 { bits: F64_MINUS_HUNDRED }).le(f) && f.le(
                Float64 { bits: F64_HUNDRED },
            ),
            Number::Single(f) => (Float32 { bits: F32_MINUS_HUNDRED }).le(f) && f.le(
                Float32 { bits: F32_HUNDRED },
            ),
        }
    }

    /// The number as an `i64`, where it is an integer in that range.
    pub fn as_i64(&self) -> (r: Option<i64>)
        ensures
            r == self.spec_as_i64(),
    {
        match self {
            Number::PosInt(n) => {
                if *n <= 0x7FFF_FFFF_FFFF_FFFF {
                    Some(*n as i64)
                } else {
                    None
                }
            },
            Number::NegInt(n) => Some(*n),
            Number::Float(_) => None,
            Number::Single(_) => None,
        }
    }

    /// The number as a `u64`, where it is an integer that is not negative.
    pub fn as_u64(&self) -> (r: Option<u64>)
        ensures
            r == self.spec_as_u64(),
    {
        match self {
            Number::PosInt(n) => Some(*n),
            _ => None,
        }
    }

    /// Whether the value is below zero.
    pub fn below_zero(&self) -> (r: bool)
        ensures
            r == self.is_negative(),
    {
        match self {
            Number::PosInt(_) => false,
            Number::NegInt(n) => *n < 0,
            Number::Float(f) => f.less_than(&Float64 { bits: F64_ZERO }),
            Number::Single(f) => f.less_than(&Float32 { bits: F32_ZERO }),
        }
    }

    /// Whether the value is above zero.
    pub fn above_zero(&self) -> (r: bool)
        ensures
            r == self.is_positive(),
    {
        match self {
            Number::PosInt(n) => *n > 0,
            Number::NegInt(n) => *n > 0,
            Number::Float(f) => (Float64 { bits: F64_ZERO }).less_than(f),
            Number::Single(f) => (Float32 { bits: F32_ZERO }).less_than(f),
        }
    }

    /// Whether the value lies in 0 ..= 1.
    pub fn is_in_unit_interval(&self) -> (r: bool)
        ensures
            r == self.in_unit_interval(),
    {
        match self {
            Number::PosInt(n) => *n <= 1,
            Number::NegInt(n) => 0 <= *n && *n <= 1,
            Number::Float(f) => (Float64 { bits: F64_ZERO }).at_most(f) && f.at_most(
                &Float64 { bits: F64_ONE },
            ),
            Number::Single(f) => (Float32 { bits: F32_ZERO }).at_most(f) && f.at_most(
                &Float32 { bits: F32_ONE },
            ),
        }
    }

    /// Whether the value lies in -100 ..= 100.
    pub fn is_within_hundred(&self) -> (r: bool)
        ensures
            r == self.within_hundred(),
    {
        match self {
            Number::PosInt(n) => *n <= 100,
            Number::NegInt(n) => -100 <= *n && *n <= 100,
            Number::Float(f) => (Float64 { bits: F64_MINUS_HUNDRED }).at_most(f) && f.at_most(
                &Float64 { bits: F64_HUNDRED },
            ),
            Number::Single(f) => (Float32 { bits: F32_MINUS_HUNDRED }).at_most(f) && f.at_most(
                &Float32 { bits: F32_HUNDRED },
            ),
        }
    }
}

/// The value of the last member of `members` whose key is `key`.
pub open spec fn find(members: Seq<Member>, key: Seq<char>) -> Option<Json>
    decreases members.len(),
{
    if members.len() == 0 {
        None
    } else if members.last().key@ == key {
        Some(members.last().value)
    } else {
        find(members.drop_last(), key)
    }
}

impl Json {
    /// What the object holds under `key`; `None` for a missing key and for a
    /// value that is no object.
    pub open spec fn spec_get(self, key: Seq<char>) -> Option<Json> {
        match self {
            Json::Object(members) => find(members@, key),
            _ => None,
        }
    }

    /// The string that the value is, where it is one.
    pub open spec fn spec_as_str(self) -> Option<Seq<char>> {
        match self {
            Json::String(s) => Some(s@),
            _ => None,
        }
    }

    /// The value as an `i64`, where it is an integer in that range.
    pub open spec fn spec_as_i64(self) -> Option<i64> {
        match self {
            Json::Number(n) => n.spec_as_i64(),
            _ => None,
        }
    }

    /// The value as a `u64`, where it is an integer that is not negative.
    pub open spec fn spec_as_u64(self) -> Option<u64> {
        match self {
            Json::Number(n) => n.spec_as_u64(),
            _ => None,
        }
    }

    /// The number that the value is, where it is one.
    pub open spec fn spec_as_number(self) -> Option<Number> {
        match self {
            Json::Number(n) => Some(n),
            _ => None,
        }
    }

    /// What the object holds under `key`.
    pub fn get(&self, key: &str) -> (r: Option<&Json>)
        ensures
            match r {
                Some(v) => self.spec_get(key@) == Some(*v),
                None => self.spec_get(key@) is None,
            },
    {
        match self {
            Json::Object(members) => find_member(members, key),
            _ => None,
        }
    }

    /// The string that the value is, where it is one.
    pub fn as_str(&self) -> (r: Option<&str>)
        ensures
            match r {
                Some(s) => self.spec_as_str() == Some(s@),
                None => self.spec_as_str() is None,
            },
    {
        match self {
            Json::String(s) => Some(s.as_str()),
            _ => None,
        }
    }

    /// The value as an `i64`, where it is an integer in that range.
    pub fn as_i64(&self) -> (r: Option<i64>)
        ensures
            r == self.spec_as_i64(),
    {
        match self {
            Json::Number(n) => n.as_i64(),
            _ => None,
        }
    }

    /// The value as a `u64`, where it is an integer that is not negative.
    pub fn as_u64(&self) -> (r: Option<u64>)
        ensures
            r == self.spec_as_u64(),
    {
        match self {
            Json::Number(n) => n.as_u64(),
            _ => None,
        }
    }

    /// The number that the value is, where it is one.
    pub fn as_number(&self) -> (r: Option<Number>)
        ensures
            r == self.spec_as_number(),
    {
        match self {
            Json::Number(n) => Some(*n),
            _ => None,
        }
    }

    /// Whether the value is a string.
    pub fn is_string(&self) -> (r: bool)
        ensures
            r == (self is String),
    {
        match self {
            Json::String(_) => true,
            _ => false,
        }
    }

    /// Whether the value is a boolean.
    pub fn is_boolean(&self) -> (r: bool)
        ensures
            r == (self is Bool),
    {
        match self {
            Json::Bool(_) => true,
            _ => false,
        }
    }

    /// Whether the value is `null`.
    pub fn is_null(&self) -> (r: bool)
        ensures
            r == (self is Null),
    {
        match self {
            Json::Null => true,
            _ => false,
        }
    }
}

/// The value of the last member under `key`.
pub fn find_member<'a>(members: &'a Vec<Member>, key: &str) -> (r: Option<&'a Json>)
    ensures
        match r {
            Some(v) => find(members@, key@) == Some(*v),
            None => find(members@, key@) is None,
        },
{
    let mut i: usize = members.len();
    assert(members@.subrange(0, i as int) =~= members@);
    while i > 0
        invariant
            i <= members.len(),
            find(members@, key@) == find(members@.subrange(0, i as int), key@),
        decreases i,
    {
        let ghost head = members@.subrange(0, i as int);
        assert(head.last() == members@[i - 1]);
        assert(head.drop_last() =~= members@.subrange(0, i - 1));
        if str_eq(members[i - 1].key.as_str(), key) {
            return Some(&members[i - 1].value);
        }
        i = i - 1;
    }
    assert(members@.subrange(0, 0).len() == 0);
    None
}

/// Adds a member at the end, where it counts before every earlier member
/// of the same key.
pub fn put(members: &mut Vec<Member>, key: &str, value: Json)
    ensures
        final(members)@.len() == old(members)@.len() + 1,
        final(members)@.subrange(0, old(members)@.len() as int) == old(members)@,
        final(members)@.last().key@ == key@,
        final(members)@.last().value == value,
        forall|q: Seq<char>| #[trigger]
            find(final(members)@, q) == if q == key@ {
                Some(value)
            } else {
                find(old(members)@, q)
            },
{
    let ghost before = members@;
    members.push(Member { key: String::from_str(key), value });
    assert(members@.drop_last() =~= before);
    assert(members@.subrange(0, before.len() as int) =~= before);
}

/// Adds a member at the end where there is a value, and nothing where
/// there is none.
pub fn put_opt(members: &mut Vec<Member>, key: &str, value: Option<Json>)
    ensures
        forall|q: Seq<char>| #[trigger]
            find(final(members)@, q) == if q == key@ && value is Some {
                value
            } else {
                find(old(members)@, q)
            },
{
    match value {
        Some(v) => {
            put(members, key, v);
        },
        None => {},
    }
}

/// A lookup in two lists, one after the other: the second list counts
/// first.
pub proof fn lemma_find_concat(base: Seq<Member>, over: Seq<Member>, key: Seq<char>)
    ensures
        find(base + over, key) == if find(over, key) is Some {
            find(over, key)
        } else {
            find(base, key)
        },
    decreases over.len(),
{
    if over.len() == 0 {
        assert(base + over =~= base);
    } else {
        assert((base + over).drop_last() =~= base + over.drop_last());
        assert((base + over).last() == over.last());
        lemma_find_concat(base, over.drop_last(), key);
    }
}

/// The value type of `serde_json`, which the reading of a text goes through.
#[verifier::external_type_specification]
#[verifier::external_body]
pub struct ExValue(serde_json::Value);

/// What `serde_json::from_str` makes of a text: the document, or the words
/// of its error.
pub uninterp spec fn json_document(text: Seq<char>) -> Result<Json, String>;

/// What `serde_yaml::from_str` makes of a text read as a JSON value: the
/// document, or the words of its error.
pub uninterp spec fn yaml_document(text: Seq<char>) -> Result<Json, String>;

/// The number that a `serde_json::Value` holds: what `as_u64` gives where
/// it gives a number, else what `as_i64` gives, else the bits of what `as_f64`
/// gives.
#[verifier::external_body]
fn number_of_value(value: &Value) -> (r: Number)
{
    match (value.as_u64(), value.as_i64()) {
        (Some(n), _) => Number::PosInt(n),
        (None, Some(n)) => Number::NegInt(n),
        (None, None) => Number::Float(
            Float64 { bits: value.as_f64().map(|x| x.to_bits()).unwrap_or_default() },
        ),
    }
}

/// Turns a `serde_json::Value` into a `Json`, variant by variant, with the
/// members of an object in the order in which the value hands them out.
#[verifier::external_body]
fn json_of_value(value: &Value) -> (r: Json)
{
    match value {
        Value::Null => Json::Null,
        Value::Bool(b) => Json::Bool(*b),
        Value::Number(_) => Json::Number(number_of_value(value)),
        Value::String(s) => Json::String(s.clone()),
        Value::Array(a) => Json::Array(a.iter().map(json_of_value).collect()),
        Value::Object(m) => Json::Object(
            m.iter().map(|(k, v)| Member { key: k.clone(), value: json_of_value(v) }).collect(),
        ),
    }
}

/// Reads a JSON text with `serde_json::from_str`. The same text always gives
/// the same document or the same error.
#[verifier::external_body]
pub(crate) fn parse_json(text: &str) -> (r: Result<Json, String>)
    ensures
        r == json_document(text@),
{
    match serde_json::from_str::<Value>(text) {
        Ok(value) => Ok(json_of_value(&value)),
        Err(e) => Err(e.to_string()),
    }
}

/// Reads a YAML text with `serde_yaml::from_str`, as a JSON value. The same
/// text always gives the same document or the same error.
#[verifier::external_body]
pub(crate) fn parse_yaml(text: &str) -> (r: Result<Json, String>)
    ensures
        r == yaml_document(text@),
{
    match serde_yaml::from_str::<Value>(text) {
        Ok(value) => Ok(json_of_value(&value)),
        Err(e) => Err(e.to_string()),
    }
}

} // verus!
