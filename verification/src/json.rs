//! JSON values as the GitHub replies hold them, and the lookups the reply
//! decoders make on them.
use vstd::prelude::*;
use crate::text::str_eq;

verus! {

/// A JSON number, as far as the decoders read it.
#[derive(Debug, Clone, Copy, PartialEq, Eq, Structural)]
pub enum JsonNumber {
    /// A non-negative integer.
    PosInt(u64),
    /// A negative integer.
    NegInt(i64),
    /// A number with a fraction or an exponent.
    Float,
}

/// A JSON value. Object members keep their order; keys are unique.
#[derive(Debug)]
pub enum JsonValue {
    Null,
    Bool(bool),
    Number(JsonNumber),
    String(String),
    Array(Vec<JsonValue>),
    Object(Vec<(String, JsonValue)>),
}

/// The value of the first member named `key`, or `Null` without one.
pub open spec fn member(entries: Seq<(String, JsonValue)>, key: Seq<char>) -> JsonValue
    decreases entries.len(),
{
    if entries.len() == 0 {
        JsonValue::Null
    } else if entries[0].0@ == key {
        entries[0].1
    } else {
        member(entries.drop_first(), key)
    }
}

/// Whether an object has a member named `key`.
pub open spec fn has_member(entries: Seq<(String, JsonValue)>, key: Seq<char>) -> bool {
    exists|i: int| 0 <= i < entries.len() && (#[trigger] entries[i]).0@ == key
}

/// Whether a value is an object with a member named `key`, whatever its value.
pub open spec fn has_field(v: JsonValue, key: Seq<char>) -> bool {
    match v {
        JsonValue::Object(entries) => has_member(entries@, key),
        _ => false,
    }
}

/// The value that indexing by a key gives: the member of an object, `Null`
/// for anything else.
pub open spec fn field(v: JsonValue, key: Seq<char>) -> JsonValue {
    match v {
        JsonValue::Object(entries) => member(entries@, key),
        _ => JsonValue::Null,
    }
}

/// The characters of a string value.
pub open spec fn as_str(v: JsonValue) -> Option<Seq<char>> {
    match v {
        JsonValue::String(s) => Some(s@),
        _ => None,
    }
}

/// The integer of a non-negative integer value.
pub open spec fn as_u64(v: JsonValue) -> Option<u64> {
    match v {
        JsonValue::Number(JsonNumber::PosInt(n)) => Some(n),
        _ => None,
    }
}

/// The truth value of a boolean value.
pub open spec fn as_bool(v: JsonValue) -> Option<bool> {
    match v {
        JsonValue::Bool(b) => Some(b),
        _ => None,
    }
}

/// The elements of an array value.
pub open spec fn as_array(v: JsonValue) -> Option<Seq<JsonValue>> {
    match v {
        JsonValue::Array(items) => Some(items@),
        _ => None,
    }
}

pub open spec fn is_null(v: JsonValue) -> bool {
    v is Null
}

/// The value that indexing an object by a key gives, as a reference;
/// `None` stands for `Null`.
fn member_ref<'a>(entries: &'a Vec<(String, JsonValue)>, key: &str) -> (r: Option<&'a JsonValue>)
    ensures
        match r {
            Some(v) => *v == member(entries@, key@),
            None => member(entries@, key@) is Null,
        },
{
    let mut i: usize = 0;
    proof {
        assert(entries@.skip(0) =~= entries@);
    }
    while i < entries.len()
        invariant
            i <= entries@.len(),
            member(entries@, key@) == member(entries@.skip(i as int), key@),
        decreases entries.len() - i,
    {
        proof {
            assert(entries@.skip(i as int).drop_first() =~= entries@.skip(i + 1));
        }
        if str_eq(entries[i].0.as_str(), key) {
            return Some(&entries[i].1);
        }
        i = i + 1;
    }
    None
}

fn member_exists(entries: &Vec<(String, JsonValue)>, key: &str) -> (r: bool)
    ensures
        r == has_member(entries@, key@),
{
    let mut i: usize = 0;
    while i < entries.len()
        invariant
            i <= entries@.len(),
            forall|k: int| 0 <= k < i ==> (#[trigger] entries@[k]).0@ != key@,
        decreases entries.len() - i,
    {
        if str_eq(entries[i].0.as_str(), key) {
            proof {
                assert((entries@[i as int]).0@ == key@);
            }
            return true;
        }
        i = i + 1;
    }
    false
}

/// The value a possibly missing reference stands for: `Null` when missing.
pub open spec fn value_of(v: Option<&JsonValue>) -> JsonValue {
    match v {
        Some(x) => *x,
        None => JsonValue::Null,
    }
}

/// Indexing a possibly missing value by a key, as chained indexing does.
pub fn at<'a>(v: Option<&'a JsonValue>, key: &str) -> (r: Option<&'a JsonValue>)
    ensures
        value_of(r) == field(value_of(v), key@),
{
    match v {
        Some(x) => x.get(key),
        None => None,
    }
}

/// The characters of a possibly missing string value.
pub fn str_at<'a>(v: Option<&'a JsonValue>) -> (r: Option<&'a str>)
    ensures
        match r {
            Some(s) => as_str(value_of(v)) == Some(s@),
            None => as_str(value_of(v)) is None,
        },
{
    match v {
        Some(x) => x.as_str(),
        None => None,
    }
}

/// The integer of a possibly missing non-negative integer value.
pub fn u64_at(v: Option<&JsonValue>) -> (r: Option<u64>)
    ensures
        r == as_u64(value_of(v)),
{
    match v {
        Some(x) => x.as_u64(),
        None => None,
    }
}

/// The truth value of a possibly missing boolean value.
pub fn bool_at(v: Option<&JsonValue>) -> (r: Option<bool>)
    ensures
        r == as_bool(value_of(v)),
{
    match v {
        Some(x) => x.as_bool(),
        None => None,
    }
}

/// Whether a possibly missing value is `Null`.
pub fn null_at(v: Option<&JsonValue>) -> (r: bool)
    ensures
        r == is_null(value_of(v)),
{
    match v {
        Some(x) => x.is_null(),
        None => true,
    }
}

impl JsonValue {
    /// Whether the value is an object with a member named `key`.
    pub fn has_key(&self, key: &str) -> (r: bool)
        ensures
            r == has_field(*self, key@),
    {
        match self {
            JsonValue::Object(entries) => member_exists(entries, key),
            _ => false,
        }
    }

    /// Indexing by a key: `Some` of the member of an object, `None` where
    /// the index gives `Null`.
    pub fn get(&self, key: &str) -> (r: Option<&JsonValue>)
        ensures
            value_of(r) == field(*self, key@),
    {
        match self {
            JsonValue::Object(entries) => member_ref(entries, key),
            _ => None,
        }
    }

    pub fn as_str(&self) -> (r: Option<&str>)
        ensures
            match r {
                Some(s) => as_str(*self) == Some(s@),
                None => as_str(*self) is None,
            },
    {
        match self {
            JsonValue::String(s) => Some(s.as_str()),
            _ => None,
        }
    }

    pub fn as_u64(&self) -> (r: Option<u64>)
        ensures
            r == as_u64(*self),
    {
        match self {
            JsonValue::Number(JsonNumber::PosInt(n)) => Some(*n),
            _ => None,
        }
    }

    pub fn as_bool(&self) -> (r: Option<bool>)
        ensures
            r == as_bool(*self),
    {
        match self {
            JsonValue::Bool(b) => Some(*b),
            _ => None,
        }
    }

    pub fn as_array(&self) -> (r: Option<&Vec<JsonValue>>)
        ensures
            match r {
                Some(a) => as_array(*self) == Some(a@),
                None => as_array(*self) is None,
            },
    {
        match self {
            JsonValue::Array(items) => Some(items),
            _ => None,
        }
    }

    pub fn is_null(&self) -> (r: bool)
        ensures
            r == is_null(*self),
    {
        matches!(self, JsonValue::Null)
    }
}

} // verus!
