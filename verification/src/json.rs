//! A plain model of JSON documents and the lookups the bot performs on
//! them (object fields, strings, booleans and arrays).  Documents arrive
//! already parsed; a missing field or a value of another kind reads as
//! absent, as indexing a JSON value does.
use vstd::prelude::*;
use crate::text::str_eq;

verus! {

/// A JSON value.  Numbers keep their textual form: nothing here computes
/// with them.
#[derive(Debug)]
pub enum JsonValue {
    Null,
    Bool(bool),
    Number(String),
    Str(String),
    Array(Vec<JsonValue>),
    Object(Vec<(String, JsonValue)>),
}

/// The value of the first entry named `key`.
pub open spec fn entry_lookup(entries: Seq<(String, JsonValue)>, key: Seq<char>) -> Option<JsonValue>
    decreases entries.len(),
{
    if entries.len() == 0 {
        None
    } else if entries[0].0@ == key {
        Some(entries[0].1)
    } else {
        entry_lookup(entries.drop_first(), key)
    }
}

pub open spec fn deref_opt(v: Option<&JsonValue>) -> Option<JsonValue> {
    match v {
        Some(x) => Some(*x),
        None => None,
    }
}

/// `v[key]`: the field of an object, absent for anything else.
pub open spec fn field_spec(v: Option<JsonValue>, key: Seq<char>) -> Option<JsonValue> {
    match v {
        Some(JsonValue::Object(es)) => entry_lookup(es@, key),
        _ => None,
    }
}

/// `v[i]`: the element of an array, absent for anything else.
pub open spec fn element_spec(v: Option<JsonValue>, i: int) -> Option<JsonValue> {
    match v {
        Some(JsonValue::Array(a)) => if 0 <= i < a@.len() {
            Some(a@[i])
        } else {
            None
        },
        _ => None,
    }
}

pub open spec fn as_str_spec(v: Option<JsonValue>) -> Option<Seq<char>> {
    match v {
        Some(JsonValue::Str(s)) => Some(s@),
        _ => None,
    }
}

pub open spec fn as_bool_spec(v: Option<JsonValue>) -> Option<bool> {
    match v {
        Some(JsonValue::Bool(b)) => Some(b),
        _ => None,
    }
}

pub open spec fn as_array_spec(v: Option<JsonValue>) -> Option<Seq<JsonValue>> {
    match v {
        Some(JsonValue::Array(a)) => Some(a@),
        _ => None,
    }
}

pub open spec fn is_object_spec(v: Option<JsonValue>) -> bool {
    v matches Some(JsonValue::Object(_))
}

pub open spec fn is_string_spec(v: Option<JsonValue>) -> bool {
    v matches Some(JsonValue::Str(_))
}

/// The text of a string value, or `default` when the value is absent or
/// not a string (`as_str().unwrap_or(default)`).
pub open spec fn str_or(v: Option<JsonValue>, default: Seq<char>) -> Seq<char> {
    match as_str_spec(v) {
        Some(s) => s,
        None => default,
    }
}

/// The first of `a`, `b` that holds a string (`a.as_str().or_else(|| b.as_str())`).
pub open spec fn first_str(a: Option<JsonValue>, b: Option<JsonValue>) -> Option<Seq<char>> {
    match as_str_spec(a) {
        Some(s) => Some(s),
        None => as_str_spec(b),
    }
}

/// The field `key` of `v`.
pub fn field<'a>(v: Option<&'a JsonValue>, key: &str) -> (r: Option<&'a JsonValue>)
    ensures
        deref_opt(r) == field_spec(deref_opt(v), key@),
{
    match v {
        Some(JsonValue::Object(es)) => {
            let mut i: usize = 0;
            assert(es@.skip(0) =~= es@);
            while i < es.len()
                invariant
                    i <= es.len(),
                    deref_opt(v) == Some(JsonValue::Object(*es)),
                    entry_lookup(es@, key@) == entry_lookup(es@.skip(i as int), key@),
                decreases es.len() - i,
            {
                assert(es@.skip(i as int).drop_first() =~= es@.skip(i + 1));
                assert(es@.skip(i as int)[0] == es@[i as int]);
                if str_eq(es[i].0.as_str(), key) {
                    return Some(&es[i].1);
                }
                i = i + 1;
            }
            None
        },
        _ => None,
    }
}

/// The element `i` of `v`.
pub fn element<'a>(v: Option<&'a JsonValue>, i: usize) -> (r: Option<&'a JsonValue>)
    ensures
        deref_opt(r) == element_spec(deref_opt(v), i as int),
{
    match v {
        Some(JsonValue::Array(a)) => if i < a.len() {
            Some(&a[i])
        } else {
            None
        },
        _ => None,
    }
}

/// The text of a string value.
pub fn as_str(v: Option<&JsonValue>) -> (r: Option<String>)
    ensures
        match r {
            Some(s) => as_str_spec(deref_opt(v)) == Some(s@),
            None => as_str_spec(deref_opt(v)) is None,
        },
{
    match v {
        Some(JsonValue::Str(s)) => Some(s.clone()),
        _ => None,
    }
}

/// The value of a boolean.
pub fn as_bool(v: Option<&JsonValue>) -> (r: Option<bool>)
    ensures
        r == as_bool_spec(deref_opt(v)),
{
    match v {
        Some(JsonValue::Bool(b)) => Some(*b),
        _ => None,
    }
}

/// The elements of an array.
pub fn as_array<'a>(v: Option<&'a JsonValue>) -> (r: Option<&'a Vec<JsonValue>>)
    ensures
        match r {
            Some(a) => as_array_spec(deref_opt(v)) == Some(a@),
            None => as_array_spec(deref_opt(v)) is None,
        },
{
    match v {
        Some(JsonValue::Array(a)) => Some(a),
        _ => None,
    }
}

/// Whether the value is an object.
pub fn is_object(v: Option<&JsonValue>) -> (b: bool)
    ensures
        b == is_object_spec(deref_opt(v)),
{
    match v {
        Some(JsonValue::Object(_)) => true,
        _ => false,
    }
}

/// Whether the value is a string.
pub fn is_string(v: Option<&JsonValue>) -> (b: bool)
    ensures
        b == is_string_spec(deref_opt(v)),
{
    match v {
        Some(JsonValue::Str(_)) => true,
        _ => false,
    }
}

} // verus!
