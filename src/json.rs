//! A plain model of JSON values, and how text becomes one.
use vstd::prelude::*;

verus! {

#[verifier::external_type_specification]
#[verifier::external_body]
pub struct ExValue(serde_json::Value);

#[verifier::external_type_specification]
#[verifier::external_body]
pub struct ExJsonError(serde_json::Error);

pub assume_specification[ serde_json::Value::is_null ](v: &serde_json::Value) -> bool;

pub assume_specification[ serde_json::Value::as_bool ](v: &serde_json::Value) -> Option<bool>;

pub assume_specification<'a>[ serde_json::Value::as_str ](v: &'a serde_json::Value) -> Option<
    &'a str,
>;

pub assume_specification<'a>[ serde_json::Value::as_array ](v: &'a serde_json::Value) -> Option<
    &'a Vec<serde_json::Value>,
>;

/// A JSON value. A number is kept as the literal that wrote it; an object
/// keeps its members in order, with each key once.
#[derive(Debug, PartialEq)]
pub enum Json {
    Null,
    Bool(bool),
    Number(String),
    Str(String),
    Array(Vec<Json>),
    Object(Vec<(String, Json)>),
}

/// Index of the first member named `key`, or the number of members.
pub open spec fn key_index(members: Seq<(String, Json)>, key: Seq<char>) -> int
    decreases members.len(),
{
    if members.len() == 0 || members[0].0@ == key {
        0
    } else {
        1 + key_index(members.skip(1), key)
    }
}

/// The member of an object named `key`; `None` when `j` is no object or
/// has no such member.
pub open spec fn member(j: Json, key: Seq<char>) -> Option<Json> {
    match j {
        Json::Object(members) => {
            let i = key_index(members@, key);
            if i < members@.len() {
                Some(members@[i].1)
            } else {
                None
            }
        },
        _ => None,
    }
}

pub proof fn lemma_key_index(members: Seq<(String, Json)>, key: Seq<char>, i: int)
    requires
        0 <= i <= members.len(),
        forall|j: int| 0 <= j < i ==> (#[trigger] members[j]).0@ != key,
        i == members.len() || members[i].0@ == key,
    ensures
        key_index(members, key) == i,
    decreases i,
{
    if i > 0 {
        assert(members[0].0@ != key);
        lemma_key_index(members.skip(1), key, i - 1);
    }
}

/// The member of `j` named `key`.
pub fn get_member<'a>(j: &'a Json, key: &str) -> (r: Option<&'a Json>)
    ensures
        r matches Some(v) ==> member(*j, key@) == Some(*v),
        r is None ==> member(*j, key@) is None,
{
    match j {
        Json::Object(members) => {
            let k = String::from_str(key);
            let mut i: usize = 0;
            while i < members.len()
                invariant
                    i <= members@.len(),
                    k@ == key@,
                    *j == Json::Object(*members),
                    forall|x: int| 0 <= x < i ==> (#[trigger] members@[x]).0@ != key@,
                decreases members.len() - i,
            {
                if members[i].0 == k {
                    assert(members@[i as int].0@ == key@);
                    proof {
                        lemma_key_index(members@, key@, i as int);
                    }
                    return Some(&members[i].1);
                }
                i = i + 1;
            }
            proof {
                lemma_key_index(members@, key@, i as int);
            }
            None
        },
        _ => None,
    }
}

/// Whether serde_json reads `text` as JSON.
pub uninterp spec fn accepts_json(text: Seq<char>) -> bool;

/// Relies on serde_json::Value::as_number and Number::as_str: with
/// arbitrary precision, the literal of a number as it was written (an
/// exponent gets an explicit sign).
#[verifier::external_body]
fn number_literal(v: &serde_json::Value) -> (r: Option<String>) {
    v.as_number().map(|n| n.as_str().to_string())
}

/// Relies on serde_json::Value::as_object: the members of an object, copied
/// out in the map's order.
#[verifier::external_body]
fn object_members(v: &serde_json::Value) -> (r: Option<Vec<(String, serde_json::Value)>>) {
    v.as_object().map(|m| m.iter().map(|(k, x)| (k.clone(), x.clone())).collect())
}

/// The model of a parsed value, down to `depth` levels of nesting. Below
/// that depth, and for a value of no known kind, it gives `Null`; neither
/// occurs for a value that serde_json parsed, whose nesting stops at 128.
pub fn json_from_value(v: &serde_json::Value, depth: u32) -> (r: Json)
    decreases depth,
{
    if v.is_null() {
        return Json::Null;
    }
    if let Some(b) = v.as_bool() {
        return Json::Bool(b);
    }
    if let Some(n) = number_literal(v) {
        return Json::Number(n);
    }
    if let Some(s) = v.as_str() {
        return Json::Str(String::from_str(s));
    }
    if depth == 0 {
        return Json::Null;
    }
    if let Some(items) = v.as_array() {
        let mut out: Vec<Json> = Vec::new();
        let mut i: usize = 0;
        while i < items.len()
            invariant
                i <= items@.len(),
                depth > 0,
            decreases items.len() - i,
        {
            out.push(json_from_value(&items[i], depth - 1));
            i = i + 1;
        }
        return Json::Array(out);
    }
    if let Some(members) = object_members(v) {
        let mut out: Vec<(String, Json)> = Vec::new();
        let mut i: usize = 0;
        while i < members.len()
            invariant
                i <= members@.len(),
                depth > 0,
            decreases members.len() - i,
        {
            out.push((members[i].0.clone(), json_from_value(&members[i].1, depth - 1)));
            i = i + 1;
        }
        return Json::Object(out);
    }
    Json::Null
}

/// Nesting that the model follows; serde_json itself refuses text nested
/// deeper than 128 levels.
pub const MAX_DEPTH: u32 = 256;

/// The model of the value that serde_json reads from `text`.
pub uninterp spec fn json_of(text: Seq<char>) -> Json;

/// Relies on serde_json::from_str into a `Value`: it fails exactly on text
/// that is not JSON, and what it reads depends on the text alone.
#[verifier::external_body]
fn parse_text(text: &str) -> (r: Option<Json>)
    ensures
        r is Some <==> accepts_json(text@),
        r matches Some(j) ==> j == json_of(text@),
{
    serde_json::from_str::<serde_json::Value>(text).ok().map(|v| json_from_value(&v, MAX_DEPTH))
}

/// Reads JSON text into the model; `None` exactly when it is not JSON.
pub fn parse_json(text: &str) -> (r: Option<Json>)
    ensures
        r is Some <==> accepts_json(text@),
        r matches Some(j) ==> j == json_of(text@),
{
    parse_text(text)
}

} // verus!
