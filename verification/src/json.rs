//! The library's own model of a decoded JSON document.
//!
//! The upstream weather service answers with JSON. Parsing the raw text is
//! delegated to serde_json; the parsed tree is converted, variant for
//! variant, into [`Json`], a plain-value model that verified code can walk.
//! Numbers keep the decimal text that serde_json renders for them, so the
//! presenter can echo a temperature verbatim without touching floating
//! point.

use vstd::prelude::*;

verus! {

/// A JSON document as plain values: the library's model of what the
/// upstream service answered.
pub enum Json {
    /// The JSON `null` literal.
    Null,
    /// A JSON boolean.
    Bool(bool),
    /// A JSON number, kept as the decimal text serde_json renders for it
    /// (an integer stays `"40"`, a fraction stays `"72.5"`).
    Num(String),
    /// A JSON string.
    Str(String),
    /// A JSON array, in the order the document gives.
    Arr(Vec<Json>),
    /// A JSON object as key/value pairs; keys are unique (the parser
    /// resolves duplicates before the conversion).
    Obj(Vec<(String, Json)>),
}

/// The value under `key` in an object's pair list: the first pair whose
/// key matches, or `None` when no pair does.
pub open spec fn spec_obj_get(pairs: Seq<(String, Json)>, key: Seq<char>) -> Option<Json>
    decreases pairs.len(),
{
    if pairs.len() == 0 {
        None
    } else if pairs[0].0@ == key {
        Some(pairs[0].1)
    } else {
        spec_obj_get(pairs.drop_first(), key)
    }
}

/// Character-for-character equality of two string slices.
pub fn str_eq(a: &str, b: &str) -> (r: bool)
    ensures
        r == (a@ == b@),
{
    let a_len = a.unicode_len();
    let b_len = b.unicode_len();
    if a_len != b_len {
        return false;
    }
    let mut i: usize = 0;
    while i < a_len
        invariant
            a_len == a@.len(),
            b_len == b@.len(),
            a_len == b_len,
            i <= a_len,
            forall|j: int| 0 <= j < i ==> a@[j] == b@[j],
        decreases a_len - i,
    {
        if a.get_char(i) != b.get_char(i) {
            return false;
        }
        i = i + 1;
    }
    proof {
        assert(a@ =~= b@);
    }
    true
}

/// Look `key` up in an object's pair list.
pub fn obj_get<'a>(pairs: &'a Vec<(String, Json)>, key: &str) -> (r: Option<&'a Json>)
    ensures
        match r {
            Some(v) => spec_obj_get(pairs@, key@) == Some(*v),
            None => spec_obj_get(pairs@, key@) is None,
        },
{
    let n = pairs.len();
    let mut i: usize = 0;
    proof {
        assert(pairs@.skip(0) =~= pairs@);
    }
    while i < n
        invariant
            n == pairs@.len(),
            i <= n,
            spec_obj_get(pairs@, key@) == spec_obj_get(pairs@.skip(i as int), key@),
        decreases n - i,
    {
        if str_eq(pairs[i].0.as_str(), key) {
            proof {
                assert(pairs@.skip(i as int)[0] == pairs@[i as int]);
            }
            return Some(&pairs[i].1);
        }
        proof {
            assert(pairs@.skip(i as int).drop_first() =~= pairs@.skip(i as int + 1));
        }
        i = i + 1;
    }
    proof {
        assert(pairs@.skip(n as int).len() == 0);
    }
    None
}

/// Relies on serde_json::Value, the parsed form of a JSON text: declared
/// here so the conversion below can take it; verified code never looks
/// inside one.
#[verifier::external_type_specification]
#[verifier::external_body]
pub struct ExValue(serde_json::Value);

/// Relies on serde_json::Value: tells the parsed tree's variants apart,
/// one arm each, and moves their contents into the library's own model;
/// a number becomes the decimal text serde_json renders for it. Serves
/// only `parse_json` below, which is where the conversion is trusted.
#[verifier::external_body]
fn json_of_value(v: &serde_json::Value) -> Json {
    match v {
        serde_json::Value::Null => Json::Null,
        serde_json::Value::Bool(b) => Json::Bool(*b),
        serde_json::Value::Number(n) => Json::Num(n.to_string()),
        serde_json::Value::String(s) => Json::Str(s.clone()),
        serde_json::Value::Array(a) => Json::Arr(a.iter().map(json_of_value).collect()),
        serde_json::Value::Object(m) => Json::Obj(
            m.iter().map(|(k, x)| (k.clone(), json_of_value(x))).collect(),
        ),
    }
}

/// The tree that a text parses to, or `None` when it is not JSON.
pub uninterp spec fn spec_parse_json(s: Seq<char>) -> Option<Json>;

/// Relies on serde_json::from_str::<serde_json::Value>: whether a text is
/// JSON, and what tree it parses to, depend on the text alone; a malformed
/// text is an error, never a panic.
#[verifier::external_body]
pub(crate) fn parse_json(s: &str) -> (r: Option<Json>)
    ensures
        r == spec_parse_json(s@),
{
    match serde_json::from_str::<serde_json::Value>(s) {
        Ok(v) => Some(json_of_value(&v)),
        Err(_) => None,
    }
}

} // verus!
