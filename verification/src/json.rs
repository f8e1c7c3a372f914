//! A JSON tree and the parser boundary.
//!
//! [`Json`] mirrors the shapes a JSON text can take; parsing is delegated to
//! `serde_json` behind [`parse_json`], and everything that reads the parsed
//! tree is verified against [`spec_member`] and its companions.

use vstd::prelude::*;

verus! {

/// A parsed JSON value.
///
/// A number is kept in its textual form, as the parser printed it, so that
/// no precision is lost. An object keeps its fields in the order the parser
/// handed them out.
#[derive(Debug, PartialEq, Eq)]
pub enum Json {
    Null,
    Bool(bool),
    Num(String),
    Str(String),
    Arr(Vec<Json>),
    Obj(Vec<(String, Json)>),
}

/// The first field of `fields` named `key`, if any.
pub open spec fn spec_lookup(fields: Seq<(String, Json)>, key: Seq<char>) -> Option<Json>
    decreases fields.len(),
{
    if fields.len() == 0 {
        None
    } else if fields[0].0@ == key {
        Some(fields[0].1)
    } else {
        spec_lookup(fields.drop_first(), key)
    }
}

/// The member `key` of `j`, if `j` is an object that has it.
pub open spec fn spec_member(j: Json, key: Seq<char>) -> Option<Json> {
    match j {
        Json::Obj(fields) => spec_lookup(fields@, key),
        _ => None,
    }
}

/// The member `key` of `j`, if it is a string.
pub open spec fn spec_str_member(j: Json, key: Seq<char>) -> Option<String> {
    match spec_member(j, key) {
        Some(Json::Str(s)) => Some(s),
        _ => None,
    }
}

/// Finds the first field named `key`.
pub fn lookup<'a>(fields: &'a Vec<(String, Json)>, key: &String) -> (r: Option<&'a Json>)
    ensures
        match r {
            Some(v) => spec_lookup(fields@, key@) == Some(*v),
            None => spec_lookup(fields@, key@) is None,
        },
{
    let n = fields.len();
    let mut i: usize = 0;
    proof {
        assert(fields@.skip(0) =~= fields@);
    }
    while i < n
        invariant
            i <= n,
            n == fields@.len(),
            spec_lookup(fields@, key@) == spec_lookup(fields@.skip(i as int), key@),
        decreases n - i,
    {
        let pair = &fields[i];
        proof {
            assert(fields@.skip(i as int)[0] == fields@[i as int]);
        }
        if pair.0 == *key {
            return Some(&pair.1);
        }
        proof {
            assert(fields@.skip(i as int).drop_first() =~= fields@.skip(i + 1int));
        }
        i = i + 1;
    }
    proof {
        assert(fields@.skip(n as int) =~= Seq::<(String, Json)>::empty());
    }
    None
}

/// Looks a member up in a value that may not be an object.
pub fn member<'a>(j: &'a Json, key: &String) -> (r: Option<&'a Json>)
    ensures
        match r {
            Some(v) => spec_member(*j, key@) == Some(*v),
            None => spec_member(*j, key@) is None,
        },
{
    match j {
        Json::Obj(fields) => lookup(fields, key),
        _ => None,
    }
}

/// Looks a string member up, cloning it out of the tree.
pub fn str_member(j: &Json, key: &String) -> (r: Option<String>)
    ensures
        r == spec_str_member(*j, key@),
{
    match member(j, key) {
        Some(v) => match v {
            Json::Str(s) => Some(s.clone()),
            _ => None,
        },
        None => None,
    }
}

/// Declares `serde_json::Value`, the parser's own tree type, so that
/// [`value_to_json`] can take it; the library never reads into it.
#[verifier::external_type_specification]
#[verifier::external_body]
pub struct ExValue(serde_json::Value);

/// Rebuilds a `serde_json::Value` as a [`Json`], variant for variant;
/// numbers keep the textual form that `serde_json` prints for them.
/// Called only from [`parse_json`].
#[verifier::external_body]
fn value_to_json(v: serde_json::Value) -> Json {
    match v {
        serde_json::Value::Null => Json::Null,
        serde_json::Value::Bool(b) => Json::Bool(b),
        serde_json::Value::Number(n) => Json::Num(n.to_string()),
        serde_json::Value::String(s) => Json::Str(s),
        serde_json::Value::Array(a) => Json::Arr(a.into_iter().map(value_to_json).collect()),
        serde_json::Value::Object(o) => Json::Obj(
            o.into_iter().map(|(k, w)| (k, value_to_json(w))).collect(),
        ),
    }
}

/// The tree that the JSON parser yields for a text, or `None` where the text
/// is not valid JSON. The outcome depends on the text alone.
pub uninterp spec fn json_of(text: Seq<char>) -> Option<Json>;

/// Relies on `serde_json::from_str::<serde_json::Value>`: it parses the text
/// into a JSON tree, or reports why the text is not valid JSON (the message
/// comes from the error's `Display`). The outcome depends on the text alone.
#[verifier::external_body]
pub(crate) fn parse_json(text: &str) -> (r: Result<Json, String>)
    ensures
        r is Ok ==> json_of(text@) == Some(r->Ok_0),
        r is Err ==> json_of(text@) is None,
{
    match serde_json::from_str::<serde_json::Value>(text) {
        Ok(v) => Ok(value_to_json(v)),
        Err(e) => Err(e.to_string()),
    }
}

} // verus!
