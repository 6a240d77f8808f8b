//! A small JSON value tree and the trusted bridge that produces it from raw
//! text. Everything downstream of [`parse_text`] is verified against the
//! [`Json`] tree alone.

use vstd::prelude::*;

verus! {

/// One JSON value, as the decoder sees it.
///
/// Numbers are kept only as far as the export format needs them: every
/// numeric field of the format is an unsigned integer, so a number that is
/// not one is remembered as [`Json::NumOther`] and rejected wherever a
/// number is required.
#[derive(Debug)]
pub enum Json {
    Null,
    Bool(bool),
    /// A number that is an unsigned 64-bit integer.
    Num(u64),
    /// Any other number (negative, fractional or out of range).
    NumOther,
    Str(String),
    Arr(Vec<Json>),
    /// Fields in the order the bridge delivers them: from parsed text they
    /// arrive sorted by key with duplicates collapsed (the parser's value
    /// tree is an ordered map); a hand-built tree may hold any order.
    /// Lookup takes the first binding of a name.
    Obj(Vec<(String, Json)>),
}

/// The first binding of `name` among the fields of an object, if any.
pub open spec fn spec_obj_get(fs: Seq<(String, Json)>, name: Seq<char>) -> Option<Json>
    decreases fs.len(),
{
    if fs.len() == 0 {
        None
    } else if fs[0].0@ == name {
        Some(fs[0].1)
    } else {
        spec_obj_get(fs.drop_first(), name)
    }
}

/// A field found by [`spec_obj_get`] is a sub-value of the field list, so
/// recursing into it terminates.
pub broadcast proof fn lemma_obj_get_smaller(fs: Seq<(String, Json)>, name: Seq<char>)
    ensures
        (#[trigger] spec_obj_get(fs, name)) is Some ==> decreases_to!(
            fs => spec_obj_get(fs, name).unwrap()),
    decreases fs.len(),
{
    if fs.len() == 0 {
    } else if fs[0].0@ == name {
        assert(decreases_to!(fs => fs[0]));
        assert(decreases_to!(fs[0] => fs[0].1));
    } else {
        lemma_obj_get_smaller(fs.drop_first(), name);
        assert(decreases_to!(fs => fs.drop_first()));
    }
}

/// Exact string comparison against a literal.
pub fn str_eq(a: &String, b: &str) -> (r: bool)
    ensures
        r == (a@ == b@),
{
    let owned: String = b.to_owned();
    a.eq(&owned)
}

/// First binding of `name` among `fs`, by exact string comparison.
pub fn obj_get<'a>(fs: &'a Vec<(String, Json)>, name: &str) -> (r: Option<&'a Json>)
    ensures
        match r {
            Some(j) => spec_obj_get(fs@, name@) == Some(*j),
            None => spec_obj_get(fs@, name@) is None,
        },
{
    let mut i: usize = 0;
    assert(fs@.skip(0) =~= fs@);
    while i < fs.len()
        invariant
            0 <= i <= fs.len(),
            spec_obj_get(fs@, name@) == spec_obj_get(fs@.skip(i as int), name@),
        decreases fs.len() - i,
    {
        assert(fs@.skip(i as int)[0] == fs@[i as int]);
        if str_eq(&fs[i].0, name) {
            return Some(&fs[i].1);
        }
        assert(fs@.skip(i as int).drop_first() =~= fs@.skip(i as int + 1));
        i = i + 1;
    }
    None
}

#[verifier::external_type_specification]
#[verifier::external_body]
pub struct ExValue(serde_json::Value);

/// Relies on the variants of `serde_json::Value`: each one is moved into the
/// library's own value type, field for field; a number becomes [`Json::Num`]
/// exactly when `serde_json::Number::as_u64` reads it as an unsigned 64-bit
/// integer.
#[verifier::external_body]
fn json_of_value(v: serde_json::Value) -> Json {
    match v {
        serde_json::Value::Null => Json::Null,
        serde_json::Value::Bool(b) => Json::Bool(b),
        serde_json::Value::Number(n) => match n.as_u64() {
            Some(u) => Json::Num(u),
            None => Json::NumOther,
        },
        serde_json::Value::String(s) => Json::Str(s),
        serde_json::Value::Array(a) => Json::Arr(a.into_iter().map(json_of_value).collect()),
        serde_json::Value::Object(m) => {
            Json::Obj(m.into_iter().map(|(k, x)| (k, json_of_value(x))).collect())
        },
    }
}

/// What parsing a given text yields: a function of the characters alone.
pub uninterp spec fn json_parse(s: Seq<char>) -> Option<Json>;

/// Relies on `serde_json::from_str::<serde_json::Value>`: it parses the text
/// as one JSON document, deterministically, yielding nothing on text it does
/// not accept; object entries come out of its ordered map sorted by key, a
/// repeated key keeping its last value. The parsed tree is then rewritten
/// into [`Json`] by [`json_of_value`].
#[verifier::external_body]
pub fn parse_text(s: &str) -> (r: Option<Json>)
    ensures
        r == json_parse(s@),
{
    match serde_json::from_str::<serde_json::Value>(s) {
        Ok(v) => Some(json_of_value(v)),
        Err(_) => None,
    }
}

} // verus!
