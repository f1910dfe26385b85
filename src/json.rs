//! A plain model of a JSON document, read with serde_json, and lookups on it.

use vstd::prelude::*;

verus! {

/// A JSON value. A number keeps the text serde_json writes for it.
pub enum Json {
    Null,
    Bool(bool),
    Number(String),
    Str(String),
    Array(Vec<Json>),
    Object(Vec<(String, Json)>),
}

#[verifier::external_type_specification]
#[verifier::external_body]
pub struct ExValue(serde_json::Value);

/// What serde_json reads from `text`: the document, or `None` when the text
/// is not one JSON value (surrounding JSON whitespace allowed).
pub uninterp spec fn parsed_json(text: Seq<char>) -> Option<Json>;

/// Relies on serde_json::from_str::<serde_json::Value>: the document depends
/// on the text alone.
#[verifier::external_body]
pub(crate) fn parse_json(text: &str) -> (r: Option<Json>)
    ensures
        r == parsed_json(text@),
{
    match serde_json::from_str::<serde_json::Value>(text) {
        Ok(v) => Some(json_from_value(v)),
        Err(_) => None,
    }
}

/// Relies on serde_json::Value's variants and on serde_json::Number's
/// `Display`: moves each variant into the matching `Json` variant.
#[verifier::external_body]
fn json_from_value(v: serde_json::Value) -> Json {
    match v {
        serde_json::Value::Null => Json::Null,
        serde_json::Value::Bool(b) => Json::Bool(b),
        serde_json::Value::Number(n) => Json::Number(n.to_string()),
        serde_json::Value::String(s) => Json::Str(s),
        serde_json::Value::Array(a) => Json::Array(a.into_iter().map(json_from_value).collect()),
        serde_json::Value::Object(m) => Json::Object(
            m.into_iter().map(|(k, x)| (k, json_from_value(x))).collect(),
        ),
    }
}

/// The value under the first key, from index `i` on, that equals `key`.
pub open spec fn field_from(fs: Seq<(String, Json)>, key: Seq<char>, i: int) -> Option<Json>
    decreases fs.len() - i,
{
    if i < 0 || i >= fs.len() {
        None
    } else if fs[i].0@ == key {
        Some(fs[i].1)
    } else {
        field_from(fs, key, i + 1)
    }
}

/// The member `key` of an object; `None` for a missing member or a value that
/// is not an object.
pub open spec fn field(j: Json, key: Seq<char>) -> Option<Json> {
    match j {
        Json::Object(fs) => field_from(fs@, key, 0),
        _ => None,
    }
}

/// The member `key` of a value that may be absent.
pub open spec fn member(j: Option<Json>, key: Seq<char>) -> Option<Json> {
    match j {
        Some(v) => field(v, key),
        None => None,
    }
}

/// The element `i` of an array that may be absent.
pub open spec fn element(j: Option<Json>, i: int) -> Option<Json> {
    match j {
        Some(Json::Array(a)) => if 0 <= i < a@.len() {
            Some(a@[i])
        } else {
            None
        },
        _ => None,
    }
}

/// The text of a string value.
pub open spec fn text_value(j: Option<Json>) -> Option<Seq<char>> {
    match j {
        Some(Json::Str(s)) => Some(s@),
        _ => None,
    }
}

/// Whether two values, each possibly absent, are equal scalars; an absent
/// value counts as null. Arrays and objects are never equal here.
pub open spec fn same_scalar(a: Option<Json>, b: Option<Json>) -> bool {
    let x = match a {
        Some(v) => v,
        None => Json::Null,
    };
    let y = match b {
        Some(v) => v,
        None => Json::Null,
    };
    match (x, y) {
        (Json::Null, Json::Null) => true,
        (Json::Bool(p), Json::Bool(q)) => p == q,
        (Json::Number(p), Json::Number(q)) => p@ == q@,
        (Json::Str(p), Json::Str(q)) => p@ == q@,
        _ => false,
    }
}

/// The value a reference that may be absent points to.
pub open spec fn deref_opt(o: Option<&Json>) -> Option<Json> {
    match o {
        Some(x) => Some(*x),
        None => None,
    }
}

/// The text of a string value, if `j` is one.
pub fn get_text(j: Option<&Json>) -> (r: Option<String>)
    ensures
        match r {
            Some(t) => text_value(deref_opt(j)) == Some(t@),
            None => text_value(deref_opt(j)) is None,
        },
{
    match j {
        Some(Json::Str(s)) => Some(s.clone()),
        _ => None,
    }
}

/// The member `key` of `j`, if `j` is an object that has it.
pub fn get_field<'a>(j: Option<&'a Json>, key: &str) -> (r: Option<&'a Json>)
    ensures
        deref_opt(r) == member(deref_opt(j), key@),
{
    match j {
        Some(Json::Object(fs)) => {
            assert(field(*j->0, key@) == field_from(fs@, key@, 0));
            let mut i: usize = 0;
            while i < fs.len()
                invariant
                    i <= fs@.len(),
                    j is Some,
                    field(*j->0, key@) == field_from(fs@, key@, i as int),
                decreases fs@.len() - i,
            {
                let entry = &fs[i];
                if crate::text::same_text(&entry.0, key) {
                    let found = &entry.1;
                    assert(field_from(fs@, key@, i as int) == Some(*found));
                    return Some(found);
                }
                i = i + 1;
            }
            None
        },
        _ => None,
    }
}

/// The element `i` of `j`, if `j` is an array that long.
pub fn get_element<'a>(j: Option<&'a Json>, i: usize) -> (r: Option<&'a Json>)
    ensures
        deref_opt(r) == element(deref_opt(j), i as int),
{
    match j {
        Some(Json::Array(a)) => if i < a.len() {
            Some(&a[i])
        } else {
            None
        },
        _ => None,
    }
}

/// Whether `a` and `b` (absent counting as null) are equal scalars.
pub fn same_scalar_exec(a: Option<&Json>, b: Option<&Json>) -> (r: bool)
    ensures
        r == same_scalar(deref_opt(a), deref_opt(b)),
{
    let null = Json::Null;
    let x = match a {
        Some(v) => v,
        None => &null,
    };
    let y = match b {
        Some(v) => v,
        None => &null,
    };
    match (x, y) {
        (Json::Null, Json::Null) => true,
        (Json::Bool(p), Json::Bool(q)) => *p == *q,
        (Json::Number(p), Json::Number(q)) => p.eq(q),
        (Json::Str(p), Json::Str(q)) => p.eq(q),
        _ => false,
    }
}

} // verus!
