//! The payload wire format: JSON whose numeric quantities are carried as
//! strings.
//!
//! Parsing of raw JSON text is delegated to serde_json; the tree it returns
//! is converted, one constructor per arm, into the library's own `Json`
//! type, and every shape decision after that point is verified code over
//! that type.

use vstd::prelude::*;

verus! {

/// One key/value pair of a JSON object.
pub struct JsonField {
    pub key: String,
    pub val: Json,
}

/// A JSON value. Numbers keep their raw text: the upstream contract
/// transmits every numeric quantity as a JSON string, so a bare JSON
/// number standing in a numeric field is a shape error, not a value.
pub enum Json {
    Null,
    Bool(bool),
    Num(String),
    Str(String),
    Arr(Vec<Json>),
    Obj(Vec<JsonField>),
}

#[verifier::external_type_specification]
#[verifier::external_body]
pub struct ExValue(serde_json::Value);

/// What parsing a payload body yields: `None` for text that is not
/// well-formed JSON, otherwise the parsed tree.
pub uninterp spec fn json_of(s: Seq<char>) -> Option<Json>;

/// Relies on serde_json::from_str::<serde_json::Value>: the parse is a
/// function of the text alone, and object keys come back sorted (the map
/// behind an object is a B-tree map), so equal texts give equal trees.
#[verifier::external_body]
pub fn parse_json_text(s: &str) -> (r: Option<Json>)
    ensures
        r == json_of(s@),
{
    match serde_json::from_str::<serde_json::Value>(s) {
        Ok(v) => Some(json_from_value(v)),
        Err(_) => None,
    }
}

/// Relies on serde_json::Value: each variant is moved, one arm apiece,
/// into the library's own tree; a number keeps its rendered text.
#[verifier::external_body]
fn json_from_value(v: serde_json::Value) -> Json {
    match v {
        serde_json::Value::Null => Json::Null,
        serde_json::Value::Bool(b) => Json::Bool(b),
        serde_json::Value::Number(n) => Json::Num(n.to_string()),
        serde_json::Value::String(s) => Json::Str(s),
        serde_json::Value::Array(a) => Json::Arr(a.into_iter().map(json_from_value).collect()),
        serde_json::Value::Object(m) => Json::Obj(
            m.into_iter().map(|(k, w)| JsonField { key: k, val: json_from_value(w) }).collect(),
        ),
    }
}

/// The value of the first field named `key`, if any.
pub open spec fn obj_lookup(fs: Seq<JsonField>, key: Seq<char>) -> Option<Json>
    decreases fs.len(),
{
    if fs.len() == 0 {
        None
    } else if fs[0].key@ == key {
        Some(fs[0].val)
    } else {
        obj_lookup(fs.skip(1), key)
    }
}

/// Field lookup on a JSON value: `None` unless the value is an object
/// holding such a field.
pub open spec fn spec_get(j: Json, key: Seq<char>) -> Option<Json> {
    match j {
        Json::Obj(fs) => obj_lookup(fs@, key),
        _ => None,
    }
}

/// When no field among the first `i` is named `key`, the lookup's outcome
/// is decided by the rest of the list.
proof fn lemma_obj_lookup_skip(fs: Seq<JsonField>, key: Seq<char>, i: int)
    requires
        0 <= i <= fs.len(),
        forall|j: int| 0 <= j < i ==> fs[j].key@ != key,
    ensures
        obj_lookup(fs, key) == obj_lookup(fs.skip(i), key),
    decreases i,
{
    if i == 0 {
        assert(fs.skip(0) =~= fs);
    } else {
        lemma_obj_lookup_skip(fs, key, i - 1);
        assert(fs.skip(i - 1)[0] == fs[i - 1]);
        assert(fs.skip(i - 1).skip(1) =~= fs.skip(i));
        assert(obj_lookup(fs.skip(i - 1), key) == obj_lookup(fs.skip(i - 1).skip(1), key));
    }
}

/// Finds the first field named `key` in an object's field list.
pub fn obj_find(fs: &Vec<JsonField>, key: &str) -> (r: Option<usize>)
    ensures
        match r {
            Some(i) => i < fs@.len() && fs@[i as int].key@ == key@ && obj_lookup(fs@, key@)
                == Some(fs@[i as int].val),
            None => obj_lookup(fs@, key@) is None,
        },
{
    let k: String = key.to_owned();
    let n = fs.len();
    let mut i: usize = 0;
    while i < n
        invariant
            0 <= i <= n,
            n == fs@.len(),
            k@ == key@,
            forall|j: int| 0 <= j < i ==> fs@[j].key@ != key@,
        decreases n - i,
    {
        if fs[i].key == k {
            proof {
                lemma_obj_lookup_skip(fs@, key@, i as int);
                assert(fs@.skip(i as int)[0] == fs@[i as int]);
            }
            return Some(i);
        }
        i = i + 1;
    }
    proof {
        lemma_obj_lookup_skip(fs@, key@, n as int);
    }
    None
}

} // verus!
