//! A minimal JSON document model over plain values, with key lookup, and the
//! trusted boundary to an outside JSON parser and serializer.
//!
//! Numbers that fit in `i64` are carried as integers; any other number is
//! carried as `OtherNum` and treated as unusable by the wire decoders, which
//! keeps floating point out of the verified logic.

use vstd::prelude::*;

verus! {

/// One JSON value. Objects and arrays are linked lists so that recursive
/// definitions and proofs stay structural.
#[derive(Debug)]
pub enum JsonValue {
    Null,
    Bool(bool),
    Int(i64),
    Str(String),
    Arr(JsonList),
    Obj(JsonObj),
    OtherNum,
}

/// The elements of a JSON array.
#[derive(Debug)]
pub enum JsonList {
    Nil,
    Cons(Box<JsonValue>, Box<JsonList>),
}

/// The entries of a JSON object, in serialization order. A document obtained
/// from the trusted parser has at most one entry per key.
#[derive(Debug)]
pub enum JsonObj {
    Nil,
    Cons(String, Box<JsonValue>, Box<JsonObj>),
}

/// The value under `key` in `o`: the first entry whose key matches, if any.
pub open spec fn obj_lookup(o: JsonObj, key: Seq<char>) -> Option<JsonValue>
    decreases o,
{
    match o {
        JsonObj::Nil => None,
        JsonObj::Cons(k, v, rest) => if k@ == key {
            Some(*v)
        } else {
            obj_lookup(*rest, key)
        },
    }
}

/// Holds when `a` and `b` spell the same characters.
pub fn str_eq_string(a: &String, b: &str) -> (r: bool)
    ensures
        r == (a@ == b@),
{
    let bs: String = b.to_owned();
    *a == bs
}

/// The value under `key` in `o`, resolved as `obj_lookup` describes.
pub fn obj_get<'a>(o: &'a JsonObj, key: &str) -> (r: Option<&'a JsonValue>)
    ensures
        r matches Some(v) ==> obj_lookup(*o, key@) == Some(*v),
        r is None ==> obj_lookup(*o, key@) is None,
    decreases o,
{
    match o {
        JsonObj::Nil => None,
        JsonObj::Cons(k, v, rest) => {
            if str_eq_string(k, key) {
                Some(&**v)
            } else {
                obj_get(&**rest, key)
            }
        },
    }
}

/// Holds when `j` is an object whose values are all scalars: the only shape
/// the trusted serializer is asked to write.
pub open spec fn flat_json_object(j: JsonValue) -> bool {
    j matches JsonValue::Obj(o) && flat_entries(o)
}

/// Holds when every value in `o` is a scalar.
pub open spec fn flat_entries(o: JsonObj) -> bool
    decreases o,
{
    match o {
        JsonObj::Nil => true,
        JsonObj::Cons(_, v, rest) => scalar_json(*v) && flat_entries(*rest),
    }
}

/// Holds for the scalar JSON values.
pub open spec fn scalar_json(v: JsonValue) -> bool {
    v is Null || v is Bool || v is Int || v is Str
}

/// The document that the outside parser reads out of `bytes`, or `None` where
/// the bytes are not a JSON text. The result is a function of the bytes alone.
pub uninterp spec fn json_doc_of(bytes: Seq<u8>) -> Option<JsonValue>;

/// The byte serialization that the outside serializer writes for `doc`. The
/// result is a function of the document alone.
pub uninterp spec fn bytes_of_json(doc: JsonValue) -> Seq<u8>;

#[verifier::external_type_specification]
#[verifier::external_body]
pub struct ExValue(serde_json::Value);

/// Relies on `serde_json::from_slice`: the parsed document is a function of
/// the input bytes alone, and parsing fails exactly where the bytes are not a
/// JSON text. The error message is the parser's own.
#[verifier::external_body]
pub(crate) fn parse_json(bytes: &[u8]) -> (r: Result<JsonValue, String>)
    ensures
        r matches Ok(doc) ==> json_doc_of(bytes@) == Some(doc),
        r is Err <==> json_doc_of(bytes@) is None,
{
    match serde_json::from_slice::<serde_json::Value>(bytes) {
        Ok(v) => Ok(json_of_value(v)),
        Err(e) => Err(format!("{}", e)),
    }
}

/// Relies on `serde_json::Value`: each variant is carried over one for one;
/// numbers outside `i64` become `OtherNum`.
#[verifier::external_body]
fn json_of_value(v: serde_json::Value) -> JsonValue {
    match v {
        serde_json::Value::Null => JsonValue::Null,
        serde_json::Value::Bool(b) => JsonValue::Bool(b),
        serde_json::Value::Number(n) => match n.as_i64() {
            Some(i) => JsonValue::Int(i),
            None => JsonValue::OtherNum,
        },
        serde_json::Value::String(s) => JsonValue::Str(s),
        serde_json::Value::Array(items) => JsonValue::Arr(json_of_array(items)),
        serde_json::Value::Object(m) => JsonValue::Obj(json_of_entries(m.into_iter().collect())),
    }
}

/// Relies on `serde_json::Value`: array elements carried over in order.
#[verifier::external_body]
fn json_of_array(items: Vec<serde_json::Value>) -> JsonList {
    let mut items = items;
    let mut list = JsonList::Nil;
    loop {
        match items.pop() {
            Some(x) => {
                list = JsonList::Cons(Box::new(json_of_value(x)), Box::new(list));
            },
            None => {
                return list;
            },
        }
    }
}

/// Relies on `serde_json::Value`: object entries carried over pairwise.
#[verifier::external_body]
fn json_of_entries(entries: Vec<(String, serde_json::Value)>) -> JsonObj {
    let mut entries = entries;
    let mut obj = JsonObj::Nil;
    loop {
        match entries.pop() {
            Some((k, x)) => {
                obj = JsonObj::Cons(k, Box::new(json_of_value(x)), Box::new(obj));
            },
            None => {
                return obj;
            },
        }
    }
}

/// Relies on `serde_json::to_vec` on a `serde_json::Value`: writing a value
/// whose keys are strings cannot fail, and the output is a deterministic
/// function of the value.
#[verifier::external_body]
pub(crate) fn json_to_bytes(doc: &JsonValue) -> (r: Vec<u8>)
    requires
        flat_json_object(*doc),
    ensures
        r@ == bytes_of_json(*doc),
{
    let mut m = serde_json::Map::new();
    let mut cur: &JsonObj = match doc {
        JsonValue::Obj(o) => o,
        _ => { return Vec::new(); },
    };
    loop {
        match cur {
            JsonObj::Cons(k, v, rest) => { m.insert(k.clone(), scalar_value(v)); cur = rest; },
            JsonObj::Nil => { break; },
        }
    }
    serde_json::to_vec(&serde_json::Value::Object(m)).unwrap_or_default()
}

/// Relies on `serde_json::Value`: scalars carried over one for one.
#[verifier::external_body]
fn scalar_value(v: &JsonValue) -> serde_json::Value {
    match v {
        JsonValue::Bool(b) => serde_json::Value::Bool(*b),
        JsonValue::Int(i) => serde_json::Value::from(*i),
        JsonValue::Str(s) => serde_json::Value::String(s.clone()),
        _ => serde_json::Value::Null,
    }
}

} // verus!
