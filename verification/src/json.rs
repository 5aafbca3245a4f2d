use vstd::prelude::*;
use vstd::string::StringExecFns;
use crate::errors::DecodeError;
use crate::num::{dec_of_i64, i64_to_decimal};

verus! {

/// The crate's own model of a decoded JSON value.
///
/// A number that is an integer in `i64` range is held as `Int`; any other
/// number keeps its exact decimal text as `Num`, so that a value such as
/// `0.00010000` is never rounded through a binary float.  An object is an
/// ordered list of key/value entries; lookups take the first entry with a
/// matching key.
#[derive(Debug)]
pub enum Json {
    Null,
    Bool(bool),
    Int(i64),
    Num(String),
    Str(String),
    Arr(Vec<Json>),
    Obj(Vec<(String, Json)>),
}

/// The first entry of `es` whose key reads `k`, if any.
pub open spec fn lookup_spec(es: Seq<(String, Json)>, k: Seq<char>) -> Option<Json>
    decreases es.len(),
{
    if es.len() == 0 {
        None
    } else if es[0].0@ == k {
        Some(es[0].1)
    } else {
        lookup_spec(es.skip(1), k)
    }
}

/// The field `k` of `j`, when `j` is an object that has it.
pub open spec fn get_spec(j: Json, k: Seq<char>) -> Option<Json> {
    match j {
        Json::Obj(es) => lookup_spec(es@, k),
        _ => None,
    }
}

/// The entries of an object, or the empty sequence for any other value.
pub open spec fn obj_entries(j: Json) -> Seq<(String, Json)> {
    match j {
        Json::Obj(es) => es@,
        _ => Seq::empty(),
    }
}

/// The field `k` of `j`, defaulting to `Null`; meaningful only when
/// `get_spec(j, k)` is known to be `Some`.
pub open spec fn field_of(j: Json, k: Seq<char>) -> Json {
    match get_spec(j, k) {
        Some(v) => v,
        None => Json::Null,
    }
}

pub open spec fn got_str(j: Json, k: Seq<char>) -> bool {
    match get_spec(j, k) {
        Some(Json::Str(_)) => true,
        _ => false,
    }
}

pub open spec fn str_of(j: Json, k: Seq<char>) -> Seq<char> {
    match get_spec(j, k) {
        Some(Json::Str(s)) => s@,
        _ => Seq::empty(),
    }
}

pub open spec fn got_i64(j: Json, k: Seq<char>) -> bool {
    match get_spec(j, k) {
        Some(Json::Int(_)) => true,
        _ => false,
    }
}

pub open spec fn i64_of(j: Json, k: Seq<char>) -> int {
    match get_spec(j, k) {
        Some(Json::Int(i)) => i as int,
        _ => 0,
    }
}

pub open spec fn got_u64(j: Json, k: Seq<char>) -> bool {
    match get_spec(j, k) {
        Some(Json::Int(i)) => i >= 0,
        _ => false,
    }
}

pub open spec fn got_bool(j: Json, k: Seq<char>) -> bool {
    match get_spec(j, k) {
        Some(Json::Bool(_)) => true,
        _ => false,
    }
}

pub open spec fn bool_of(j: Json, k: Seq<char>) -> bool {
    match get_spec(j, k) {
        Some(Json::Bool(b)) => b,
        _ => false,
    }
}

/// A field that carries a number: either an in-range integer or exact
/// decimal text.
pub open spec fn got_numtext(j: Json, k: Seq<char>) -> bool {
    match get_spec(j, k) {
        Some(Json::Int(_)) => true,
        Some(Json::Num(_)) => true,
        _ => false,
    }
}

/// The exact decimal text of a numeric field.
pub open spec fn numtext_of(j: Json, k: Seq<char>) -> Seq<char> {
    match get_spec(j, k) {
        Some(Json::Int(i)) => dec_of_i64(i as int),
        Some(Json::Num(s)) => s@,
        _ => Seq::empty(),
    }
}

/// An optional string field: absent, `null`, or a string.
pub open spec fn got_opt_str(j: Json, k: Seq<char>) -> bool {
    match get_spec(j, k) {
        None => true,
        Some(Json::Null) => true,
        Some(Json::Str(_)) => true,
        _ => false,
    }
}

pub open spec fn opt_str_of(j: Json, k: Seq<char>) -> Option<Seq<char>> {
    match get_spec(j, k) {
        Some(Json::Str(s)) => Some(s@),
        _ => None,
    }
}

pub open spec fn got_arr(j: Json, k: Seq<char>) -> bool {
    match get_spec(j, k) {
        Some(Json::Arr(_)) => true,
        _ => false,
    }
}

pub open spec fn arr_of(j: Json, k: Seq<char>) -> Seq<Json> {
    match get_spec(j, k) {
        Some(Json::Arr(a)) => a@,
        _ => Seq::empty(),
    }
}

/// The text of a string element; meaningful only for `Json::Str`.
pub open spec fn str_elem(e: Json) -> Seq<char> {
    match e {
        Json::Str(s) => s@,
        _ => Seq::empty(),
    }
}

pub open spec fn got_str_arr(j: Json, k: Seq<char>) -> bool {
    &&& got_arr(j, k)
    &&& forall|i: int| 0 <= i < arr_of(j, k).len() ==> (#[trigger] arr_of(j, k)[i]) matches Json::Str(_)
}

pub open spec fn str_arr_of(j: Json, k: Seq<char>) -> Seq<Seq<char>> {
    Seq::new(arr_of(j, k).len(), |i: int| str_elem(arr_of(j, k)[i]))
}

/// Looks a key up in an object, returning the first entry with that key.
pub fn json_get<'a>(j: &'a Json, k: &str) -> (r: Option<&'a Json>)
    ensures
        match get_spec(*j, k@) {
            Some(v) => r matches Some(rv) && *rv == v,
            None => r is None,
        },
{
    match j {
        Json::Obj(es) => {
            let needle = String::from_str(k);
            let mut i: usize = 0;
            assert(es@.skip(0) =~= es@);
            while i < es.len()
                invariant
                    i <= es.len(),
                    needle@ == k@,
                    get_spec(*j, k@) == lookup_spec(es@, k@),
                    lookup_spec(es@, k@) == lookup_spec(es@.skip(i as int), k@),
                decreases es.len() - i,
            {
                assert(es@.skip(i as int)[0] == es@[i as int]);
                if es[i].0 == needle {
                    assert(lookup_spec(es@.skip(i as int), k@) == Some(es@[i as int].1));
                    return Some(&es[i].1);
                }
                assert(es@.skip(i as int).skip(1) =~= es@.skip(i as int + 1));
                i += 1;
            }
            assert(es@.skip(i as int) =~= Seq::<(String, Json)>::empty());
            None
        },
        _ => None,
    }
}

/// Decodes a required string field.
pub fn want_str(j: &Json, k: &str) -> (r: Result<String, DecodeError>)
    ensures
        r is Ok <==> got_str(*j, k@),
        r matches Ok(s) ==> s@ == str_of(*j, k@),
{
    match json_get(j, k) {
        Some(v) => match v {
            Json::Str(s) => Ok(s.clone()),
            _ => Err(DecodeError::new(k, "a string")),
        },
        None => Err(DecodeError::new(k, "a string")),
    }
}

/// Decodes a required integer field.
pub fn want_i64(j: &Json, k: &str) -> (r: Result<i64, DecodeError>)
    ensures
        r is Ok <==> got_i64(*j, k@),
        r matches Ok(n) ==> n as int == i64_of(*j, k@),
{
    match json_get(j, k) {
        Some(v) => match v {
            Json::Int(n) => Ok(*n),
            _ => Err(DecodeError::new(k, "an integer")),
        },
        None => Err(DecodeError::new(k, "an integer")),
    }
}

/// Decodes a required non-negative integer field.
pub fn want_u64(j: &Json, k: &str) -> (r: Result<u64, DecodeError>)
    ensures
        r is Ok <==> got_u64(*j, k@),
        r matches Ok(n) ==> n as int == i64_of(*j, k@),
{
    match json_get(j, k) {
        Some(v) => match v {
            Json::Int(n) => {
                if *n >= 0 {
                    Ok(*n as u64)
                } else {
                    Err(DecodeError::new(k, "a non-negative integer"))
                }
            },
            _ => Err(DecodeError::new(k, "a non-negative integer")),
        },
        None => Err(DecodeError::new(k, "a non-negative integer")),
    }
}

/// Decodes a required boolean field.
pub fn want_bool(j: &Json, k: &str) -> (r: Result<bool, DecodeError>)
    ensures
        r is Ok <==> got_bool(*j, k@),
        r matches Ok(b) ==> b == bool_of(*j, k@),
{
    match json_get(j, k) {
        Some(v) => match v {
            Json::Bool(b) => Ok(*b),
            _ => Err(DecodeError::new(k, "a boolean")),
        },
        None => Err(DecodeError::new(k, "a boolean")),
    }
}

/// Decodes a required numeric field into its exact decimal text.
pub fn want_numtext(j: &Json, k: &str) -> (r: Result<String, DecodeError>)
    ensures
        r is Ok <==> got_numtext(*j, k@),
        r matches Ok(s) ==> s@ == numtext_of(*j, k@),
{
    match json_get(j, k) {
        Some(v) => match v {
            Json::Int(n) => Ok(i64_to_decimal(*n)),
            Json::Num(s) => Ok(s.clone()),
            _ => Err(DecodeError::new(k, "a number")),
        },
        None => Err(DecodeError::new(k, "a number")),
    }
}

/// Decodes an optional string field: absent or `null` is `None`.
pub fn want_opt_str(j: &Json, k: &str) -> (r: Result<Option<String>, DecodeError>)
    ensures
        r is Ok <==> got_opt_str(*j, k@),
        r matches Ok(o) ==> o.deep_view() == opt_str_of(*j, k@),
{
    match json_get(j, k) {
        Some(v) => match v {
            Json::Null => Ok(None),
            Json::Str(s) => Ok(Some(s.clone())),
            _ => Err(DecodeError::new(k, "a string or null")),
        },
        None => Ok(None),
    }
}

/// Borrows a required array field.
pub fn want_arr<'a>(j: &'a Json, k: &str) -> (r: Result<&'a Vec<Json>, DecodeError>)
    ensures
        r is Ok <==> got_arr(*j, k@),
        r matches Ok(a) ==> a@ == arr_of(*j, k@),
{
    match json_get(j, k) {
        Some(v) => match v {
            Json::Arr(a) => Ok(a),
            _ => Err(DecodeError::new(k, "an array")),
        },
        None => Err(DecodeError::new(k, "an array")),
    }
}

/// Decodes a required array-of-strings field, keeping the order.
pub fn want_str_arr(j: &Json, k: &str) -> (r: Result<Vec<String>, DecodeError>)
    ensures
        r is Ok <==> got_str_arr(*j, k@),
        r matches Ok(v) ==> v.deep_view() == str_arr_of(*j, k@),
{
    let a = match want_arr(j, k) {
        Ok(a) => a,
        Err(e) => {
            return Err(e);
        },
    };
    let mut out: Vec<String> = Vec::new();
    let mut i: usize = 0;
    while i < a.len()
        invariant
            i <= a.len(),
            a@ == arr_of(*j, k@),
            out@.len() == i,
            forall|q: int|
                0 <= q < i ==> (a@[q] matches Json::Str(_)) && out@[q]@ == str_elem(a@[q]),
        decreases a.len() - i,
    {
        match &a[i] {
            Json::Str(s) => out.push(s.clone()),
            _ => {
                return Err(DecodeError::new(k, "an array of strings"));
            },
        }
        i += 1;
    }
    assert(out.deep_view() =~= str_arr_of(*j, k@));
    Ok(out)
}

/// What `serde_json` parses a JSON text into, in this crate's model;
/// `None` when the text is not valid JSON.
pub uninterp spec fn json_of(s: Seq<char>) -> Option<Json>;

#[verifier::external_type_specification]
#[verifier::external_body]
pub struct ExValue(serde_json::Value);

/// Relies on `serde_json::Value`: rebuilds a parsed tree in this crate's own
/// model, variant by variant.  A number that is an in-range integer becomes
/// `Json::Int`; any other number keeps its exact token text, which
/// `serde_json`'s `arbitrary_precision` representation holds verbatim.
#[verifier::external_body]
fn value_to_json(v: serde_json::Value) -> Json {
    match v {
        serde_json::Value::Null => Json::Null,
        serde_json::Value::Bool(b) => Json::Bool(b),
        serde_json::Value::Number(n) => match n.as_i64() {
            Some(i) => Json::Int(i),
            None => Json::Num(n.to_string()),
        },
        serde_json::Value::String(s) => Json::Str(s),
        serde_json::Value::Array(a) => Json::Arr(a.into_iter().map(value_to_json).collect()),
        serde_json::Value::Object(o) => {
            Json::Obj(o.into_iter().map(|(k, w)| (k, value_to_json(w))).collect())
        },
    }
}

/// Relies on `serde_json::from_str`: parses a JSON text.  The parse is
/// deterministic, so its outcome is a function of the text alone.
#[verifier::external_body]
fn parse_json(s: &str) -> (r: Option<Json>)
    ensures
        r == json_of(s@),
{
    serde_json::from_str::<serde_json::Value>(s).ok().map(value_to_json)
}

/// Parses a response payload's text into the crate's JSON model.
pub fn parse_payload(body: &str) -> (r: Result<Json, DecodeError>)
    ensures
        match json_of(body@) {
            Some(j) => r matches Ok(rj) && rj == j,
            None => r is Err,
        },
{
    match parse_json(body) {
        Some(j) => Ok(j),
        None => Err(DecodeError::new("", "a JSON payload")),
    }
}

} // verus!
