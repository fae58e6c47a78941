//! The trusted boundary around `serde_json`: the JSON text of a response body
//! is parsed and inspected by the outside crate, and each call is wrapped in a
//! function whose contract relates the outside value to the model of
//! `crate::model`.

use vstd::prelude::*;

use crate::model::JsonSpec;

verus! {

#[verifier::external_type_specification]
#[verifier::external_body]
pub struct ExValue(serde_json::Value);

/// The model of an outside JSON value: the tree of `crate::model::JsonSpec`
/// that it holds.
pub uninterp spec fn value_model(v: serde_json::Value) -> JsonSpec;

/// The model of a JSON text: the value it denotes, or nothing when the text
/// is not a valid JSON document.
pub uninterp spec fn json_doc(s: Seq<char>) -> Option<JsonSpec>;

/// The entries handed out of a JSON object agree with an object model `m`:
/// every entry's key is bound in `m` to the model of the entry's value, every
/// key of `m` appears among the entries, and no key appears twice.
pub open spec fn entries_match(
    es: Seq<(String, serde_json::Value)>,
    m: Map<Seq<char>, JsonSpec>,
) -> bool {
    &&& forall|i: int|
        0 <= i < es.len() ==> m.contains_key((#[trigger] es[i]).0@) && m[es[i].0@] == value_model(
            es[i].1,
        )
    &&& forall|k: Seq<char>| #[trigger]
        m.contains_key(k) ==> exists|i: int| 0 <= i < es.len() && (#[trigger] es[i]).0@ == k
    &&& forall|i: int, j: int| 0 <= i < j < es.len() ==> es[i].0@ != es[j].0@
}

/// Relies on `serde_json::from_str`: it returns `Ok` exactly on the texts
/// that are valid JSON documents, and then returns the value the text
/// denotes.
#[verifier::external_body]
pub(crate) fn parse_json(s: &str) -> (r: Option<serde_json::Value>)
    ensures
        match r {
            Some(v) => json_doc(s@) == Some(value_model(v)),
            None => json_doc(s@) is None,
        },
{
    match serde_json::from_str::<serde_json::Value>(s) {
        Ok(v) => Some(v),
        Err(_) => None,
    }
}

/// Relies on `serde_json::Value::is_null`: true exactly on the null value.
#[verifier::external_body]
pub(crate) fn is_null(v: &serde_json::Value) -> (r: bool)
    ensures
        r == (value_model(*v) is Null),
{
    v.is_null()
}

/// Relies on `serde_json::Value::as_bool`: a boolean value yields its
/// boolean, every other value yields nothing.
#[verifier::external_body]
pub(crate) fn bool_value(v: &serde_json::Value) -> (r: Option<bool>)
    ensures
        r matches Some(b) ==> value_model(*v) == JsonSpec::Bool(b),
        r is None ==> !(value_model(*v) is Bool),
{
    v.as_bool()
}

/// Relies on the `serde_json::Value::String` variant: a string value yields
/// its text, every other value yields nothing.
#[verifier::external_body]
pub(crate) fn str_value(v: &serde_json::Value) -> (r: Option<String>)
    ensures
        r is Some <==> value_model(*v) is Str,
        r matches Some(s) ==> s@ == value_model(*v)->Str_0,
{
    match v {
        serde_json::Value::String(s) => Some(s.clone()),
        _ => None,
    }
}

/// Relies on `serde_json::Value::as_u64`: an integral number representable
/// as `u64` yields that integer, every other value yields nothing.
#[verifier::external_body]
pub(crate) fn u64_value(v: &serde_json::Value) -> (r: Option<u64>)
    ensures
        value_model(*v) matches JsonSpec::Num(n) ==> match r {
            Some(x) => n.int == Some(x as int),
            None => !(n.int matches Some(i) && 0 <= i <= u64::MAX),
        },
        !(value_model(*v) is Num) ==> r is None,
{
    v.as_u64()
}

/// Relies on `serde_json::Value::as_i64`: an integral number representable
/// as `i64` yields that integer, every other value yields nothing.
#[verifier::external_body]
pub(crate) fn i64_value(v: &serde_json::Value) -> (r: Option<i64>)
    ensures
        value_model(*v) matches JsonSpec::Num(n) ==> match r {
            Some(x) => n.int == Some(x as int),
            None => !(n.int matches Some(i) && i64::MIN <= i <= i64::MAX),
        },
        !(value_model(*v) is Num) ==> r is None,
{
    v.as_i64()
}

/// Relies on the `serde_json::Value::Number` variant and on the decimal
/// rendering of `serde_json::Number`: a numeric value yields its decimal
/// text, every other value yields nothing.
#[verifier::external_body]
pub(crate) fn number_text(v: &serde_json::Value) -> (r: Option<String>)
    ensures
        r is Some <==> value_model(*v) is Num,
        r matches Some(s) ==> s@ == value_model(*v)->Num_0.text,
{
    match v {
        serde_json::Value::Number(n) => Some(n.to_string()),
        _ => None,
    }
}

/// Relies on the `serde_json::Value::Object` variant and on iteration over
/// `serde_json::Map`: an object value yields its entries, each key once,
/// every other value yields nothing.
#[verifier::external_body]
pub(crate) fn object_entries(v: &serde_json::Value) -> (r: Option<
    Vec<(String, serde_json::Value)>,
>)
    ensures
        r is Some <==> value_model(*v) is Obj,
        r matches Some(es) ==> entries_match(es@, value_model(*v)->Obj_0),
{
    match v {
        serde_json::Value::Object(map) => {
            let mut out = Vec::new();
            for (k, x) in map.iter() {
                out.push((k.clone(), x.clone()));
            }
            Some(out)
        },
        _ => None,
    }
}

/// Relies on the `serde_json::Value::Array` variant: an array value yields
/// its elements in order, every other value yields nothing.
#[verifier::external_body]
pub(crate) fn array_elems(v: &serde_json::Value) -> (r: Option<Vec<serde_json::Value>>)
    ensures
        r is Some <==> value_model(*v) is Arr,
        r matches Some(es) ==> {
            &&& es@.len() == value_model(*v)->Arr_0.len()
            &&& forall|j: int|
                0 <= j < es@.len() ==> value_model(#[trigger] es@[j]) == value_model(*v)->Arr_0[j]
        },
{
    match v {
        serde_json::Value::Array(a) => Some(a.clone()),
        _ => None,
    }
}

} // verus!
