//! A mathematical model of a decoded JSON document, and the field-extraction
//! functions the decoding contracts are stated over.
//!
//! A document is modelled as a tree: an object is a map from key text to
//! subtrees, an array is a sequence of subtrees, and a number carries both its
//! integral value (when it has one) and its decimal rendering.

use vstd::prelude::*;

verus! {

/// The model of a JSON number: its value as a mathematical integer when the
/// number is integral (absent for fractional or non-representable numbers),
/// and its decimal text rendering.
pub struct NumModel {
    pub int: Option<int>,
    pub text: Seq<char>,
}

/// The model of a JSON value.
pub enum JsonSpec {
    Null,
    Bool(bool),
    Num(NumModel),
    Str(Seq<char>),
    Arr(Seq<JsonSpec>),
    Obj(Map<Seq<char>, JsonSpec>),
}

/// A key is present in an object when it is bound to a value other than null;
/// a key bound to null is treated exactly like an absent key.
pub open spec fn present(m: Map<Seq<char>, JsonSpec>, k: Seq<char>) -> bool {
    m.contains_key(k) && !(m[k] is Null)
}

/// An optional string field is well-typed: absent, null, or a string.
pub open spec fn str_ok(m: Map<Seq<char>, JsonSpec>, k: Seq<char>) -> bool {
    !present(m, k) || m[k] is Str
}

/// The decoded value of an optional string field.
pub open spec fn str_of(m: Map<Seq<char>, JsonSpec>, k: Seq<char>) -> Option<Seq<char>> {
    if present(m, k) && m[k] is Str {
        Some(m[k]->Str_0)
    } else {
        None
    }
}

/// An optional boolean field is well-typed: absent, null, or a boolean.
pub open spec fn bool_ok(m: Map<Seq<char>, JsonSpec>, k: Seq<char>) -> bool {
    !present(m, k) || m[k] is Bool
}

/// The decoded value of an optional boolean field.
pub open spec fn bool_of(m: Map<Seq<char>, JsonSpec>, k: Seq<char>) -> Option<bool> {
    if present(m, k) && m[k] is Bool {
        Some(m[k]->Bool_0)
    } else {
        None
    }
}

/// An optional unsigned 32-bit field is well-typed: absent, null, or an
/// integral number within the range of `u32`.
pub open spec fn u32_ok(m: Map<Seq<char>, JsonSpec>, k: Seq<char>) -> bool {
    !present(m, k) || (m[k] matches JsonSpec::Num(n) && n.int matches Some(i) && 0 <= i
        <= u32::MAX)
}

/// The decoded value of an optional unsigned 32-bit field.
pub open spec fn u32_of(m: Map<Seq<char>, JsonSpec>, k: Seq<char>) -> Option<u32> {
    if present(m, k) && (m[k] matches JsonSpec::Num(n) && n.int matches Some(i) && 0 <= i
        <= u32::MAX) {
        Some(m[k]->Num_0.int->0 as u32)
    } else {
        None
    }
}

/// An optional signed 64-bit field is well-typed: absent, null, or an
/// integral number within the range of `i64`.
pub open spec fn i64_ok(m: Map<Seq<char>, JsonSpec>, k: Seq<char>) -> bool {
    !present(m, k) || (m[k] matches JsonSpec::Num(n) && n.int matches Some(i) && i64::MIN <= i
        <= i64::MAX)
}

/// The decoded value of an optional signed 64-bit field.
pub open spec fn i64_of(m: Map<Seq<char>, JsonSpec>, k: Seq<char>) -> Option<i64> {
    if present(m, k) && (m[k] matches JsonSpec::Num(n) && n.int matches Some(i) && i64::MIN <= i
        <= i64::MAX) {
        Some(m[k]->Num_0.int->0 as i64)
    } else {
        None
    }
}

/// An optional numeric field kept as text is well-typed: absent, null, or any
/// number.
pub open spec fn num_text_ok(m: Map<Seq<char>, JsonSpec>, k: Seq<char>) -> bool {
    !present(m, k) || m[k] is Num
}

/// The decimal text of an optional numeric field.
pub open spec fn num_text_of(m: Map<Seq<char>, JsonSpec>, k: Seq<char>) -> Option<Seq<char>> {
    if present(m, k) && m[k] is Num {
        Some(m[k]->Num_0.text)
    } else {
        None
    }
}

} // verus!
