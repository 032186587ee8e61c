//! The JSON value model: the external input/output representation of the
//! bridge.
//!
//! [`JsonValue`] is the executable form; [`JsonV`] is its mathematical view,
//! reached through [`JsonValue::view`].  A float is carried as the raw
//! IEEE-754 bit pattern of the double, which the bridge never interprets
//! arithmetically: it only moves it verbatim across the boundary.  An object
//! is an ordered list of key/value pairs; it is well formed when its keys
//! are unique, and key order is not significant to any contract here.

use vstd::prelude::*;

verus! {

broadcast use vstd::std_specs::vec::group_vec_axioms;

/// The mathematical JSON value: the tagged union
/// {Null, Bool, Int64, UInt64, Float64, String, Array, Object}.
#[verifier::ext_equal]
pub enum JsonV {
    Null,
    Bool(bool),
    Int(i64),
    UInt(u64),
    /// IEEE-754 bit pattern of the double.
    Float(u64),
    Str(Seq<char>),
    Arr(Seq<JsonV>),
    Obj(Seq<(Seq<char>, JsonV)>),
}

/// The executable JSON value.  `F64` holds the raw bit pattern of the
/// double; callers at the boundary convert with `f64::to_bits` /
/// `f64::from_bits`.
#[derive(Debug, PartialEq)]
pub enum JsonValue {
    Null,
    Bool(bool),
    I64(i64),
    U64(u64),
    F64(u64),
    String(String),
    Array(Vec<JsonValue>),
    Object(Vec<(String, JsonValue)>),
}

impl JsonValue {
    /// The mathematical value this executable value stands for.
    pub open spec fn view(&self) -> JsonV
        decreases self,
    {
        match self {
            JsonValue::Null => JsonV::Null,
            JsonValue::Bool(b) => JsonV::Bool(*b),
            JsonValue::I64(i) => JsonV::Int(*i),
            JsonValue::U64(u) => JsonV::UInt(*u),
            JsonValue::F64(bits) => JsonV::Float(*bits),
            JsonValue::String(s) => JsonV::Str(s@),
            JsonValue::Array(v) => JsonV::Arr(
                Seq::new(
                    v@.len(),
                    |i: int|
                        if 0 <= i < v@.len() {
                            v@[i].view()
                        } else {
                            arbitrary()
                        },
                ),
            ),
            JsonValue::Object(v) => JsonV::Obj(
                Seq::new(
                    v@.len(),
                    |i: int|
                        if 0 <= i < v@.len() {
                            (v@[i].0@, v@[i].1.view())
                        } else {
                            arbitrary()
                        },
                ),
            ),
        }
    }
}

impl JsonV {
    /// The field list of an object (empty for every other value).
    pub open spec fn obj_fields(self) -> Seq<(Seq<char>, JsonV)> {
        match self {
            JsonV::Obj(fields) => fields,
            _ => Seq::empty(),
        }
    }
}

/// Whether the keys of an object's field list are unique.
pub open spec fn obj_keys_unique(fields: Seq<(Seq<char>, JsonV)>) -> bool {
    forall|i: int, j: int| 0 <= i < j < fields.len() ==> fields[i].0 != fields[j].0
}

/// Well-formedness of a JSON value: every object, at every depth, has
/// unique keys.
pub open spec fn json_wf(j: JsonV) -> bool
    decreases j,
{
    match j {
        JsonV::Arr(elems) => forall|i: int| 0 <= i < elems.len() ==> json_wf(#[trigger] elems[i]),
        JsonV::Obj(fields) => obj_keys_unique(fields) && forall|i: int|
            0 <= i < fields.len() ==> json_wf(#[trigger] fields[i].1),
        _ => true,
    }
}

} // verus!
