//! The value marshaler: bidirectional conversion between JSON values and
//! interpreter values.
//!
//! Inbound ([`to_native`]): null, booleans, strings and floats cross
//! verbatim; 64-bit integers become their decimal strings (never numbers,
//! to avoid the double's 53-bit precision loss — a deliberate asymmetry
//! scripts must know about); an array becomes a table keyed "1".."n"; an
//! object becomes a table with its own keys.
//!
//! Outbound ([`to_json`]): the inverse on atoms; every table becomes an
//! object, because the native model carries no array tag.  The recursion is
//! depth-guarded, since script-built tables are not bounded the way parsed
//! JSON input is.
//!
//! [`lemma_marshal_round_trip`] pins the composition exactly: marshaling in
//! and back is [`reshape`] — identity except that arrays come back as
//! objects keyed "1".."n" and integers come back as their decimal strings.

use vstd::prelude::*;
use vstd::string::*;

use crate::json::{json_wf, JsonV, JsonValue};
use crate::native::{
    lemma_table_depth_ge, lemma_table_depth_le, native_depth, native_wf, NativeV,
    NativeValue,
};
use crate::num::{
    dec_digits, dec_int, i64_to_dec_string, lemma_dec_val_of_digits, u64_to_dec_string,
};

verus! {

broadcast use vstd::std_specs::vec::group_vec_axioms;

/// What marshaling a JSON value into the interpreter yields.
pub open spec fn spec_to_native(j: JsonV) -> NativeV
    decreases j,
{
    match j {
        JsonV::Null => NativeV::Nil,
        JsonV::Bool(b) => NativeV::Boolean(b),
        JsonV::Int(i) => NativeV::Str(dec_int(i as int)),
        JsonV::UInt(u) => NativeV::Str(dec_digits(u as nat)),
        JsonV::Float(bits) => NativeV::Number(bits),
        JsonV::Str(s) => NativeV::Str(s),
        JsonV::Arr(elems) => NativeV::Table(
            Seq::new(
                elems.len(),
                |i: int|
                    if 0 <= i < elems.len() {
                        (dec_digits((i + 1) as nat), spec_to_native(elems[i]))
                    } else {
                        arbitrary()
                    },
            ),
        ),
        JsonV::Obj(fields) => NativeV::Table(
            Seq::new(
                fields.len(),
                |i: int|
                    if 0 <= i < fields.len() {
                        (fields[i].0, spec_to_native(fields[i].1))
                    } else {
                        arbitrary()
                    },
            ),
        ),
    }
}

/// What marshaling an interpreter value back to JSON yields.
pub open spec fn spec_to_json(n: NativeV) -> JsonV
    decreases n,
{
    match n {
        NativeV::Nil => JsonV::Null,
        NativeV::Boolean(b) => JsonV::Bool(b),
        NativeV::Number(bits) => JsonV::Float(bits),
        NativeV::Str(s) => JsonV::Str(s),
        NativeV::Table(entries) => JsonV::Obj(
            Seq::new(
                entries.len(),
                |i: int|
                    if 0 <= i < entries.len() {
                        (entries[i].0, spec_to_json(entries[i].1))
                    } else {
                        arbitrary()
                    },
            ),
        ),
    }
}

/// The shape a JSON value has after a full round trip through the
/// interpreter: arrays become objects keyed "1".."n", 64-bit integers
/// become their decimal strings, and everything else survives unchanged.
pub open spec fn reshape(j: JsonV) -> JsonV
    decreases j,
{
    match j {
        JsonV::Null => JsonV::Null,
        JsonV::Bool(b) => JsonV::Bool(b),
        JsonV::Int(i) => JsonV::Str(dec_int(i as int)),
        JsonV::UInt(u) => JsonV::Str(dec_digits(u as nat)),
        JsonV::Float(bits) => JsonV::Float(bits),
        JsonV::Str(s) => JsonV::Str(s),
        JsonV::Arr(elems) => JsonV::Obj(
            Seq::new(
                elems.len(),
                |i: int|
                    if 0 <= i < elems.len() {
                        (dec_digits((i + 1) as nat), reshape(elems[i]))
                    } else {
                        arbitrary()
                    },
            ),
        ),
        JsonV::Obj(fields) => JsonV::Obj(
            Seq::new(
                fields.len(),
                |i: int|
                    if 0 <= i < fields.len() {
                        (fields[i].0, reshape(fields[i].1))
                    } else {
                        arbitrary()
                    },
            ),
        ),
    }
}

/// Round trip: marshaling any JSON value into the interpreter and straight
/// back yields exactly its reshaped form.  In particular a value built
/// without arrays and without 64-bit integers comes back equal to itself.
pub proof fn lemma_marshal_round_trip(j: JsonV)
    ensures
        spec_to_json(spec_to_native(j)) == reshape(j),
    decreases j,
{
    match j {
        JsonV::Arr(elems) => {
            assert forall|i: int| 0 <= i < elems.len() implies spec_to_json(
                spec_to_native(#[trigger] elems[i]),
            ) == reshape(elems[i]) by {
                lemma_marshal_round_trip(elems[i]);
            }
            assert(spec_to_json(spec_to_native(j)).obj_fields() =~= reshape(j).obj_fields());
            assert(spec_to_json(spec_to_native(j)) =~= reshape(j));
        },
        JsonV::Obj(fields) => {
            assert forall|i: int| 0 <= i < fields.len() implies spec_to_json(
                spec_to_native(#[trigger] fields[i].1),
            ) == reshape(fields[i].1) by {
                lemma_marshal_round_trip(fields[i].1);
            }
            assert(spec_to_json(spec_to_native(j)).obj_fields() =~= reshape(j).obj_fields());
            assert(spec_to_json(spec_to_native(j)) =~= reshape(j));
        },
        _ => {},
    }
}

/// Integer precision: a signed 64-bit integer crosses the boundary as its
/// canonical decimal string — never as an interpreter number — and parsing
/// that string under the signed decimal convention gives exactly the
/// integer back.  The contract is string-preserving: the string itself
/// survives the outbound trip unchanged.
pub proof fn lemma_int64_precision(i: i64)
    ensures
        spec_to_native(JsonV::Int(i)) == NativeV::Str(dec_int(i as int)),
        spec_to_json(spec_to_native(JsonV::Int(i))) == JsonV::Str(dec_int(i as int)),
        crate::num::spec_parse_i64(dec_int(i as int)) == Some(i),
{
    crate::num::lemma_i64_decimal_round_trip(i);
}

/// Integer precision for unsigned 64-bit integers, under the unsigned
/// decimal convention.
pub proof fn lemma_uint64_precision(u: u64)
    ensures
        spec_to_native(JsonV::UInt(u)) == NativeV::Str(dec_digits(u as nat)),
        spec_to_json(spec_to_native(JsonV::UInt(u))) == JsonV::Str(dec_digits(u as nat)),
        crate::num::spec_parse_u64(dec_digits(u as nat)) == Some(u),
{
    crate::num::lemma_u64_decimal_round_trip(u);
}

/// Marshals a JSON value into its interpreter form.
#[verifier::loop_isolation(false)]
pub fn to_native(v: &JsonValue) -> (r: NativeValue)
    ensures
        r@ == spec_to_native(v@),
    decreases v,
{
    match v {
        JsonValue::Null => NativeValue::Nil,
        JsonValue::Bool(b) => NativeValue::Boolean(*b),
        JsonValue::I64(i) => NativeValue::String(i64_to_dec_string(*i)),
        JsonValue::U64(u) => NativeValue::String(u64_to_dec_string(*u)),
        JsonValue::F64(bits) => NativeValue::Number(*bits),
        JsonValue::String(s) => NativeValue::String(s.clone()),
        JsonValue::Array(elems) => {
            let mut out: Vec<(String, NativeValue)> = Vec::new();
            let mut idx: usize = 0;
            while idx < elems.len()
                invariant
                    idx <= elems.len(),
                    out@.len() == idx,
                    forall|k: int|
                        0 <= k < idx ==> (#[trigger] out@[k]).0@ == dec_digits((k + 1) as nat)
                            && out@[k].1@ == spec_to_native(elems@[k]@),
                decreases elems.len() - idx,
            {
                let key = u64_to_dec_string((idx as u64) + 1);
                let val = to_native(&elems[idx]);
                out.push((key, val));
                idx = idx + 1;
            }
            let r = NativeValue::Table(out);
            proof {
                assert(r@.table_entries() =~= spec_to_native(v@).table_entries());
                assert(r@ =~= spec_to_native(v@));
            }
            r
        },
        JsonValue::Object(fields) => {
            let mut out: Vec<(String, NativeValue)> = Vec::new();
            let mut idx: usize = 0;
            while idx < fields.len()
                invariant
                    idx <= fields.len(),
                    out@.len() == idx,
                    forall|k: int|
                        0 <= k < idx ==> (#[trigger] out@[k]).0@ == fields@[k].0@ && out@[k].1@
                            == spec_to_native(fields@[k].1@),
                decreases fields.len() - idx,
            {
                let key = fields[idx].0.clone();
                let val = to_native(&fields[idx].1);
                out.push((key, val));
                idx = idx + 1;
            }
            let r = NativeValue::Table(out);
            proof {
                assert(r@.table_entries() =~= spec_to_native(v@).table_entries());
                assert(r@ =~= spec_to_native(v@));
            }
            r
        },
    }
}

/// Marshals an interpreter value back to JSON, refusing values nested
/// deeper than `max_depth`: the conversion succeeds exactly on values
/// within the depth bound, and then yields exactly [`spec_to_json`].
#[verifier::loop_isolation(false)]
pub fn to_json(n: &NativeValue, max_depth: u32) -> (r: Option<JsonValue>)
    ensures
        r is Some <==> native_depth(n@) <= max_depth,
        r matches Some(j) ==> j@ == spec_to_json(n@),
    decreases n,
{
    match n {
        NativeValue::Nil => Some(JsonValue::Null),
        NativeValue::Boolean(b) => Some(JsonValue::Bool(*b)),
        NativeValue::Number(bits) => Some(JsonValue::F64(*bits)),
        NativeValue::String(s) => Some(JsonValue::String(s.clone())),
        NativeValue::Table(entries) => {
            if max_depth == 0 {
                return None;
            }
            let mut out: Vec<(String, JsonValue)> = Vec::new();
            let mut idx: usize = 0;
            while idx < entries.len()
                invariant
                    max_depth >= 1,
                    idx <= entries.len(),
                    out@.len() == idx,
                    forall|k: int|
                        0 <= k < idx ==> (#[trigger] out@[k]).0@ == entries@[k].0@ && out@[k].1@
                            == spec_to_json(entries@[k].1@),
                    forall|k: int|
                        0 <= k < idx ==> native_depth(#[trigger] entries@[k].1@) <= max_depth - 1,
                decreases entries.len() - idx,
            {
                match to_json(&entries[idx].1, max_depth - 1) {
                    Some(jv) => {
                        let key = entries[idx].0.clone();
                        out.push((key, jv));
                        idx = idx + 1;
                    },
                    None => {
                        proof {
                            let s = n@.table_entries();
                            assert(s[idx as int].1 == entries@[idx as int].1@);
                            lemma_table_depth_ge(s, idx as int);
                        }
                        return None;
                    },
                }
            }
            let r = JsonValue::Object(out);
            proof {
                let s = n@.table_entries();
                assert forall|k: int| 0 <= k < s.len() implies native_depth(#[trigger] s[k].1)
                    <= (max_depth - 1) as nat by {
                    assert(s[k].1 == entries@[k].1@);
                }
                lemma_table_depth_le(s, (max_depth - 1) as nat);
                assert(r@.obj_fields() =~= spec_to_json(n@).obj_fields());
                assert(r@ =~= spec_to_json(n@));
            }
            Some(r)
        },
    }
}

/// Marshaling in preserves well-formedness: unique keys stay unique, and
/// the fresh "1".."n" keys of an array's table are unique because the
/// decimal form is lossless.
pub proof fn lemma_to_native_wf(j: JsonV)
    requires
        json_wf(j),
    ensures
        native_wf(spec_to_native(j)),
    decreases j,
{
    match j {
        JsonV::Arr(elems) => {
            let s = spec_to_native(j).table_entries();
            assert forall|a: int, b: int| 0 <= a < b < s.len() implies s[a].0 != s[b].0 by {
                lemma_dec_val_of_digits((a + 1) as nat);
                lemma_dec_val_of_digits((b + 1) as nat);
            }
            assert forall|i: int| 0 <= i < s.len() implies native_wf(#[trigger] s[i].1) by {
                assert(json_wf(elems[i]));
                lemma_to_native_wf(elems[i]);
            }
        },
        JsonV::Obj(fields) => {
            let s = spec_to_native(j).table_entries();
            assert forall|i: int| 0 <= i < s.len() implies native_wf(#[trigger] s[i].1) by {
                assert(json_wf(fields[i].1));
                lemma_to_native_wf(fields[i].1);
            }
        },
        _ => {},
    }
}

/// Marshaling out preserves well-formedness: an object keeps exactly the
/// keys of the table it came from.
pub proof fn lemma_to_json_wf(n: NativeV)
    requires
        native_wf(n),
    ensures
        json_wf(spec_to_json(n)),
    decreases n,
{
    match n {
        NativeV::Table(entries) => {
            let s = spec_to_json(n).obj_fields();
            assert forall|i: int| 0 <= i < s.len() implies json_wf(#[trigger] s[i].1) by {
                assert(native_wf(entries[i].1));
                lemma_to_json_wf(entries[i].1);
            }
        },
        _ => {},
    }
}

} // verus!
