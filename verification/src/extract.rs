//! Argument extractors: typed, position-validated readers of the positional
//! arguments a script passed to a host function.
//!
//! `args` is the host function's argument list, position 1 first.  Each
//! extractor either yields the typed value or a [`LuaError::Arg`] carrying
//! the 1-based position and a message; a missing argument is rejected like
//! one of the wrong type.  Each extractor's behaviour is pinned by a spec
//! function of the same shape, and the host-function dispatcher composes
//! those spec functions, so an extractor failure is exact all the way up.
//!
//! Pinned model choices: a string argument must be a string value (no
//! number-to-string coercion); a limit, offset or weight argument must be a
//! number value, read through the pinned integral reading
//! [`crate::num::spec_number_to_int`] where an integer is needed; table
//! arguments are marshaled out through [`crate::marshal::to_json`] with the
//! fixed depth bound [`VALUE_DEPTH_LIMIT`].

use vstd::prelude::*;
use vstd::string::*;

use crate::errors::{LuaError, LuaErrorV};
use crate::json::{JsonV, JsonValue};
use crate::marshal::{spec_to_json, to_json};
use crate::native::{native_depth, NativeValue};
use crate::num::{
    number_to_int, parse_i64_dec, parse_u64_dec, spec_number_to_int, spec_parse_i64,
    spec_parse_u64, spec_weight_ok, weight_in_range,
};

verus! {

/// Depth bound applied when a table argument is marshaled out of the
/// interpreter.
pub const VALUE_DEPTH_LIMIT: u32 = 64;

/// What the required-string extractor yields at `narg`.
pub open spec fn spec_string_arg(args: Seq<NativeValue>, narg: int) -> Result<Seq<char>, LuaErrorV> {
    if 1 <= narg <= args.len() && args[narg - 1]@ is Str {
        Ok(args[narg - 1]@.as_str())
    } else {
        Err(LuaErrorV::Arg(narg, "Expected string"@))
    }
}

/// What the optional string-encoded signed integer extractor yields at
/// `narg`: the empty string is the "absent" sentinel.
pub open spec fn spec_opt_i64_arg(args: Seq<NativeValue>, narg: int) -> Result<
    Option<i64>,
    LuaErrorV,
> {
    match spec_string_arg(args, narg) {
        Err(e) => Err(e),
        Ok(s) => if s.len() == 0 {
            Ok(None)
        } else {
            match spec_parse_i64(s) {
                Some(v) => Ok(Some(v)),
                None => Err(LuaErrorV::Arg(narg, "Expected i64 as string"@)),
            }
        },
    }
}

/// What the identifier extractor yields at `narg`: identifiers are
/// nonnegative 64-bit integers carried as decimal strings, so a malformed
/// or negative identifier is rejected at its position.
pub open spec fn spec_id_arg(args: Seq<NativeValue>, narg: int) -> Result<u64, LuaErrorV> {
    match spec_string_arg(args, narg) {
        Err(e) => Err(e),
        Ok(s) => match spec_parse_u64(s) {
            Some(v) => Ok(v),
            None => Err(LuaErrorV::Arg(narg, "Expected id as string"@)),
        },
    }
}

/// What a number-valued argument yields at `narg`: the bit pattern of the
/// double.
pub open spec fn spec_number_arg(args: Seq<NativeValue>, narg: int) -> Result<u64, LuaErrorV> {
    if 1 <= narg <= args.len() && args[narg - 1]@ is Number {
        Ok(args[narg - 1]@.as_number_bits())
    } else {
        Err(LuaErrorV::Arg(narg, "Expected number"@))
    }
}

/// What the limit extractor yields at `narg`: a nonnegative integer,
/// silently saturated to the 16-bit unsigned maximum; negative is an
/// argument error.
pub open spec fn spec_limit_arg(args: Seq<NativeValue>, narg: int) -> Result<u16, LuaErrorV> {
    match spec_number_arg(args, narg) {
        Err(e) => Err(e),
        Ok(bits) => {
            let v = spec_number_to_int(bits);
            if v < 0 {
                Err(LuaErrorV::Arg(narg, "Limit cannot be negative"@))
            } else if v > 65535 {
                Ok(65535u16)
            } else {
                Ok(v as u16)
            }
        },
    }
}

/// What the offset extractor yields at `narg`: a nonnegative integer;
/// negative is an argument error.
pub open spec fn spec_offset_arg(args: Seq<NativeValue>, narg: int) -> Result<u64, LuaErrorV> {
    match spec_number_arg(args, narg) {
        Err(e) => Err(e),
        Ok(bits) => {
            let v = spec_number_to_int(bits);
            if v < 0 {
                Err(LuaErrorV::Arg(narg, "Offset cannot be negative"@))
            } else {
                Ok(v as u64)
            }
        },
    }
}

/// What the bounded-weight extractor yields at `narg`: the bit pattern of
/// a double within [-1.0, 1.0], judged by [`spec_weight_ok`].
pub open spec fn spec_weight_arg(args: Seq<NativeValue>, narg: int) -> Result<u64, LuaErrorV> {
    match spec_number_arg(args, narg) {
        Err(e) => Err(e),
        Ok(bits) => if spec_weight_ok(bits) {
            Ok(bits)
        } else {
            Err(LuaErrorV::Arg(narg, "Weight must be between -1.0 and 1.0"@))
        },
    }
}

/// What the arbitrary-value extractor yields at `narg`: the argument
/// marshaled back to JSON, within the fixed depth bound.
pub open spec fn spec_json_arg(args: Seq<NativeValue>, narg: int) -> Result<JsonV, LuaErrorV> {
    if !(1 <= narg <= args.len()) {
        Err(LuaErrorV::Arg(narg, "Expected value"@))
    } else if native_depth(args[narg - 1]@) > VALUE_DEPTH_LIMIT {
        Err(LuaErrorV::Arg(narg, "Value is nested too deeply"@))
    } else {
        Ok(spec_to_json(args[narg - 1]@))
    }
}

/// What the object extractor yields at `narg`: as [`spec_json_arg`], and
/// the marshaled value must be an object (the argument a table).
pub open spec fn spec_obj_arg(args: Seq<NativeValue>, narg: int) -> Result<JsonV, LuaErrorV> {
    match spec_json_arg(args, narg) {
        Err(e) => Err(e),
        Ok(j) => if j is Obj {
            Ok(j)
        } else {
            Err(LuaErrorV::Arg(narg, "Expected object"@))
        },
    }
}

/// Builds the argument error for position `narg` with message `msg`.
fn arg_error(narg: i32, msg: &str) -> (r: LuaError)
    ensures
        r@ == LuaErrorV::Arg(narg as int, msg@),
{
    LuaError::Arg(narg, String::from_str(msg))
}

/// Reads the required string argument at `narg`.
pub fn get_string_param(args: &Vec<NativeValue>, narg: i32) -> (r: Result<String, LuaError>)
    ensures
        r matches Ok(s) ==> spec_string_arg(args@, narg as int) == Ok::<Seq<char>, LuaErrorV>(s@),
        r matches Err(e) ==> spec_string_arg(args@, narg as int) == Err::<Seq<char>, LuaErrorV>(
            e@,
        ),
{
    if narg >= 1 && (narg as usize) <= args.len() {
        match &args[(narg as usize) - 1] {
            NativeValue::String(s) => Ok(s.clone()),
            _ => Err(arg_error(narg, "Expected string")),
        }
    } else {
        Err(arg_error(narg, "Expected string"))
    }
}

/// Reads the optional string-encoded signed 64-bit integer at `narg`; the
/// empty string means "absent".
pub fn get_optional_i64_param(args: &Vec<NativeValue>, narg: i32) -> (r: Result<
    Option<i64>,
    LuaError,
>)
    ensures
        r matches Ok(v) ==> spec_opt_i64_arg(args@, narg as int) == Ok::<Option<i64>, LuaErrorV>(
            v,
        ),
        r matches Err(e) ==> spec_opt_i64_arg(args@, narg as int) == Err::<Option<i64>, LuaErrorV>(
            e@,
        ),
{
    let s = match get_string_param(args, narg) {
        Ok(s) => s,
        Err(e) => {
            return Err(e);
        },
    };
    if s.as_str().is_empty() {
        return Ok(None);
    }
    match parse_i64_dec(s.as_str()) {
        Some(v) => Ok(Some(v)),
        None => Err(arg_error(narg, "Expected i64 as string")),
    }
}

/// Reads the identifier argument at `narg`: a nonnegative 64-bit integer
/// carried as a decimal string.
pub fn get_id_param(args: &Vec<NativeValue>, narg: i32) -> (r: Result<u64, LuaError>)
    ensures
        r matches Ok(v) ==> spec_id_arg(args@, narg as int) == Ok::<u64, LuaErrorV>(v),
        r matches Err(e) ==> spec_id_arg(args@, narg as int) == Err::<u64, LuaErrorV>(e@),
{
    let s = match get_string_param(args, narg) {
        Ok(s) => s,
        Err(e) => {
            return Err(e);
        },
    };
    match parse_u64_dec(s.as_str()) {
        Some(v) => Ok(v),
        None => Err(arg_error(narg, "Expected id as string")),
    }
}

/// Reads the optional Unix-epoch-seconds timestamp at `narg`, built atop
/// the optional-integer extractor.
pub fn get_optional_datetime_param(args: &Vec<NativeValue>, narg: i32) -> (r: Result<
    Option<i64>,
    LuaError,
>)
    ensures
        r matches Ok(v) ==> spec_opt_i64_arg(args@, narg as int) == Ok::<Option<i64>, LuaErrorV>(
            v,
        ),
        r matches Err(e) ==> spec_opt_i64_arg(args@, narg as int) == Err::<Option<i64>, LuaErrorV>(
            e@,
        ),
{
    get_optional_i64_param(args, narg)
}

/// Reads the number argument at `narg`, yielding the double's bit pattern.
fn get_number_param(args: &Vec<NativeValue>, narg: i32) -> (r: Result<u64, LuaError>)
    ensures
        r matches Ok(v) ==> spec_number_arg(args@, narg as int) == Ok::<u64, LuaErrorV>(v),
        r matches Err(e) ==> spec_number_arg(args@, narg as int) == Err::<u64, LuaErrorV>(e@),
{
    if narg >= 1 && (narg as usize) <= args.len() {
        match &args[(narg as usize) - 1] {
            NativeValue::Number(bits) => Ok(*bits),
            _ => Err(arg_error(narg, "Expected number")),
        }
    } else {
        Err(arg_error(narg, "Expected number"))
    }
}

/// Reads the limit argument at `narg`: nonnegative, saturating silently to
/// the 16-bit unsigned maximum.
pub fn get_limit_param(args: &Vec<NativeValue>, narg: i32) -> (r: Result<u16, LuaError>)
    ensures
        r matches Ok(v) ==> spec_limit_arg(args@, narg as int) == Ok::<u16, LuaErrorV>(v),
        r matches Err(e) ==> spec_limit_arg(args@, narg as int) == Err::<u16, LuaErrorV>(e@),
{
    let bits = match get_number_param(args, narg) {
        Ok(bits) => bits,
        Err(e) => {
            return Err(e);
        },
    };
    let v = number_to_int(bits);
    if v < 0 {
        Err(arg_error(narg, "Limit cannot be negative"))
    } else if v > 65535 {
        Ok(65535)
    } else {
        Ok(v as u16)
    }
}

/// Reads the offset argument at `narg`: a nonnegative integer.
pub fn get_offset_param(args: &Vec<NativeValue>, narg: i32) -> (r: Result<u64, LuaError>)
    ensures
        r matches Ok(v) ==> spec_offset_arg(args@, narg as int) == Ok::<u64, LuaErrorV>(v),
        r matches Err(e) ==> spec_offset_arg(args@, narg as int) == Err::<u64, LuaErrorV>(e@),
{
    let bits = match get_number_param(args, narg) {
        Ok(bits) => bits,
        Err(e) => {
            return Err(e);
        },
    };
    let v = number_to_int(bits);
    if v < 0 {
        Err(arg_error(narg, "Offset cannot be negative"))
    } else {
        Ok(v as u64)
    }
}

/// Reads the bounded-weight argument at `narg`: a double within
/// [-1.0, 1.0], validated on its bit pattern.
pub fn get_weight_param(args: &Vec<NativeValue>, narg: i32) -> (r: Result<u64, LuaError>)
    ensures
        r matches Ok(v) ==> spec_weight_arg(args@, narg as int) == Ok::<u64, LuaErrorV>(v),
        r matches Err(e) ==> spec_weight_arg(args@, narg as int) == Err::<u64, LuaErrorV>(e@),
{
    let bits = match get_number_param(args, narg) {
        Ok(bits) => bits,
        Err(e) => {
            return Err(e);
        },
    };
    if weight_in_range(bits) {
        Ok(bits)
    } else {
        Err(arg_error(narg, "Weight must be between -1.0 and 1.0"))
    }
}

/// Reads an arbitrary value at `narg`, marshaled back to JSON within the
/// fixed depth bound.
pub fn get_json_param(args: &Vec<NativeValue>, narg: i32) -> (r: Result<JsonValue, LuaError>)
    ensures
        r matches Ok(j) ==> spec_json_arg(args@, narg as int) == Ok::<JsonV, LuaErrorV>(j@),
        r matches Err(e) ==> spec_json_arg(args@, narg as int) == Err::<JsonV, LuaErrorV>(e@),
{
    if !(narg >= 1 && (narg as usize) <= args.len()) {
        return Err(arg_error(narg, "Expected value"));
    }
    match to_json(&args[(narg as usize) - 1], VALUE_DEPTH_LIMIT) {
        Some(j) => Ok(j),
        None => Err(arg_error(narg, "Value is nested too deeply")),
    }
}

/// Reads a properties-style object at `narg`: an arbitrary value that must
/// marshal to a JSON object.
pub fn get_obj_param(args: &Vec<NativeValue>, narg: i32) -> (r: Result<JsonValue, LuaError>)
    ensures
        r matches Ok(j) ==> spec_obj_arg(args@, narg as int) == Ok::<JsonV, LuaErrorV>(j@),
        r matches Err(e) ==> spec_obj_arg(args@, narg as int) == Err::<JsonV, LuaErrorV>(e@),
{
    let j = match get_json_param(args, narg) {
        Ok(j) => j,
        Err(e) => {
            return Err(e);
        },
    };
    match j {
        JsonValue::Object(_) => Ok(j),
        _ => Err(arg_error(narg, "Expected object")),
    }
}

} // verus!
