//! Error taxonomy of the bridge.
//!
//! Failures inside a host function are `LuaError` values: either an argument
//! error carrying the 1-based position of the offending argument, or a
//! generic runtime message.  Failures of a whole execution are `ScriptError`
//! values: the caller sees one of syntax, out-of-memory, runtime (with
//! diagnostic text) or an unrecognized interpreter failure.

use vstd::prelude::*;

verus! {

/// An error raised inside one host-function call.  `Arg` carries the 1-based
/// position of the argument that was rejected; `Generic` carries a message
/// for every other failure, including failed transaction operations.
#[derive(Debug, PartialEq, Eq)]
pub enum LuaError {
    Arg(i32, String),
    Generic(String),
}

/// The mathematical view of a [`LuaError`].
pub enum LuaErrorV {
    Arg(int, Seq<char>),
    Generic(Seq<char>),
}

impl LuaError {
    /// The mathematical error this executable error stands for.
    pub open spec fn view(&self) -> LuaErrorV {
        match self {
            LuaError::Arg(p, m) => LuaErrorV::Arg(*p as int, m@),
            LuaError::Generic(m) => LuaErrorV::Generic(m@),
        }
    }
}

/// The classified outcome of one whole script execution, as reported to the
/// caller.  Only `Syntax` and `Runtime` carry diagnostic text.
#[derive(Debug, PartialEq, Eq)]
pub enum ScriptError {
    Syntax(String),
    Memory,
    Runtime(String),
    Panicked(String),
}

/// How loading (compiling) the source text failed, as the interpreter
/// reports it: a syntax error, or memory exhaustion.
#[derive(Debug, PartialEq, Eq, Structural, Clone, Copy)]
pub enum LoadFailure {
    Syntax,
    OutOfMemory,
}

/// How invoking the compiled script failed, as the interpreter reports it:
/// an ordinary runtime error, memory exhaustion, or a failure mode the
/// interpreter itself could not classify.
#[derive(Debug, PartialEq, Eq, Structural, Clone, Copy)]
pub enum CallFailure {
    Runtime,
    OutOfMemory,
    Unrecognized,
}

impl ScriptError {
    /// Classifies a load failure.  `message` is the interpreter's diagnostic
    /// text (the top of its stack after the failed load); it is reported
    /// only for syntax errors, which are the only load failures that carry
    /// text.
    pub fn new_from_loaderror(failure: LoadFailure, message: String) -> (r: ScriptError)
        ensures
            failure is Syntax ==> r == ScriptError::Syntax(message),
            failure is OutOfMemory ==> r == ScriptError::Memory,
    {
        match failure {
            LoadFailure::Syntax => ScriptError::Syntax(message),
            LoadFailure::OutOfMemory => ScriptError::Memory,
        }
    }

    /// Classifies an invocation failure.  `message` is the interpreter's
    /// diagnostic text; it is reported only for runtime errors.  An
    /// unrecognized failure mode becomes `Panicked` with a fixed message.
    pub fn new_from_pcallerror(failure: CallFailure, message: String) -> (r: ScriptError)
        ensures
            failure is Runtime ==> r == ScriptError::Runtime(message),
            failure is OutOfMemory ==> r == ScriptError::Memory,
            failure is Unrecognized ==> (r matches ScriptError::Panicked(m)
                && m@ == "Unknown pcall error"@),
    {
        match failure {
            CallFailure::Runtime => ScriptError::Runtime(message),
            CallFailure::OutOfMemory => ScriptError::Memory,
            CallFailure::Unrecognized => ScriptError::Panicked(
                String::from_str("Unknown pcall error"),
            ),
        }
    }
}

} // verus!
