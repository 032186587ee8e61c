//! The execution driver: the load -> bind -> invoke -> commit/abort
//! lifecycle of one script run, as a state machine.
//!
//! One execution owns one fresh interpreter session and one transaction;
//! neither is reused.  The unverified runner performs the interpreter and
//! store calls and reports each outcome as an [`ExecEvent`]; [`step`]
//! decides every transition, and [`next_action`] tells the runner what the
//! state demands next — in particular, committing the transaction is
//! demanded only in the `Invoked` state, which is reachable only after a
//! successful load, bind and invocation.
//! [`lemma_commit_needs_all_stages`] states that law over whole traces:
//! a run ends `Committed` only along the exact success path, so any failure
//! at any stage leaves the transaction uncommitted.

use vstd::prelude::*;
use vstd::string::*;

use crate::errors::{CallFailure, LoadFailure, LuaError, LuaErrorV, ScriptError};
use crate::json::{JsonV, JsonValue};
use crate::marshal::{spec_to_json, to_json};
use crate::native::{native_depth, NativeValue};

verus! {

/// Depth bound applied when the script's return value is marshaled out.
pub const RESULT_DEPTH_LIMIT: u32 = 64;

/// The states of one execution.  `Invoked` and `Committed` carry the first
/// value the script left on the stack, if any; `Aborted` carries the
/// classified error.
#[derive(Debug, PartialEq)]
pub enum ExecState {
    Created,
    Loaded,
    Bound,
    Invoked(Option<NativeValue>),
    Committed(Option<NativeValue>),
    Aborted(ScriptError),
}

/// How loading (compiling) the source text went.
#[derive(Debug, PartialEq)]
pub enum LoadOutcome {
    Success,
    Failure(LoadFailure, String),
}

/// How invoking the compiled script went: on success, the first value the
/// script left on the stack, if any.
#[derive(Debug, PartialEq)]
pub enum InvokeOutcome {
    Success(Option<NativeValue>),
    Failure(CallFailure, String),
}

/// How committing the transaction went.
#[derive(Debug, PartialEq)]
pub enum CommitOutcome {
    Success,
    Failure(String),
}

/// One reported event of an execution.
#[derive(Debug, PartialEq)]
pub enum ExecEvent {
    Load(LoadOutcome),
    Bind,
    Invoke(InvokeOutcome),
    Commit(CommitOutcome),
}

/// What the runner must do next in a given state.
#[derive(Debug, Clone, Copy, PartialEq, Eq, Structural)]
pub enum ExecAction {
    LoadSource,
    BindGlobals,
    InvokeScript,
    CommitTransaction,
    Done,
}

/// How a load failure is classified (the contract of
/// [`ScriptError::new_from_loaderror`]).
pub open spec fn load_error_spec(k: LoadFailure, m: Seq<char>, err: ScriptError) -> bool {
    match k {
        LoadFailure::Syntax => err matches ScriptError::Syntax(t) && t@ == m,
        LoadFailure::OutOfMemory => err is Memory,
    }
}

/// How an invocation failure is classified (the contract of
/// [`ScriptError::new_from_pcallerror`]).
pub open spec fn call_error_spec(k: CallFailure, m: Seq<char>, err: ScriptError) -> bool {
    match k {
        CallFailure::Runtime => err matches ScriptError::Runtime(t) && t@ == m,
        CallFailure::OutOfMemory => err is Memory,
        CallFailure::Unrecognized => err matches ScriptError::Panicked(t) && t@
            == "Unknown pcall error"@,
    }
}

/// The transition relation of the execution state machine.  Every event
/// out of order aborts the execution; a terminal state never leaves.
pub open spec fn step_rel(s: ExecState, e: ExecEvent, s2: ExecState) -> bool {
    match (s, e) {
        (ExecState::Created, ExecEvent::Load(o)) => match o {
            LoadOutcome::Success => s2 is Loaded,
            LoadOutcome::Failure(k, m) => s2 matches ExecState::Aborted(err) && load_error_spec(
                k,
                m@,
                err,
            ),
        },
        (ExecState::Loaded, ExecEvent::Bind) => s2 is Bound,
        (ExecState::Bound, ExecEvent::Invoke(o)) => match o {
            InvokeOutcome::Success(top) => s2 matches ExecState::Invoked(t2) && t2 == top,
            InvokeOutcome::Failure(k, m) => s2 matches ExecState::Aborted(err) && call_error_spec(
                k,
                m@,
                err,
            ),
        },
        (ExecState::Invoked(top), ExecEvent::Commit(o)) => match o {
            CommitOutcome::Success => s2 matches ExecState::Committed(t2) && t2 == top,
            CommitOutcome::Failure(m) => s2 matches ExecState::Aborted(err) && (err
                matches ScriptError::Runtime(t) && t@ == "Could not commit script transaction: "@
                + m@),
        },
        _ => s2 matches ExecState::Aborted(err) && (err matches ScriptError::Panicked(t) && t@
            == "Unexpected execution event"@),
    }
}

/// Performs one transition of the execution state machine.
pub fn step(s: ExecState, e: ExecEvent) -> (r: ExecState)
    ensures
        step_rel(s, e, r),
{
    match (s, e) {
        (ExecState::Created, ExecEvent::Load(LoadOutcome::Success)) => ExecState::Loaded,
        (ExecState::Created, ExecEvent::Load(LoadOutcome::Failure(k, m))) => ExecState::Aborted(
            ScriptError::new_from_loaderror(k, m),
        ),
        (ExecState::Loaded, ExecEvent::Bind) => ExecState::Bound,
        (ExecState::Bound, ExecEvent::Invoke(InvokeOutcome::Success(top))) => ExecState::Invoked(
            top,
        ),
        (ExecState::Bound, ExecEvent::Invoke(InvokeOutcome::Failure(k, m))) => ExecState::Aborted(
            ScriptError::new_from_pcallerror(k, m),
        ),
        (ExecState::Invoked(top), ExecEvent::Commit(CommitOutcome::Success)) => {
            ExecState::Committed(top)
        },
        (ExecState::Invoked(_), ExecEvent::Commit(CommitOutcome::Failure(m))) => {
            ExecState::Aborted(
                ScriptError::Runtime(
                    String::from_str("Could not commit script transaction: ").concat(m.as_str()),
                ),
            )
        },
        (_, _) => ExecState::Aborted(
            ScriptError::Panicked(String::from_str("Unexpected execution event")),
        ),
    }
}

/// What the runner must do next: load, bind, invoke, commit, or stop.
/// Committing is demanded only in the `Invoked` state.
pub fn next_action(s: &ExecState) -> (r: ExecAction)
    ensures
        r is LoadSource <==> s is Created,
        r is BindGlobals <==> s is Loaded,
        r is InvokeScript <==> s is Bound,
        r is CommitTransaction <==> s is Invoked,
        r is Done <==> (s is Committed || s is Aborted),
{
    match s {
        ExecState::Created => ExecAction::LoadSource,
        ExecState::Loaded => ExecAction::BindGlobals,
        ExecState::Bound => ExecAction::InvokeScript,
        ExecState::Invoked(_) => ExecAction::CommitTransaction,
        ExecState::Committed(_) => ExecAction::Done,
        ExecState::Aborted(_) => ExecAction::Done,
    }
}

/// The result of a finished execution: on `Committed`, the first stack
/// value marshaled to JSON (or JSON null if the script left none); on
/// `Aborted`, the classified error.
pub fn finish(s: ExecState) -> (r: Result<JsonValue, ScriptError>)
    ensures
        s matches ExecState::Committed(top) ==> match top {
            None => r matches Ok(j) && j@ == JsonV::Null,
            Some(n) => if native_depth(n@) <= RESULT_DEPTH_LIMIT {
                r matches Ok(j) && j@ == spec_to_json(n@)
            } else {
                r matches Err(err) && err matches ScriptError::Runtime(m) && m@
                    == "Could not deserialize return value"@
            },
        },
        s matches ExecState::Aborted(err) ==> r matches Err(e2) && e2 == err,
        !(s is Committed || s is Aborted) ==> (r matches Err(e2) && (e2
            matches ScriptError::Panicked(m) && m@ == "Execution not finished"@)),
{
    match s {
        ExecState::Committed(None) => Ok(JsonValue::Null),
        ExecState::Committed(Some(n)) => match to_json(&n, RESULT_DEPTH_LIMIT) {
            Some(j) => Ok(j),
            None => Err(
                ScriptError::Runtime(String::from_str("Could not deserialize return value")),
            ),
        },
        ExecState::Aborted(err) => Err(err),
        _ => Err(ScriptError::Panicked(String::from_str("Execution not finished"))),
    }
}

/// Whether `states` and `events` form one execution's history: it starts
/// fresh, and every consecutive pair is a legal transition.
pub open spec fn valid_trace(states: Seq<ExecState>, events: Seq<ExecEvent>) -> bool {
    &&& states.len() == events.len() + 1
    &&& states[0] is Created
    &&& forall|i: int|
        0 <= i < events.len() ==> step_rel(states[i], #[trigger] events[i], states[i + 1])
}

/// All-or-nothing commit: an execution ends `Committed` only along the
/// exact success path — the load succeeded, the globals were bound, the
/// invocation succeeded, and the commit succeeded, in that order and with
/// nothing else in between.  Any failure at any stage therefore ends in
/// `Aborted`, with the transaction never committed.
pub proof fn lemma_commit_needs_all_stages(states: Seq<ExecState>, events: Seq<ExecEvent>)
    requires
        valid_trace(states, events),
        states.last() is Committed,
    ensures
        events.len() == 4,
        events[0] matches ExecEvent::Load(LoadOutcome::Success),
        events[1] is Bind,
        events[2] matches ExecEvent::Invoke(InvokeOutcome::Success(_)),
        events[3] matches ExecEvent::Commit(CommitOutcome::Success),
{
    let n = events.len() as int;
    assert(states.last() == states[n]);
    assert(n >= 1);
    assert(step_rel(states[n - 1], events[n - 1], states[n]));
    assert(states[n - 1] is Invoked && events[n - 1] matches ExecEvent::Commit(
        CommitOutcome::Success,
    ));
    assert(n >= 2);
    assert(step_rel(states[n - 2], events[n - 2], states[n - 1]));
    assert(states[n - 2] is Bound && events[n - 2] matches ExecEvent::Invoke(
        InvokeOutcome::Success(_),
    ));
    assert(n >= 3);
    assert(step_rel(states[n - 3], events[n - 3], states[n - 2]));
    assert(states[n - 3] is Loaded && events[n - 3] is Bind);
    assert(n >= 4);
    assert(step_rel(states[n - 4], events[n - 4], states[n - 3]));
    assert(states[n - 4] is Created && events[n - 4] matches ExecEvent::Load(
        LoadOutcome::Success,
    ));
    if n > 4 {
        assert(step_rel(states[n - 5], events[n - 5], states[n - 4]));
        assert(false);
    }
}

/// No failure commits: an execution whose history contains any failed
/// load, invocation or commit — or any event out of order — never ends
/// `Committed`, so every effect of the script stays unobservable.
pub proof fn lemma_failure_never_commits(states: Seq<ExecState>, events: Seq<ExecEvent>, i: int)
    requires
        valid_trace(states, events),
        0 <= i < events.len(),
        match events[i] {
            ExecEvent::Load(o) => o is Failure,
            ExecEvent::Invoke(o) => o is Failure,
            ExecEvent::Commit(o) => o is Failure,
            ExecEvent::Bind => false,
        },
    ensures
        !(states.last() is Committed),
{
    if states.last() is Committed {
        lemma_commit_needs_all_stages(states, events);
    }
}

/// The well-known global under which the transaction handle is lent to the
/// interpreter session for the one invocation.
pub fn transaction_global_name() -> (r: String)
    ensures
        r@ == "trans"@,
{
    String::from_str("trans")
}

/// The well-known global carrying the caller's identity, as a string.
pub fn account_id_global_name() -> (r: String)
    ensures
        r@ == "account_id"@,
{
    String::from_str("account_id")
}

/// The well-known global carrying the script's marshaled input argument.
pub fn arg_global_name() -> (r: String)
    ensures
        r@ == "arg"@,
{
    String::from_str("arg")
}

/// The error a host function fails fast with when the transaction handle
/// global is missing or has the wrong shape: the handle is never treated
/// as a transaction without being verified first.
pub fn corrupted_transaction_error() -> (r: LuaError)
    ensures
        r@ == LuaErrorV::Generic("Corrupted transaction"@),
{
    LuaError::Generic(String::from_str("Corrupted transaction"))
}

} // verus!
