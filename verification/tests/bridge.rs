use graphscript::driver::{
    finish, next_action, step, CommitOutcome, ExecAction, ExecEvent, ExecState, InvokeOutcome,
    LoadOutcome,
};
use graphscript::errors::{CallFailure, LoadFailure, LuaError, ScriptError};
use graphscript::extract::{get_limit_param, get_offset_param, get_string_param, get_weight_param};
use graphscript::json::JsonValue;
use graphscript::native::NativeValue;
use graphscript::registry::{
    extract_args, registry, HostFunction, MetadataOwner, MetadataScope, TxRequest,
};
use graphscript::render::{render_result, EdgeData, TxFailure, TxOutcome, VertexData};

fn s(x: &str) -> String {
    String::from(x)
}

fn num(x: f64) -> NativeValue {
    NativeValue::Number(x.to_bits())
}

fn str_arg(x: &str) -> NativeValue {
    NativeValue::String(s(x))
}

#[test]
fn limit_saturates_above_u16_max_and_rejects_negative() {
    let args = vec![num(100000.0)];
    assert_eq!(get_limit_param(&args, 1), Ok(65535));
    let args = vec![num(-1.0)];
    assert_eq!(
        get_limit_param(&args, 1),
        Err(LuaError::Arg(1, s("Limit cannot be negative")))
    );
    let args = vec![num(42.9)];
    assert_eq!(get_limit_param(&args, 1), Ok(42));
}

#[test]
fn edge_range_clamps_limit_and_cites_negative_offset_position() {
    let args = vec![str_arg("7"), str_arg("knows"), num(0.0), num(100000.0)];
    let req = extract_args(HostFunction::GetEdgeRange { reversed: false }, &args);
    assert_eq!(
        req,
        Ok(TxRequest::GetEdgeRange {
            outbound_id: 7,
            t: s("knows"),
            offset: 0,
            limit: 65535,
            reversed: false,
        })
    );
    let args = vec![str_arg("7"), str_arg("knows"), num(-1.0), num(10.0)];
    let req = extract_args(HostFunction::GetEdgeRange { reversed: false }, &args);
    assert_eq!(req, Err(LuaError::Arg(3, s("Offset cannot be negative"))));
}

#[test]
fn set_edge_rejects_out_of_range_weight_before_any_request_exists() {
    let args = vec![
        str_arg("1"),
        str_arg("knows"),
        str_arg("2"),
        num(2.0),
        NativeValue::Table(vec![]),
    ];
    let req = extract_args(HostFunction::SetEdge, &args);
    assert_eq!(
        req,
        Err(LuaError::Arg(4, s("Weight must be between -1.0 and 1.0")))
    );
    let args = vec![
        str_arg("1"),
        str_arg("knows"),
        str_arg("2"),
        num(0.25),
        NativeValue::Table(vec![]),
    ];
    let req = extract_args(HostFunction::SetEdge, &args);
    assert_eq!(
        req,
        Ok(TxRequest::SetEdge {
            outbound_id: 1,
            t: s("knows"),
            inbound_id: 2,
            weight_bits: 0.25f64.to_bits(),
            properties: JsonValue::Object(vec![]),
        })
    );
}

#[test]
fn invalid_identifier_is_an_argument_error_at_its_position() {
    let args = vec![str_arg("-1")];
    assert_eq!(
        extract_args(HostFunction::DeleteVertex, &args),
        Err(LuaError::Arg(1, s("Expected id as string")))
    );
    let args = vec![num(3.0)];
    assert_eq!(
        extract_args(HostFunction::DeleteVertex, &args),
        Err(LuaError::Arg(1, s("Expected string")))
    );
    let args: Vec<NativeValue> = vec![];
    assert_eq!(
        extract_args(HostFunction::GetVertex, &args),
        Err(LuaError::Arg(1, s("Expected string")))
    );
}

#[test]
fn create_vertex_extracts_type_and_properties() {
    let args = vec![str_arg("person"), NativeValue::Table(vec![])];
    assert_eq!(
        extract_args(HostFunction::CreateVertex, &args),
        Ok(TxRequest::CreateVertex {
            t: s("person"),
            properties: JsonValue::Object(vec![]),
        })
    );
    let args = vec![str_arg("person"), str_arg("not a table")];
    assert_eq!(
        extract_args(HostFunction::CreateVertex, &args),
        Err(LuaError::Arg(2, s("Expected object")))
    );
}

#[test]
fn time_range_takes_optional_timestamps_as_strings() {
    let args = vec![
        str_arg("9"),
        str_arg("knows"),
        str_arg("1500000000"),
        str_arg(""),
        num(10.0),
    ];
    let req = extract_args(HostFunction::GetEdgeTimeRange { reversed: true }, &args);
    assert_eq!(
        req,
        Ok(TxRequest::GetEdgeTimeRange {
            outbound_id: 9,
            t: s("knows"),
            high: Some(1500000000),
            low: None,
            limit: 10,
            reversed: true,
        })
    );
}

#[test]
fn metadata_dispatch_covers_all_four_scopes() {
    let args = vec![str_arg("theme"), NativeValue::Boolean(true)];
    assert_eq!(
        extract_args(
            HostFunction::SetMetadata {
                scope: MetadataScope::Global
            },
            &args
        ),
        Ok(TxRequest::SetMetadata {
            owner: MetadataOwner::Global,
            key: s("theme"),
            value: JsonValue::Bool(true),
        })
    );
    let args = vec![str_arg("12"), str_arg("quota")];
    assert_eq!(
        extract_args(
            HostFunction::GetMetadata {
                scope: MetadataScope::Account
            },
            &args
        ),
        Ok(TxRequest::GetMetadata {
            owner: MetadataOwner::Account(12),
            key: s("quota"),
        })
    );
    let args = vec![str_arg("3"), str_arg("note")];
    assert_eq!(
        extract_args(
            HostFunction::DeleteMetadata {
                scope: MetadataScope::Vertex
            },
            &args
        ),
        Ok(TxRequest::DeleteMetadata {
            owner: MetadataOwner::Vertex(3),
            key: s("note"),
        })
    );
    let args = vec![str_arg("3"), str_arg("knows"), str_arg("4"), str_arg("seen")];
    assert_eq!(
        extract_args(
            HostFunction::GetMetadata {
                scope: MetadataScope::Edge
            },
            &args
        ),
        Ok(TxRequest::GetMetadata {
            owner: MetadataOwner::Edge {
                outbound_id: 3,
                t: s("knows"),
                inbound_id: 4,
            },
            key: s("seen"),
        })
    );
}

#[test]
fn direct_extractors_report_their_positions() {
    let args = vec![str_arg("ok")];
    assert_eq!(get_string_param(&args, 1), Ok(s("ok")));
    assert_eq!(
        get_string_param(&args, 2),
        Err(LuaError::Arg(2, s("Expected string")))
    );
    assert_eq!(
        get_offset_param(&args, 1),
        Err(LuaError::Arg(1, s("Expected number")))
    );
    let args = vec![num(1.0)];
    assert_eq!(get_weight_param(&args, 1), Ok(1.0f64.to_bits()));
    let args = vec![num(-1.0000001)];
    assert_eq!(
        get_weight_param(&args, 1),
        Err(LuaError::Arg(1, s("Weight must be between -1.0 and 1.0")))
    );
}

#[test]
fn malformed_optional_timestamp_errors_at_its_position() {
    let args = vec![
        str_arg("9"),
        str_arg("knows"),
        str_arg("soon"),
        str_arg(""),
        num(10.0),
    ];
    let req = extract_args(HostFunction::GetEdgeTimeRange { reversed: false }, &args);
    assert_eq!(req, Err(LuaError::Arg(3, s("Expected i64 as string"))));
}

#[test]
fn over_deep_metadata_value_is_rejected() {
    let mut v = NativeValue::Table(vec![]);
    for _ in 0..70 {
        v = NativeValue::Table(vec![(s("k"), v)]);
    }
    let args = vec![str_arg("theme"), v];
    let req = extract_args(
        HostFunction::SetMetadata {
            scope: MetadataScope::Global,
        },
        &args,
    );
    assert_eq!(req, Err(LuaError::Arg(2, s("Value is nested too deeply"))));
}

#[test]
fn metadata_value_marshals_tables_through_the_marshaler() {
    let args = vec![
        str_arg("conf"),
        NativeValue::Table(vec![(s("on"), NativeValue::Boolean(true))]),
    ];
    let req = extract_args(
        HostFunction::SetMetadata {
            scope: MetadataScope::Global,
        },
        &args,
    );
    assert_eq!(
        req,
        Ok(TxRequest::SetMetadata {
            owner: MetadataOwner::Global,
            key: s("conf"),
            value: JsonValue::Object(vec![(s("on"), JsonValue::Bool(true))]),
        })
    );
}

#[test]
fn vertex_outcome_renders_as_a_table() {
    let outcome = TxOutcome::Vertex(VertexData {
        id: 7,
        t: s("person"),
        properties: JsonValue::Object(vec![(s("age"), JsonValue::F64(30.0f64.to_bits()))]),
    });
    let vs = render_result(&outcome).expect("vertex renders");
    assert_eq!(vs.len(), 1);
    assert_eq!(
        vs[0],
        NativeValue::Table(vec![
            (s("id"), str_arg("7")),
            (s("type"), str_arg("person")),
            (
                s("properties"),
                NativeValue::Table(vec![(s("age"), num(30.0))])
            ),
        ])
    );
}

#[test]
fn edge_list_outcome_renders_numbered_edge_tables() {
    let outcome = TxOutcome::Edges(vec![EdgeData {
        outbound_id: 1,
        t: s("knows"),
        inbound_id: 2,
        weight_bits: 0.5f64.to_bits(),
    }]);
    let vs = render_result(&outcome).expect("edges render");
    assert_eq!(vs.len(), 1);
    assert_eq!(
        vs[0],
        NativeValue::Table(vec![(
            s("1"),
            NativeValue::Table(vec![
                (s("outbound_id"), str_arg("1")),
                (s("type"), str_arg("knows")),
                (s("inbound_id"), str_arg("2")),
                (s("weight"), num(0.5)),
            ])
        )])
    );
}

#[test]
fn unit_id_and_count_outcomes_render_by_the_integer_convention() {
    assert_eq!(render_result(&TxOutcome::Unit), Ok(vec![]));
    assert_eq!(
        render_result(&TxOutcome::Id(1152921504606846976)),
        Ok(vec![str_arg("1152921504606846976")])
    );
    assert_eq!(
        render_result(&TxOutcome::Count(3)),
        Ok(vec![str_arg("3")])
    );
}

#[test]
fn failed_operations_flatten_into_one_generic_error() {
    assert_eq!(
        render_result(&TxOutcome::Failure(TxFailure::VertexNotFound)),
        Err(LuaError::Generic(s("Vertex does not exist")))
    );
    assert_eq!(
        render_result(&TxOutcome::Failure(TxFailure::Unexpected(s("io lost")))),
        Err(LuaError::Generic(s("Unexpected error: io lost")))
    );
    assert_eq!(
        render_result(&TxOutcome::Failure(TxFailure::AccountNotFound)),
        Err(LuaError::Generic(s("Account not found")))
    );
    assert_eq!(
        render_result(&TxOutcome::Failure(TxFailure::EdgeNotFound)),
        Err(LuaError::Generic(s("Edge does not exist")))
    );
    assert_eq!(
        render_result(&TxOutcome::Failure(TxFailure::MetadataNotFound)),
        Err(LuaError::Generic(s("Metadata does not exist")))
    );
    assert_eq!(
        render_result(&TxOutcome::Failure(TxFailure::OutOfRange(s("weight")))),
        Err(LuaError::Generic(s("Value out of range: weight")))
    );
}

#[test]
fn registry_names_are_stable() {
    let table = registry();
    assert_eq!(table.len(), 25);
    assert_eq!(table[0].0, s("get_vertex"));
    assert_eq!(table[0].1, HostFunction::GetVertex);
    assert_eq!(table[9].0, s("get_edge_time_range"));
    assert_eq!(
        table[12].1,
        HostFunction::GetEdgeTimeRange { reversed: true }
    );
    assert_eq!(table[24].0, s("delete_edge_metadata"));
    assert_eq!(
        table[24].1,
        HostFunction::DeleteMetadata {
            scope: MetadataScope::Edge
        }
    );
}

#[test]
fn successful_run_commits_and_returns_the_stack_value() {
    let mut st = ExecState::Created;
    assert_eq!(next_action(&st), ExecAction::LoadSource);
    st = step(st, ExecEvent::Load(LoadOutcome::Success));
    assert_eq!(next_action(&st), ExecAction::BindGlobals);
    st = step(st, ExecEvent::Bind);
    assert_eq!(next_action(&st), ExecAction::InvokeScript);
    st = step(st, ExecEvent::Invoke(InvokeOutcome::Success(Some(num(2.0)))));
    assert_eq!(next_action(&st), ExecAction::CommitTransaction);
    st = step(st, ExecEvent::Commit(CommitOutcome::Success));
    assert_eq!(next_action(&st), ExecAction::Done);
    assert_eq!(finish(st), Ok(JsonValue::F64(2.0f64.to_bits())));
}

#[test]
fn run_with_no_stack_value_returns_null() {
    let mut st = ExecState::Created;
    st = step(st, ExecEvent::Load(LoadOutcome::Success));
    st = step(st, ExecEvent::Bind);
    st = step(st, ExecEvent::Invoke(InvokeOutcome::Success(None)));
    st = step(st, ExecEvent::Commit(CommitOutcome::Success));
    assert_eq!(finish(st), Ok(JsonValue::Null));
}

#[test]
fn syntax_error_aborts_before_any_commit_is_demanded() {
    let st = step(
        ExecState::Created,
        ExecEvent::Load(LoadOutcome::Failure(
            LoadFailure::Syntax,
            s("unexpected symbol near ')'"),
        )),
    );
    assert_eq!(next_action(&st), ExecAction::Done);
    assert_eq!(
        finish(st),
        Err(ScriptError::Syntax(s("unexpected symbol near ')'")))
    );
}

#[test]
fn runtime_failure_aborts_uncommitted() {
    let mut st = ExecState::Created;
    st = step(st, ExecEvent::Load(LoadOutcome::Success));
    st = step(st, ExecEvent::Bind);
    st = step(
        st,
        ExecEvent::Invoke(InvokeOutcome::Failure(
            CallFailure::Runtime,
            s("bad argument #1 to 'delete_vertex'"),
        )),
    );
    assert_eq!(next_action(&st), ExecAction::Done);
    assert_eq!(
        finish(st),
        Err(ScriptError::Runtime(s("bad argument #1 to 'delete_vertex'")))
    );
}

#[test]
fn memory_and_unrecognized_failures_classify_as_spec_says() {
    assert_eq!(
        ScriptError::new_from_loaderror(LoadFailure::OutOfMemory, s("")),
        ScriptError::Memory
    );
    assert_eq!(
        ScriptError::new_from_pcallerror(CallFailure::OutOfMemory, s("")),
        ScriptError::Memory
    );
    assert_eq!(
        ScriptError::new_from_pcallerror(CallFailure::Unrecognized, s("")),
        ScriptError::Panicked(s("Unknown pcall error"))
    );
}

#[test]
fn commit_failure_reports_a_distinct_runtime_message() {
    let mut st = ExecState::Created;
    st = step(st, ExecEvent::Load(LoadOutcome::Success));
    st = step(st, ExecEvent::Bind);
    st = step(st, ExecEvent::Invoke(InvokeOutcome::Success(None)));
    st = step(st, ExecEvent::Commit(CommitOutcome::Failure(s("deadlock"))));
    assert_eq!(
        finish(st),
        Err(ScriptError::Runtime(s(
            "Could not commit script transaction: deadlock"
        )))
    );
}

#[test]
fn out_of_order_events_abort_the_execution() {
    let st = step(ExecState::Created, ExecEvent::Bind);
    assert_eq!(
        finish(st),
        Err(ScriptError::Panicked(s("Unexpected execution event")))
    );
    let st = step(ExecState::Loaded, ExecEvent::Commit(CommitOutcome::Success));
    assert!(matches!(st, ExecState::Aborted(ScriptError::Panicked(_))));
}
