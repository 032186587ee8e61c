//! The host-function registry: the fixed surface a script can call, with
//! uniform argument extraction and result rendering.
//!
//! Instead of one hand-written trampoline per function, the surface is one
//! declarative table ([`registry`]) of names and [`HostFunction`] values,
//! processed by two verified entry points:
//!
//! * [`extract_args`] reads and validates every positional argument of a
//!   call and yields a typed [`TxRequest`] — or the first argument error,
//!   in which case no request exists, so no transactional side effect can
//!   occur for a call whose own arguments are invalid.
//! * [`render_result`] turns the transaction's outcome into the values the
//!   host function returns to the script, or flattens a failed operation
//!   into one generic error carrying the failure's description.
//!
//! The unverified runner in between only performs the request against the
//! real store and reports what happened.

use vstd::prelude::*;
use vstd::string::*;

use crate::errors::{LuaError, LuaErrorV};
use crate::extract::{
    get_id_param, get_limit_param, get_obj_param, get_offset_param, get_optional_datetime_param,
    get_string_param, get_weight_param, get_json_param, spec_id_arg, spec_json_arg,
    spec_limit_arg, spec_obj_arg, spec_offset_arg, spec_opt_i64_arg, spec_string_arg,
    spec_weight_arg,
};
use crate::json::{JsonV, JsonValue};
use crate::marshal::{spec_to_native, to_native};
use crate::native::{stack_view, NativeV, NativeValue};
use crate::num::{dec_digits, u64_to_dec_string};

verus! {

/// The four ownership scopes of metadata.
#[derive(Debug, Clone, Copy, PartialEq, Eq, Structural)]
pub enum MetadataScope {
    Global,
    Account,
    Vertex,
    Edge,
}

/// One host function of the fixed surface.
#[derive(Debug, Clone, Copy, PartialEq, Eq, Structural)]
pub enum HostFunction {
    GetVertex,
    CreateVertex,
    SetVertex,
    DeleteVertex,
    GetEdge,
    SetEdge,
    DeleteEdge,
    GetEdgeCount { reversed: bool },
    GetEdgeRange { reversed: bool },
    GetEdgeTimeRange { reversed: bool },
    GetMetadata { scope: MetadataScope },
    SetMetadata { scope: MetadataScope },
    DeleteMetadata { scope: MetadataScope },
}

/// Who owns a piece of metadata.
#[derive(Debug, PartialEq)]
pub enum MetadataOwner {
    Global,
    Account(u64),
    Vertex(u64),
    Edge { outbound_id: u64, t: String, inbound_id: u64 },
}

/// The mathematical view of a [`MetadataOwner`].
pub enum MetadataOwnerV {
    Global,
    Account(u64),
    Vertex(u64),
    Edge { outbound_id: u64, t: Seq<char>, inbound_id: u64 },
}

impl MetadataOwner {
    /// The mathematical owner this executable owner stands for.
    pub open spec fn view(&self) -> MetadataOwnerV {
        match self {
            MetadataOwner::Global => MetadataOwnerV::Global,
            MetadataOwner::Account(id) => MetadataOwnerV::Account(*id),
            MetadataOwner::Vertex(id) => MetadataOwnerV::Vertex(*id),
            MetadataOwner::Edge { outbound_id, t, inbound_id } => MetadataOwnerV::Edge {
                outbound_id: *outbound_id,
                t: t@,
                inbound_id: *inbound_id,
            },
        }
    }
}

/// One typed, fully validated transaction operation, as produced from a
/// host-function call's arguments.  Weights are carried as the double's
/// bit pattern; timestamps as Unix epoch seconds.
#[derive(Debug, PartialEq)]
pub enum TxRequest {
    GetVertex { id: u64 },
    CreateVertex { t: String, properties: JsonValue },
    SetVertex { id: u64, t: String, properties: JsonValue },
    DeleteVertex { id: u64 },
    GetEdge { outbound_id: u64, t: String, inbound_id: u64 },
    SetEdge { outbound_id: u64, t: String, inbound_id: u64, weight_bits: u64, properties: JsonValue },
    DeleteEdge { outbound_id: u64, t: String, inbound_id: u64 },
    GetEdgeCount { outbound_id: u64, t: String, reversed: bool },
    GetEdgeRange { outbound_id: u64, t: String, offset: u64, limit: u16, reversed: bool },
    GetEdgeTimeRange {
        outbound_id: u64,
        t: String,
        high: Option<i64>,
        low: Option<i64>,
        limit: u16,
        reversed: bool,
    },
    GetMetadata { owner: MetadataOwner, key: String },
    SetMetadata { owner: MetadataOwner, key: String, value: JsonValue },
    DeleteMetadata { owner: MetadataOwner, key: String },
}

/// The mathematical view of a [`TxRequest`].
pub enum TxRequestV {
    GetVertex { id: u64 },
    CreateVertex { t: Seq<char>, properties: JsonV },
    SetVertex { id: u64, t: Seq<char>, properties: JsonV },
    DeleteVertex { id: u64 },
    GetEdge { outbound_id: u64, t: Seq<char>, inbound_id: u64 },
    SetEdge {
        outbound_id: u64,
        t: Seq<char>,
        inbound_id: u64,
        weight_bits: u64,
        properties: JsonV,
    },
    DeleteEdge { outbound_id: u64, t: Seq<char>, inbound_id: u64 },
    GetEdgeCount { outbound_id: u64, t: Seq<char>, reversed: bool },
    GetEdgeRange { outbound_id: u64, t: Seq<char>, offset: u64, limit: u16, reversed: bool },
    GetEdgeTimeRange {
        outbound_id: u64,
        t: Seq<char>,
        high: Option<i64>,
        low: Option<i64>,
        limit: u16,
        reversed: bool,
    },
    GetMetadata { owner: MetadataOwnerV, key: Seq<char> },
    SetMetadata { owner: MetadataOwnerV, key: Seq<char>, value: JsonV },
    DeleteMetadata { owner: MetadataOwnerV, key: Seq<char> },
}

impl TxRequest {
    /// The mathematical request this executable request stands for.
    pub open spec fn view(&self) -> TxRequestV {
        match self {
            TxRequest::GetVertex { id } => TxRequestV::GetVertex { id: *id },
            TxRequest::CreateVertex { t, properties } => TxRequestV::CreateVertex {
                t: t@,
                properties: properties@,
            },
            TxRequest::SetVertex { id, t, properties } => TxRequestV::SetVertex {
                id: *id,
                t: t@,
                properties: properties@,
            },
            TxRequest::DeleteVertex { id } => TxRequestV::DeleteVertex { id: *id },
            TxRequest::GetEdge { outbound_id, t, inbound_id } => TxRequestV::GetEdge {
                outbound_id: *outbound_id,
                t: t@,
                inbound_id: *inbound_id,
            },
            TxRequest::SetEdge { outbound_id, t, inbound_id, weight_bits, properties } => {
                TxRequestV::SetEdge {
                    outbound_id: *outbound_id,
                    t: t@,
                    inbound_id: *inbound_id,
                    weight_bits: *weight_bits,
                    properties: properties@,
                }
            },
            TxRequest::DeleteEdge { outbound_id, t, inbound_id } => TxRequestV::DeleteEdge {
                outbound_id: *outbound_id,
                t: t@,
                inbound_id: *inbound_id,
            },
            TxRequest::GetEdgeCount { outbound_id, t, reversed } => TxRequestV::GetEdgeCount {
                outbound_id: *outbound_id,
                t: t@,
                reversed: *reversed,
            },
            TxRequest::GetEdgeRange { outbound_id, t, offset, limit, reversed } => {
                TxRequestV::GetEdgeRange {
                    outbound_id: *outbound_id,
                    t: t@,
                    offset: *offset,
                    limit: *limit,
                    reversed: *reversed,
                }
            },
            TxRequest::GetEdgeTimeRange { outbound_id, t, high, low, limit, reversed } => {
                TxRequestV::GetEdgeTimeRange {
                    outbound_id: *outbound_id,
                    t: t@,
                    high: *high,
                    low: *low,
                    limit: *limit,
                    reversed: *reversed,
                }
            },
            TxRequest::GetMetadata { owner, key } => TxRequestV::GetMetadata {
                owner: owner@,
                key: key@,
            },
            TxRequest::SetMetadata { owner, key, value } => TxRequestV::SetMetadata {
                owner: owner@,
                key: key@,
                value: value@,
            },
            TxRequest::DeleteMetadata { owner, key } => TxRequestV::DeleteMetadata {
                owner: owner@,
                key: key@,
            },
        }
    }
}

/// What extracting a metadata owner for `scope` yields: the owner and the
/// 1-based position of the first argument after it.
pub open spec fn spec_metadata_owner(scope: MetadataScope, args: Seq<NativeValue>) -> Result<
    (MetadataOwnerV, int),
    LuaErrorV,
> {
    match scope {
        MetadataScope::Global => Ok((MetadataOwnerV::Global, 1int)),
        MetadataScope::Account => match spec_id_arg(args, 1) {
            Ok(id) => Ok((MetadataOwnerV::Account(id), 2int)),
            Err(e) => Err(e),
        },
        MetadataScope::Vertex => match spec_id_arg(args, 1) {
            Ok(id) => Ok((MetadataOwnerV::Vertex(id), 2int)),
            Err(e) => Err(e),
        },
        MetadataScope::Edge => match spec_id_arg(args, 1) {
            Err(e) => Err(e),
            Ok(outbound_id) => match spec_string_arg(args, 2) {
                Err(e) => Err(e),
                Ok(t) => match spec_id_arg(args, 3) {
                    Err(e) => Err(e),
                    Ok(inbound_id) => Ok(
                        (MetadataOwnerV::Edge { outbound_id, t, inbound_id }, 4int),
                    ),
                },
            },
        },
    }
}

/// What extracting and validating all arguments of `f` yields: the typed
/// request, or the first argument error, exactly as the extractors'
/// specs compose.
pub open spec fn spec_extract(f: HostFunction, args: Seq<NativeValue>) -> Result<
    TxRequestV,
    LuaErrorV,
> {
    match f {
        HostFunction::GetVertex => match spec_id_arg(args, 1) {
            Ok(id) => Ok(TxRequestV::GetVertex { id }),
            Err(e) => Err(e),
        },
        HostFunction::CreateVertex => match spec_string_arg(args, 1) {
            Err(e) => Err(e),
            Ok(t) => match spec_obj_arg(args, 2) {
                Err(e) => Err(e),
                Ok(properties) => Ok(TxRequestV::CreateVertex { t, properties }),
            },
        },
        HostFunction::SetVertex => match spec_id_arg(args, 1) {
            Err(e) => Err(e),
            Ok(id) => match spec_string_arg(args, 2) {
                Err(e) => Err(e),
                Ok(t) => match spec_obj_arg(args, 3) {
                    Err(e) => Err(e),
                    Ok(properties) => Ok(TxRequestV::SetVertex { id, t, properties }),
                },
            },
        },
        HostFunction::DeleteVertex => match spec_id_arg(args, 1) {
            Ok(id) => Ok(TxRequestV::DeleteVertex { id }),
            Err(e) => Err(e),
        },
        HostFunction::GetEdge => match spec_edge_key(args) {
            Ok((outbound_id, t, inbound_id)) => Ok(
                TxRequestV::GetEdge { outbound_id, t, inbound_id },
            ),
            Err(e) => Err(e),
        },
        HostFunction::SetEdge => match spec_edge_key(args) {
            Err(e) => Err(e),
            Ok((outbound_id, t, inbound_id)) => match spec_weight_arg(args, 4) {
                Err(e) => Err(e),
                Ok(weight_bits) => match spec_obj_arg(args, 5) {
                    Err(e) => Err(e),
                    Ok(properties) => Ok(
                        TxRequestV::SetEdge {
                            outbound_id,
                            t,
                            inbound_id,
                            weight_bits,
                            properties,
                        },
                    ),
                },
            },
        },
        HostFunction::DeleteEdge => match spec_edge_key(args) {
            Ok((outbound_id, t, inbound_id)) => Ok(
                TxRequestV::DeleteEdge { outbound_id, t, inbound_id },
            ),
            Err(e) => Err(e),
        },
        HostFunction::GetEdgeCount { reversed } => match spec_id_arg(args, 1) {
            Err(e) => Err(e),
            Ok(outbound_id) => match spec_string_arg(args, 2) {
                Err(e) => Err(e),
                Ok(t) => Ok(TxRequestV::GetEdgeCount { outbound_id, t, reversed }),
            },
        },
        HostFunction::GetEdgeRange { reversed } => match spec_id_arg(args, 1) {
            Err(e) => Err(e),
            Ok(outbound_id) => match spec_string_arg(args, 2) {
                Err(e) => Err(e),
                Ok(t) => match spec_offset_arg(args, 3) {
                    Err(e) => Err(e),
                    Ok(offset) => match spec_limit_arg(args, 4) {
                        Err(e) => Err(e),
                        Ok(limit) => Ok(
                            TxRequestV::GetEdgeRange { outbound_id, t, offset, limit, reversed },
                        ),
                    },
                },
            },
        },
        HostFunction::GetEdgeTimeRange { reversed } => match spec_id_arg(args, 1) {
            Err(e) => Err(e),
            Ok(outbound_id) => match spec_string_arg(args, 2) {
                Err(e) => Err(e),
                Ok(t) => match spec_opt_i64_arg(args, 3) {
                    Err(e) => Err(e),
                    Ok(high) => match spec_opt_i64_arg(args, 4) {
                        Err(e) => Err(e),
                        Ok(low) => match spec_limit_arg(args, 5) {
                            Err(e) => Err(e),
                            Ok(limit) => Ok(
                                TxRequestV::GetEdgeTimeRange {
                                    outbound_id,
                                    t,
                                    high,
                                    low,
                                    limit,
                                    reversed,
                                },
                            ),
                        },
                    },
                },
            },
        },
        HostFunction::GetMetadata { scope } => match spec_metadata_owner(scope, args) {
            Err(e) => Err(e),
            Ok((owner, pos)) => match spec_string_arg(args, pos) {
                Err(e) => Err(e),
                Ok(key) => Ok(TxRequestV::GetMetadata { owner, key }),
            },
        },
        HostFunction::SetMetadata { scope } => match spec_metadata_owner(scope, args) {
            Err(e) => Err(e),
            Ok((owner, pos)) => match spec_string_arg(args, pos) {
                Err(e) => Err(e),
                Ok(key) => match spec_json_arg(args, pos + 1) {
                    Err(e) => Err(e),
                    Ok(value) => Ok(TxRequestV::SetMetadata { owner, key, value }),
                },
            },
        },
        HostFunction::DeleteMetadata { scope } => match spec_metadata_owner(scope, args) {
            Err(e) => Err(e),
            Ok((owner, pos)) => match spec_string_arg(args, pos) {
                Err(e) => Err(e),
                Ok(key) => Ok(TxRequestV::DeleteMetadata { owner, key }),
            },
        },
    }
}

/// The declarative registration table: every name a script can call, with
/// the host function it denotes.  A runner registers exactly these names
/// against one dispatcher; the surface is stable in names and positional
/// contracts.
pub fn registry() -> (r: Vec<(String, HostFunction)>)
    ensures
        r@.len() == 25,
        r@[0].0@ == "get_vertex"@ && r@[0].1 == HostFunction::GetVertex,
        r@[1].0@ == "create_vertex"@ && r@[1].1 == HostFunction::CreateVertex,
        r@[2].0@ == "set_vertex"@ && r@[2].1 == HostFunction::SetVertex,
        r@[3].0@ == "delete_vertex"@ && r@[3].1 == HostFunction::DeleteVertex,
        r@[4].0@ == "get_edge"@ && r@[4].1 == HostFunction::GetEdge,
        r@[5].0@ == "set_edge"@ && r@[5].1 == HostFunction::SetEdge,
        r@[6].0@ == "delete_edge"@ && r@[6].1 == HostFunction::DeleteEdge,
        r@[7].0@ == "get_edge_count"@ && r@[7].1 == (HostFunction::GetEdgeCount {
            reversed: false,
        }),
        r@[8].0@ == "get_edge_range"@ && r@[8].1 == (HostFunction::GetEdgeRange {
            reversed: false,
        }),
        r@[9].0@ == "get_edge_time_range"@ && r@[9].1 == (HostFunction::GetEdgeTimeRange {
            reversed: false,
        }),
        r@[10].0@ == "get_reversed_edge_count"@ && r@[10].1 == (HostFunction::GetEdgeCount {
            reversed: true,
        }),
        r@[11].0@ == "get_reversed_edge_range"@ && r@[11].1 == (HostFunction::GetEdgeRange {
            reversed: true,
        }),
        r@[12].0@ == "get_reversed_edge_time_range"@ && r@[12].1 == (
        HostFunction::GetEdgeTimeRange { reversed: true }),
        r@[13].0@ == "get_global_metadata"@ && r@[13].1 == (HostFunction::GetMetadata {
            scope: MetadataScope::Global,
        }),
        r@[14].0@ == "set_global_metadata"@ && r@[14].1 == (HostFunction::SetMetadata {
            scope: MetadataScope::Global,
        }),
        r@[15].0@ == "delete_global_metadata"@ && r@[15].1 == (HostFunction::DeleteMetadata {
            scope: MetadataScope::Global,
        }),
        r@[16].0@ == "get_account_metadata"@ && r@[16].1 == (HostFunction::GetMetadata {
            scope: MetadataScope::Account,
        }),
        r@[17].0@ == "set_account_metadata"@ && r@[17].1 == (HostFunction::SetMetadata {
            scope: MetadataScope::Account,
        }),
        r@[18].0@ == "delete_account_metadata"@ && r@[18].1 == (HostFunction::DeleteMetadata {
            scope: MetadataScope::Account,
        }),
        r@[19].0@ == "get_vertex_metadata"@ && r@[19].1 == (HostFunction::GetMetadata {
            scope: MetadataScope::Vertex,
        }),
        r@[20].0@ == "set_vertex_metadata"@ && r@[20].1 == (HostFunction::SetMetadata {
            scope: MetadataScope::Vertex,
        }),
        r@[21].0@ == "delete_vertex_metadata"@ && r@[21].1 == (HostFunction::DeleteMetadata {
            scope: MetadataScope::Vertex,
        }),
        r@[22].0@ == "get_edge_metadata"@ && r@[22].1 == (HostFunction::GetMetadata {
            scope: MetadataScope::Edge,
        }),
        r@[23].0@ == "set_edge_metadata"@ && r@[23].1 == (HostFunction::SetMetadata {
            scope: MetadataScope::Edge,
        }),
        r@[24].0@ == "delete_edge_metadata"@ && r@[24].1 == (HostFunction::DeleteMetadata {
            scope: MetadataScope::Edge,
        }),
{
    let mut r: Vec<(String, HostFunction)> = Vec::new();
    r.push((String::from_str("get_vertex"), HostFunction::GetVertex));
    r.push((String::from_str("create_vertex"), HostFunction::CreateVertex));
    r.push((String::from_str("set_vertex"), HostFunction::SetVertex));
    r.push((String::from_str("delete_vertex"), HostFunction::DeleteVertex));
    r.push((String::from_str("get_edge"), HostFunction::GetEdge));
    r.push((String::from_str("set_edge"), HostFunction::SetEdge));
    r.push((String::from_str("delete_edge"), HostFunction::DeleteEdge));
    r.push((String::from_str("get_edge_count"), HostFunction::GetEdgeCount { reversed: false }));
    r.push((String::from_str("get_edge_range"), HostFunction::GetEdgeRange { reversed: false }));
    r.push(
        (
            String::from_str("get_edge_time_range"),
            HostFunction::GetEdgeTimeRange { reversed: false },
        ),
    );
    r.push(
        (
            String::from_str("get_reversed_edge_count"),
            HostFunction::GetEdgeCount { reversed: true },
        ),
    );
    r.push(
        (
            String::from_str("get_reversed_edge_range"),
            HostFunction::GetEdgeRange { reversed: true },
        ),
    );
    r.push(
        (
            String::from_str("get_reversed_edge_time_range"),
            HostFunction::GetEdgeTimeRange { reversed: true },
        ),
    );
    r.push(
        (
            String::from_str("get_global_metadata"),
            HostFunction::GetMetadata { scope: MetadataScope::Global },
        ),
    );
    r.push(
        (
            String::from_str("set_global_metadata"),
            HostFunction::SetMetadata { scope: MetadataScope::Global },
        ),
    );
    r.push(
        (
            String::from_str("delete_global_metadata"),
            HostFunction::DeleteMetadata { scope: MetadataScope::Global },
        ),
    );
    r.push(
        (
            String::from_str("get_account_metadata"),
            HostFunction::GetMetadata { scope: MetadataScope::Account },
        ),
    );
    r.push(
        (
            String::from_str("set_account_metadata"),
            HostFunction::SetMetadata { scope: MetadataScope::Account },
        ),
    );
    r.push(
        (
            String::from_str("delete_account_metadata"),
            HostFunction::DeleteMetadata { scope: MetadataScope::Account },
        ),
    );
    r.push(
        (
            String::from_str("get_vertex_metadata"),
            HostFunction::GetMetadata { scope: MetadataScope::Vertex },
        ),
    );
    r.push(
        (
            String::from_str("set_vertex_metadata"),
            HostFunction::SetMetadata { scope: MetadataScope::Vertex },
        ),
    );
    r.push(
        (
            String::from_str("delete_vertex_metadata"),
            HostFunction::DeleteMetadata { scope: MetadataScope::Vertex },
        ),
    );
    r.push(
        (
            String::from_str("get_edge_metadata"),
            HostFunction::GetMetadata { scope: MetadataScope::Edge },
        ),
    );
    r.push(
        (
            String::from_str("set_edge_metadata"),
            HostFunction::SetMetadata { scope: MetadataScope::Edge },
        ),
    );
    r.push(
        (
            String::from_str("delete_edge_metadata"),
            HostFunction::DeleteMetadata { scope: MetadataScope::Edge },
        ),
    );
    r
}

/// What extracting an edge key (outbound id, type, inbound id) at
/// positions 1..=3 yields.
pub open spec fn spec_edge_key(args: Seq<NativeValue>) -> Result<
    (u64, Seq<char>, u64),
    LuaErrorV,
> {
    match spec_id_arg(args, 1) {
        Err(e) => Err(e),
        Ok(outbound_id) => match spec_string_arg(args, 2) {
            Err(e) => Err(e),
            Ok(t) => match spec_id_arg(args, 3) {
                Err(e) => Err(e),
                Ok(inbound_id) => Ok((outbound_id, t, inbound_id)),
            },
        },
    }
}

/// Reads the edge key at positions 1..=3.
fn extract_edge_key(args: &Vec<NativeValue>) -> (r: Result<(u64, String, u64), LuaError>)
    ensures
        r matches Ok(k) ==> spec_edge_key(args@) == Ok::<(u64, Seq<char>, u64), LuaErrorV>(
            (k.0, k.1@, k.2),
        ),
        r matches Err(e) ==> spec_edge_key(args@) == Err::<(u64, Seq<char>, u64), LuaErrorV>(e@),
{
    let outbound_id = match get_id_param(args, 1) {
        Ok(v) => v,
        Err(e) => {
            return Err(e);
        },
    };
    let t = match get_string_param(args, 2) {
        Ok(v) => v,
        Err(e) => {
            return Err(e);
        },
    };
    let inbound_id = match get_id_param(args, 3) {
        Ok(v) => v,
        Err(e) => {
            return Err(e);
        },
    };
    Ok((outbound_id, t, inbound_id))
}

/// Reads the metadata owner for `scope`, returning it with the 1-based
/// position of the first argument after it.
fn extract_metadata_owner(scope: MetadataScope, args: &Vec<NativeValue>) -> (r: Result<
    (MetadataOwner, i32),
    LuaError,
>)
    ensures
        r matches Ok(k) ==> spec_metadata_owner(scope, args@) == Ok::<
            (MetadataOwnerV, int),
            LuaErrorV,
        >((k.0@, k.1 as int)),
        r matches Err(e) ==> spec_metadata_owner(scope, args@) == Err::<
            (MetadataOwnerV, int),
            LuaErrorV,
        >(e@),
{
    match scope {
        MetadataScope::Global => Ok((MetadataOwner::Global, 1)),
        MetadataScope::Account => match get_id_param(args, 1) {
            Ok(id) => Ok((MetadataOwner::Account(id), 2)),
            Err(e) => Err(e),
        },
        MetadataScope::Vertex => match get_id_param(args, 1) {
            Ok(id) => Ok((MetadataOwner::Vertex(id), 2)),
            Err(e) => Err(e),
        },
        MetadataScope::Edge => match extract_edge_key(args) {
            Ok((outbound_id, t, inbound_id)) => Ok(
                (MetadataOwner::Edge { outbound_id, t, inbound_id }, 4),
            ),
            Err(e) => Err(e),
        },
    }
}

/// Reads and validates every positional argument of a call of `f`,
/// yielding the typed transaction request or the first argument error.
/// No request — and so no transactional side effect — exists for a call
/// whose own arguments are invalid.
pub fn extract_args(f: HostFunction, args: &Vec<NativeValue>) -> (r: Result<TxRequest, LuaError>)
    ensures
        r matches Ok(req) ==> spec_extract(f, args@) == Ok::<TxRequestV, LuaErrorV>(req@),
        r matches Err(e) ==> spec_extract(f, args@) == Err::<TxRequestV, LuaErrorV>(e@),
{
    match f {
        HostFunction::GetVertex => match get_id_param(args, 1) {
            Ok(id) => Ok(TxRequest::GetVertex { id }),
            Err(e) => Err(e),
        },
        HostFunction::CreateVertex => {
            let t = match get_string_param(args, 1) {
                Ok(v) => v,
                Err(e) => {
                    return Err(e);
                },
            };
            let properties = match get_obj_param(args, 2) {
                Ok(v) => v,
                Err(e) => {
                    return Err(e);
                },
            };
            Ok(TxRequest::CreateVertex { t, properties })
        },
        HostFunction::SetVertex => {
            let id = match get_id_param(args, 1) {
                Ok(v) => v,
                Err(e) => {
                    return Err(e);
                },
            };
            let t = match get_string_param(args, 2) {
                Ok(v) => v,
                Err(e) => {
                    return Err(e);
                },
            };
            let properties = match get_obj_param(args, 3) {
                Ok(v) => v,
                Err(e) => {
                    return Err(e);
                },
            };
            Ok(TxRequest::SetVertex { id, t, properties })
        },
        HostFunction::DeleteVertex => match get_id_param(args, 1) {
            Ok(id) => Ok(TxRequest::DeleteVertex { id }),
            Err(e) => Err(e),
        },
        HostFunction::GetEdge => match extract_edge_key(args) {
            Ok((outbound_id, t, inbound_id)) => Ok(
                TxRequest::GetEdge { outbound_id, t, inbound_id },
            ),
            Err(e) => Err(e),
        },
        HostFunction::SetEdge => {
            let (outbound_id, t, inbound_id) = match extract_edge_key(args) {
                Ok(v) => v,
                Err(e) => {
                    return Err(e);
                },
            };
            let weight_bits = match get_weight_param(args, 4) {
                Ok(v) => v,
                Err(e) => {
                    return Err(e);
                },
            };
            let properties = match get_obj_param(args, 5) {
                Ok(v) => v,
                Err(e) => {
                    return Err(e);
                },
            };
            Ok(TxRequest::SetEdge { outbound_id, t, inbound_id, weight_bits, properties })
        },
        HostFunction::DeleteEdge => match extract_edge_key(args) {
            Ok((outbound_id, t, inbound_id)) => Ok(
                TxRequest::DeleteEdge { outbound_id, t, inbound_id },
            ),
            Err(e) => Err(e),
        },
        HostFunction::GetEdgeCount { reversed } => {
            let outbound_id = match get_id_param(args, 1) {
                Ok(v) => v,
                Err(e) => {
                    return Err(e);
                },
            };
            let t = match get_string_param(args, 2) {
                Ok(v) => v,
                Err(e) => {
                    return Err(e);
                },
            };
            Ok(TxRequest::GetEdgeCount { outbound_id, t, reversed })
        },
        HostFunction::GetEdgeRange { reversed } => {
            let outbound_id = match get_id_param(args, 1) {
                Ok(v) => v,
                Err(e) => {
                    return Err(e);
                },
            };
            let t = match get_string_param(args, 2) {
                Ok(v) => v,
                Err(e) => {
                    return Err(e);
                },
            };
            let offset = match get_offset_param(args, 3) {
                Ok(v) => v,
                Err(e) => {
                    return Err(e);
                },
            };
            let limit = match get_limit_param(args, 4) {
                Ok(v) => v,
                Err(e) => {
                    return Err(e);
                },
            };
            Ok(TxRequest::GetEdgeRange { outbound_id, t, offset, limit, reversed })
        },
        HostFunction::GetEdgeTimeRange { reversed } => {
            let outbound_id = match get_id_param(args, 1) {
                Ok(v) => v,
                Err(e) => {
                    return Err(e);
                },
            };
            let t = match get_string_param(args, 2) {
                Ok(v) => v,
                Err(e) => {
                    return Err(e);
                },
            };
            let high = match get_optional_datetime_param(args, 3) {
                Ok(v) => v,
                Err(e) => {
                    return Err(e);
                },
            };
            let low = match get_optional_datetime_param(args, 4) {
                Ok(v) => v,
                Err(e) => {
                    return Err(e);
                },
            };
            let limit = match get_limit_param(args, 5) {
                Ok(v) => v,
                Err(e) => {
                    return Err(e);
                },
            };
            Ok(TxRequest::GetEdgeTimeRange { outbound_id, t, high, low, limit, reversed })
        },
        HostFunction::GetMetadata { scope } => {
            let (owner, pos) = match extract_metadata_owner(scope, args) {
                Ok(v) => v,
                Err(e) => {
                    return Err(e);
                },
            };
            let key = match get_string_param(args, pos) {
                Ok(v) => v,
                Err(e) => {
                    return Err(e);
                },
            };
            Ok(TxRequest::GetMetadata { owner, key })
        },
        HostFunction::SetMetadata { scope } => {
            let (owner, pos) = match extract_metadata_owner(scope, args) {
                Ok(v) => v,
                Err(e) => {
                    return Err(e);
                },
            };
            let key = match get_string_param(args, pos) {
                Ok(v) => v,
                Err(e) => {
                    return Err(e);
                },
            };
            let value = match get_json_param(args, pos + 1) {
                Ok(v) => v,
                Err(e) => {
                    return Err(e);
                },
            };
            Ok(TxRequest::SetMetadata { owner, key, value })
        },
        HostFunction::DeleteMetadata { scope } => {
            let (owner, pos) = match extract_metadata_owner(scope, args) {
                Ok(v) => v,
                Err(e) => {
                    return Err(e);
                },
            };
            let key = match get_string_param(args, pos) {
                Ok(v) => v,
                Err(e) => {
                    return Err(e);
                },
            };
            Ok(TxRequest::DeleteMetadata { owner, key })
        },
    }
}

} // verus!
