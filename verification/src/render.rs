//! Rendering of transaction outcomes into host-function return values.
//!
//! The transaction collaborator reports one [`TxOutcome`] per performed
//! request.  [`render_result`] turns it into exactly the values the host
//! function pushes back to the script: identifiers and counts as decimal
//! strings (the integer convention of the bridge), vertices and edges as
//! tables, metadata as the marshaled JSON value.  A failed operation is
//! flattened into one generic [`LuaError`] carrying the failure's
//! description — the structured kind is intentionally not preserved past
//! this point.

use vstd::prelude::*;
use vstd::string::*;

use crate::errors::{LuaError, LuaErrorV};
use crate::json::{JsonV, JsonValue};
use crate::marshal::{spec_to_native, to_native};
use crate::native::{stack_view, NativeV, NativeValue};
use crate::num::{dec_digits, u64_to_dec_string};
use crate::registry::HostFunction;

verus! {

broadcast use vstd::std_specs::vec::group_vec_axioms;

/// A vertex as the transaction reports it.
#[derive(Debug, PartialEq)]
pub struct VertexData {
    pub id: u64,
    pub t: String,
    pub properties: JsonValue,
}

/// The mathematical view of a [`VertexData`].
pub struct VertexDataV {
    pub id: u64,
    pub t: Seq<char>,
    pub properties: JsonV,
}

impl VertexData {
    /// The mathematical vertex this executable vertex stands for.
    pub open spec fn view(&self) -> VertexDataV {
        VertexDataV { id: self.id, t: self.t@, properties: self.properties@ }
    }
}

/// An edge as the transaction reports it; the weight is the double's bit
/// pattern.
#[derive(Debug, PartialEq)]
pub struct EdgeData {
    pub outbound_id: u64,
    pub t: String,
    pub inbound_id: u64,
    pub weight_bits: u64,
}

/// The mathematical view of an [`EdgeData`].
pub struct EdgeDataV {
    pub outbound_id: u64,
    pub t: Seq<char>,
    pub inbound_id: u64,
    pub weight_bits: u64,
}

impl EdgeData {
    /// The mathematical edge this executable edge stands for.
    pub open spec fn view(&self) -> EdgeDataV {
        EdgeDataV {
            outbound_id: self.outbound_id,
            t: self.t@,
            inbound_id: self.inbound_id,
            weight_bits: self.weight_bits,
        }
    }
}

/// How a transaction operation failed.  The collaborator distinguishes
/// not-found, out-of-range and unexpected categories; the bridge only
/// needs that the distinction exists, and flattens it to a description.
#[derive(Debug, PartialEq)]
pub enum TxFailure {
    AccountNotFound,
    VertexNotFound,
    EdgeNotFound,
    MetadataNotFound,
    OutOfRange(String),
    Unexpected(String),
}

/// The mathematical view of a [`TxFailure`].
pub enum TxFailureV {
    AccountNotFound,
    VertexNotFound,
    EdgeNotFound,
    MetadataNotFound,
    OutOfRange(Seq<char>),
    Unexpected(Seq<char>),
}

impl TxFailure {
    /// The mathematical failure this executable failure stands for.
    pub open spec fn view(&self) -> TxFailureV {
        match self {
            TxFailure::AccountNotFound => TxFailureV::AccountNotFound,
            TxFailure::VertexNotFound => TxFailureV::VertexNotFound,
            TxFailure::EdgeNotFound => TxFailureV::EdgeNotFound,
            TxFailure::MetadataNotFound => TxFailureV::MetadataNotFound,
            TxFailure::OutOfRange(m) => TxFailureV::OutOfRange(m@),
            TxFailure::Unexpected(m) => TxFailureV::Unexpected(m@),
        }
    }
}

/// What one performed transaction request came to.
#[derive(Debug, PartialEq)]
pub enum TxOutcome {
    Unit,
    Id(u64),
    Vertex(VertexData),
    Edge(EdgeData),
    Count(u64),
    Edges(Vec<EdgeData>),
    Json(JsonValue),
    Failure(TxFailure),
}

/// The mathematical view of a [`TxOutcome`].
pub enum TxOutcomeV {
    Unit,
    Id(u64),
    Vertex(VertexDataV),
    Edge(EdgeDataV),
    Count(u64),
    Edges(Seq<EdgeDataV>),
    Json(JsonV),
    Failure(TxFailureV),
}

impl TxOutcome {
    /// The mathematical outcome this executable outcome stands for.
    pub open spec fn view(&self) -> TxOutcomeV {
        match self {
            TxOutcome::Unit => TxOutcomeV::Unit,
            TxOutcome::Id(id) => TxOutcomeV::Id(*id),
            TxOutcome::Vertex(v) => TxOutcomeV::Vertex(v@),
            TxOutcome::Edge(e) => TxOutcomeV::Edge(e@),
            TxOutcome::Count(c) => TxOutcomeV::Count(*c),
            TxOutcome::Edges(es) => TxOutcomeV::Edges(
                Seq::new(
                    es@.len(),
                    |i: int|
                        if 0 <= i < es@.len() {
                            es@[i]@
                        } else {
                            arbitrary()
                        },
                ),
            ),
            TxOutcome::Json(j) => TxOutcomeV::Json(j@),
            TxOutcome::Failure(f) => TxOutcomeV::Failure(f@),
        }
    }
}

/// The description a failed operation is reported with.
pub open spec fn spec_tx_failure_message(f: TxFailureV) -> Seq<char> {
    match f {
        TxFailureV::AccountNotFound => "Account not found"@,
        TxFailureV::VertexNotFound => "Vertex does not exist"@,
        TxFailureV::EdgeNotFound => "Edge does not exist"@,
        TxFailureV::MetadataNotFound => "Metadata does not exist"@,
        TxFailureV::OutOfRange(m) => "Value out of range: "@ + m,
        TxFailureV::Unexpected(m) => "Unexpected error: "@ + m,
    }
}

/// The table a vertex is returned as: its identifier as a decimal string,
/// its type verbatim, its properties marshaled in.
pub open spec fn spec_vertex_table(v: VertexDataV) -> NativeV {
    NativeV::Table(
        seq![
            ("id"@, NativeV::Str(dec_digits(v.id as nat))),
            ("type"@, NativeV::Str(v.t)),
            ("properties"@, spec_to_native(v.properties)),
        ],
    )
}

/// The table an edge is returned as: endpoint identifiers as decimal
/// strings, its type verbatim, its weight as a number.
pub open spec fn spec_edge_table(e: EdgeDataV) -> NativeV {
    NativeV::Table(
        seq![
            ("outbound_id"@, NativeV::Str(dec_digits(e.outbound_id as nat))),
            ("type"@, NativeV::Str(e.t)),
            ("inbound_id"@, NativeV::Str(dec_digits(e.inbound_id as nat))),
            ("weight"@, NativeV::Number(e.weight_bits)),
        ],
    )
}

/// The table an edge list is returned as, keyed "1".."n" in order.
pub open spec fn spec_edges_table(es: Seq<EdgeDataV>) -> NativeV {
    NativeV::Table(
        Seq::new(
            es.len(),
            |i: int|
                if 0 <= i < es.len() {
                    (dec_digits((i + 1) as nat), spec_edge_table(es[i]))
                } else {
                    arbitrary()
                },
        ),
    )
}

/// What rendering an outcome yields: the host function's return values,
/// or the flattened generic error of a failed operation.
pub open spec fn spec_render(o: TxOutcomeV) -> Result<Seq<NativeV>, LuaErrorV> {
    match o {
        TxOutcomeV::Unit => Ok(Seq::empty()),
        TxOutcomeV::Id(id) => Ok(seq![NativeV::Str(dec_digits(id as nat))]),
        TxOutcomeV::Vertex(v) => Ok(seq![spec_vertex_table(v)]),
        TxOutcomeV::Edge(e) => Ok(seq![spec_edge_table(e)]),
        TxOutcomeV::Count(c) => Ok(seq![NativeV::Str(dec_digits(c as nat))]),
        TxOutcomeV::Edges(es) => Ok(seq![spec_edges_table(es)]),
        TxOutcomeV::Json(j) => Ok(seq![spec_to_native(j)]),
        TxOutcomeV::Failure(f) => Err(LuaErrorV::Generic(spec_tx_failure_message(f))),
    }
}

/// Builds the executable vertex table.
fn vertex_table(v: &VertexData) -> (r: NativeValue)
    ensures
        r@ == spec_vertex_table(v@),
{
    let mut entries: Vec<(String, NativeValue)> = Vec::new();
    entries.push((String::from_str("id"), NativeValue::String(u64_to_dec_string(v.id))));
    entries.push((String::from_str("type"), NativeValue::String(v.t.clone())));
    entries.push((String::from_str("properties"), to_native(&v.properties)));
    let r = NativeValue::Table(entries);
    proof {
        assert(entries@.len() == 3);
        assert(entries@[0].0@ == "id"@);
        assert(entries@[0].1@ == NativeV::Str(dec_digits(v.id as nat)));
        assert(entries@[1].0@ == "type"@);
        assert(entries@[1].1@ == NativeV::Str(v.t@));
        assert(entries@[2].0@ == "properties"@);
        assert(entries@[2].1@ == spec_to_native(v.properties@));
        assert(spec_vertex_table(v@).table_entries().len() == 3);
        assert(r@.table_entries() =~= spec_vertex_table(v@).table_entries());
        assert(r@ =~= spec_vertex_table(v@));
    }
    r
}

/// Builds the executable edge table.
fn edge_table(e: &EdgeData) -> (r: NativeValue)
    ensures
        r@ == spec_edge_table(e@),
{
    let mut entries: Vec<(String, NativeValue)> = Vec::new();
    entries.push(
        (String::from_str("outbound_id"), NativeValue::String(u64_to_dec_string(e.outbound_id))),
    );
    entries.push((String::from_str("type"), NativeValue::String(e.t.clone())));
    entries.push(
        (String::from_str("inbound_id"), NativeValue::String(u64_to_dec_string(e.inbound_id))),
    );
    entries.push((String::from_str("weight"), NativeValue::Number(e.weight_bits)));
    let r = NativeValue::Table(entries);
    proof {
        assert(entries@.len() == 4);
        assert(entries@[0].0@ == "outbound_id"@);
        assert(entries@[0].1@ == NativeV::Str(dec_digits(e.outbound_id as nat)));
        assert(entries@[1].0@ == "type"@);
        assert(entries@[1].1@ == NativeV::Str(e.t@));
        assert(entries@[2].0@ == "inbound_id"@);
        assert(entries@[2].1@ == NativeV::Str(dec_digits(e.inbound_id as nat)));
        assert(entries@[3].0@ == "weight"@);
        assert(entries@[3].1@ == NativeV::Number(e.weight_bits));
        assert(spec_edge_table(e@).table_entries().len() == 4);
        assert(r@.table_entries() =~= spec_edge_table(e@).table_entries());
        assert(r@ =~= spec_edge_table(e@));
    }
    r
}

/// Builds the executable edge-list table, keyed "1".."n".
#[verifier::loop_isolation(false)]
fn edges_table(es: &Vec<EdgeData>) -> (r: NativeValue)
    ensures
        r@ == spec_edges_table(
            Seq::new(
                es@.len(),
                |i: int|
                    if 0 <= i < es@.len() {
                        es@[i]@
                    } else {
                        arbitrary()
                    },
            ),
        ),
{
    let mut entries: Vec<(String, NativeValue)> = Vec::new();
    let mut idx: usize = 0;
    while idx < es.len()
        invariant
            idx <= es.len(),
            entries@.len() == idx,
            forall|k: int|
                0 <= k < idx ==> (#[trigger] entries@[k]).0@ == dec_digits((k + 1) as nat)
                    && entries@[k].1@ == spec_edge_table(es@[k]@),
        decreases es.len() - idx,
    {
        let key = u64_to_dec_string((idx as u64) + 1);
        let val = edge_table(&es[idx]);
        entries.push((key, val));
        idx = idx + 1;
    }
    let r = NativeValue::Table(entries);
    proof {
        let ghost esv = Seq::new(
            es@.len(),
            |i: int|
                if 0 <= i < es@.len() {
                    es@[i]@
                } else {
                    arbitrary()
                },
        );
        assert(r@.table_entries() =~= spec_edges_table(esv).table_entries());
        assert(r@ =~= spec_edges_table(esv));
    }
    r
}

/// The description string of a failed operation.
fn tx_failure_message(f: &TxFailure) -> (r: String)
    ensures
        r@ == spec_tx_failure_message(f@),
{
    match f {
        TxFailure::AccountNotFound => String::from_str("Account not found"),
        TxFailure::VertexNotFound => String::from_str("Vertex does not exist"),
        TxFailure::EdgeNotFound => String::from_str("Edge does not exist"),
        TxFailure::MetadataNotFound => String::from_str("Metadata does not exist"),
        TxFailure::OutOfRange(m) => String::from_str("Value out of range: ").concat(m.as_str()),
        TxFailure::Unexpected(m) => String::from_str("Unexpected error: ").concat(m.as_str()),
    }
}

/// Renders a transaction outcome into the host function's return values,
/// or flattens a failed operation into one generic error.
pub fn render_result(outcome: &TxOutcome) -> (r: Result<Vec<NativeValue>, LuaError>)
    ensures
        r matches Ok(vs) ==> spec_render(outcome@) == Ok::<Seq<NativeV>, LuaErrorV>(
            stack_view(vs@),
        ),
        r matches Err(e) ==> spec_render(outcome@) == Err::<Seq<NativeV>, LuaErrorV>(e@),
{
    match outcome {
        TxOutcome::Unit => {
            let vs: Vec<NativeValue> = Vec::new();
            proof {
                assert(stack_view(vs@) =~= Seq::<NativeV>::empty());
            }
            Ok(vs)
        },
        TxOutcome::Id(id) => {
            let vs = vec![NativeValue::String(u64_to_dec_string(*id))];
            proof {
                assert(stack_view(vs@) =~= seq![NativeV::Str(dec_digits(*id as nat))]);
            }
            Ok(vs)
        },
        TxOutcome::Vertex(v) => {
            let vs = vec![vertex_table(v)];
            proof {
                assert(stack_view(vs@) =~= seq![spec_vertex_table(v@)]);
            }
            Ok(vs)
        },
        TxOutcome::Edge(e) => {
            let vs = vec![edge_table(e)];
            proof {
                assert(stack_view(vs@) =~= seq![spec_edge_table(e@)]);
            }
            Ok(vs)
        },
        TxOutcome::Count(c) => {
            let vs = vec![NativeValue::String(u64_to_dec_string(*c))];
            proof {
                assert(stack_view(vs@) =~= seq![NativeV::Str(dec_digits(*c as nat))]);
            }
            Ok(vs)
        },
        TxOutcome::Edges(es) => {
            let vs = vec![edges_table(es)];
            proof {
                assert(stack_view(vs@) =~= spec_render(outcome@)->Ok_0);
            }
            Ok(vs)
        },
        TxOutcome::Json(j) => {
            let vs = vec![to_native(j)];
            proof {
                assert(stack_view(vs@) =~= seq![spec_to_native(j@)]);
            }
            Ok(vs)
        },
        TxOutcome::Failure(f) => Err(LuaError::Generic(tx_failure_message(f))),
    }
}

/// How many values each host function returns to the script.
pub open spec fn return_arity(f: HostFunction) -> nat {
    match f {
        HostFunction::GetVertex => 1,
        HostFunction::CreateVertex => 1,
        HostFunction::SetVertex => 0,
        HostFunction::DeleteVertex => 0,
        HostFunction::GetEdge => 1,
        HostFunction::SetEdge => 0,
        HostFunction::DeleteEdge => 0,
        HostFunction::GetEdgeCount { .. } => 1,
        HostFunction::GetEdgeRange { .. } => 1,
        HostFunction::GetEdgeTimeRange { .. } => 1,
        HostFunction::GetMetadata { .. } => 1,
        HostFunction::SetMetadata { .. } => 0,
        HostFunction::DeleteMetadata { .. } => 0,
    }
}

/// The collaborator contract on outcomes: which outcome shapes each host
/// function's transaction operation may report (besides a failure, which
/// every operation may report).
pub open spec fn outcome_matches(f: HostFunction, o: TxOutcomeV) -> bool {
    o is Failure || match f {
        HostFunction::GetVertex => o is Vertex,
        HostFunction::CreateVertex => o is Id,
        HostFunction::SetVertex => o is Unit,
        HostFunction::DeleteVertex => o is Unit,
        HostFunction::GetEdge => o is Edge,
        HostFunction::SetEdge => o is Unit,
        HostFunction::DeleteEdge => o is Unit,
        HostFunction::GetEdgeCount { .. } => o is Count,
        HostFunction::GetEdgeRange { .. } => o is Edges,
        HostFunction::GetEdgeTimeRange { .. } => o is Edges,
        HostFunction::GetMetadata { .. } => o is Json,
        HostFunction::SetMetadata { .. } => o is Unit,
        HostFunction::DeleteMetadata { .. } => o is Unit,
    }
}

/// Every handler pushes exactly its declared number of return values: an
/// outcome that respects the collaborator contract renders to
/// [`return_arity`] values.
pub proof fn lemma_render_arity(f: HostFunction, o: TxOutcomeV)
    requires
        outcome_matches(f, o),
        spec_render(o) is Ok,
    ensures
        spec_render(o)->Ok_0.len() == return_arity(f),
{
}

} // verus!
