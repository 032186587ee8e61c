//! The interpreter-side value model: the tagged union
//! {Nil, Boolean, Number, String, Table}.
//!
//! [`NativeValue`] is the executable form; [`NativeV`] is its mathematical
//! view.  A number is carried as the raw IEEE-754 bit pattern of the
//! interpreter's double.  The interpreter's own tables may key entries by
//! strings or by numbers; the bridge pins one explicit contract for its
//! model: every key is a string, with number keys already in their decimal
//! form.  Under that pin an array crossing the boundary becomes a table
//! keyed "1".."n", and reading any table back stringifies nothing —
//! the documented shape asymmetry of the round trip.

use vstd::prelude::*;

verus! {

broadcast use vstd::std_specs::vec::group_vec_axioms;

/// The mathematical interpreter value.
#[verifier::ext_equal]
pub enum NativeV {
    Nil,
    Boolean(bool),
    /// IEEE-754 bit pattern of the double.
    Number(u64),
    Str(Seq<char>),
    Table(Seq<(Seq<char>, NativeV)>),
}

/// The executable interpreter value.  `Number` holds the raw bit pattern of
/// the double; the unverified boundary converts with `f64::to_bits` /
/// `f64::from_bits` when it moves values to and from the interpreter stack.
#[derive(Debug, PartialEq)]
pub enum NativeValue {
    Nil,
    Boolean(bool),
    Number(u64),
    String(String),
    Table(Vec<(String, NativeValue)>),
}

impl NativeValue {
    /// The mathematical value this executable value stands for.
    pub open spec fn view(&self) -> NativeV
        decreases self,
    {
        match self {
            NativeValue::Nil => NativeV::Nil,
            NativeValue::Boolean(b) => NativeV::Boolean(*b),
            NativeValue::Number(bits) => NativeV::Number(*bits),
            NativeValue::String(s) => NativeV::Str(s@),
            NativeValue::Table(v) => NativeV::Table(
                Seq::new(
                    v@.len(),
                    |i: int|
                        if 0 <= i < v@.len() {
                            (v@[i].0@, v@[i].1.view())
                        } else {
                            arbitrary()
                        },
                ),
            ),
        }
    }
}

impl NativeV {
    /// The entry list of a table (empty for every other value).
    pub open spec fn table_entries(self) -> Seq<(Seq<char>, NativeV)> {
        match self {
            NativeV::Table(entries) => entries,
            _ => Seq::empty(),
        }
    }

    /// The characters of a string value (empty for every other value).
    pub open spec fn as_str(self) -> Seq<char> {
        match self {
            NativeV::Str(s) => s,
            _ => Seq::empty(),
        }
    }

    /// The bit pattern of a number value (zero for every other value).
    pub open spec fn as_number_bits(self) -> u64 {
        match self {
            NativeV::Number(bits) => bits,
            _ => 0,
        }
    }
}

/// The mathematical view of a list of executable values (a host function's
/// argument or return stack).
pub open spec fn stack_view(vs: Seq<NativeValue>) -> Seq<NativeV> {
    Seq::new(
        vs.len(),
        |i: int|
            if 0 <= i < vs.len() {
                vs[i]@
            } else {
                arbitrary()
            },
    )
}

/// Whether the keys of a table's entry list are unique.
pub open spec fn table_keys_unique(entries: Seq<(Seq<char>, NativeV)>) -> bool {
    forall|i: int, j: int| 0 <= i < j < entries.len() ==> entries[i].0 != entries[j].0
}

/// Well-formedness of an interpreter value: every table, at every depth,
/// has unique keys.
pub open spec fn native_wf(n: NativeV) -> bool
    decreases n,
{
    match n {
        NativeV::Table(entries) => table_keys_unique(entries) && forall|i: int|
            0 <= i < entries.len() ==> native_wf(#[trigger] entries[i].1),
        _ => true,
    }
}

/// Nesting depth of a value: atoms have depth 0, a table is one deeper
/// than its deepest entry.
pub open spec fn native_depth(n: NativeV) -> nat
    decreases n,
{
    match n {
        NativeV::Table(entries) => 1 + table_depth(entries),
        _ => 0,
    }
}

/// The deepest value held by a table's entries (0 for an empty table).
pub open spec fn table_depth(entries: Seq<(Seq<char>, NativeV)>) -> nat
    decreases entries,
{
    if entries.len() == 0 {
        0
    } else {
        let head = native_depth(entries[0].1);
        let rest = table_depth(entries.drop_first());
        if head >= rest {
            head
        } else {
            rest
        }
    }
}

/// Every entry of a table lies within the table's depth bound.
pub proof fn lemma_table_depth_ge(entries: Seq<(Seq<char>, NativeV)>, i: int)
    requires
        0 <= i < entries.len(),
    ensures
        table_depth(entries) >= native_depth(entries[i].1),
    decreases entries.len(),
{
    if i > 0 {
        lemma_table_depth_ge(entries.drop_first(), i - 1);
        assert(entries.drop_first()[i - 1] == entries[i]);
    }
}

/// A bound on every entry bounds the whole table's depth.
pub proof fn lemma_table_depth_le(entries: Seq<(Seq<char>, NativeV)>, d: nat)
    requires
        forall|i: int| 0 <= i < entries.len() ==> native_depth(#[trigger] entries[i].1) <= d,
    ensures
        table_depth(entries) <= d,
    decreases entries.len(),
{
    if entries.len() > 0 {
        assert(native_depth(entries[0].1) <= d);
        assert(forall|i: int|
            0 <= i < entries.drop_first().len() ==> native_depth(
                #[trigger] entries.drop_first()[i].1,
            ) <= d);
        lemma_table_depth_le(entries.drop_first(), d);
    }
}

} // verus!
