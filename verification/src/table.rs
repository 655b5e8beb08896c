//! The table of `ref` bindings under watch, in the order in which they
//! were first seen.
use vstd::prelude::*;
use rustc_data_structures::fx::FxIndexMap;
use crate::base::Applicability;

verus! {

/// `indexmap::IndexMap`, the insertion-ordered hash map that holds the
/// table. Nothing is claimed of the type itself; what a table holds is
/// [`entries`].
#[verifier::external_type_specification]
#[verifier::external_body]
#[verifier::reject_recursive_types(K)]
#[verifier::reject_recursive_types(V)]
#[verifier::reject_recursive_types(S)]
pub struct ExIndexMap<K, V, S>(indexmap::IndexMap<K, V, S>);

/// `rustc_hash::FxHasher`, the hasher of the table, as
/// `rustc_data_structures::fx` hands it on. Nothing is claimed of the type.
#[verifier::external_type_specification]
#[verifier::external_body]
pub struct ExFxHasher(rustc_data_structures::fx::FxHasher);

/// `std::hash::BuildHasherDefault`, the builder of the table's hasher.
/// Nothing is claimed of the type.
#[verifier::external_type_specification]
#[verifier::external_body]
#[verifier::reject_recursive_types(H)]
pub struct ExBuildHasherDefault<H>(std::hash::BuildHasherDefault<H>);

/// What is known of a `ref` binding that binds a reference.
#[derive(Debug)]
pub struct RefPat {
    /// Whether every use of the binding so far is dereferenced.
    pub always_deref: bool,
    /// The places of all patterns that introduce the binding.
    pub spans: Vec<rustc_span::Span>,
    /// How far the edits can be trusted.
    pub app: Applicability,
    /// The edits that remove the `ref` and adjust the uses.
    pub replacements: Vec<(rustc_span::Span, String)>,
    /// The node of the first pattern.
    pub hir_id: u64,
}

/// A binding record as a mathematical value.
pub struct RefPatView {
    pub always_deref: bool,
    pub spans: Seq<rustc_span::Span>,
    pub app: Applicability,
    pub replacements: Seq<(rustc_span::Span, Seq<char>)>,
    pub hir_id: u64,
}

/// The edits as mathematical values.
pub open spec fn edits_view(edits: Seq<(rustc_span::Span, String)>) -> Seq<
    (rustc_span::Span, Seq<char>),
> {
    edits.map_values(|e: (rustc_span::Span, String)| (e.0, e.1@))
}

impl View for RefPat {
    type V = RefPatView;

    open spec fn view(&self) -> RefPatView {
        RefPatView {
            always_deref: self.always_deref,
            spans: self.spans@,
            app: self.app,
            replacements: edits_view(self.replacements@),
            hir_id: self.hir_id,
        }
    }
}

/// The table type: from the node of a binding to its record, or to nothing
/// where the binding was seen and must not be reported.
pub type RefLocals = FxIndexMap<u64, Option<RefPat>>;

/// What an `FxIndexMap` holds: its entries, in the order in which their
/// keys were first inserted. The wrappers below say how each method that
/// the tracker calls changes them.
pub uninterp spec fn entries(table: RefLocals) -> Seq<(u64, Option<RefPat>)>;

/// The keys of the entries, in their order.
pub open spec fn keys(entries: Seq<(u64, Option<RefPat>)>) -> Seq<u64> {
    entries.map_values(|e: (u64, Option<RefPat>)| e.0)
}

/// The entries as mathematical values.
pub open spec fn entries_view(entries: Seq<(u64, Option<RefPat>)>) -> Seq<
    (u64, Option<RefPatView>),
> {
    entries.map_values(
        |e: (u64, Option<RefPat>)|
            (
                e.0,
                match e.1 {
                    Some(p) => Some(p@),
                    None => None,
                },
            ),
    )
}

/// The keys of entries given as mathematical values.
pub open spec fn view_keys(entries: Seq<(u64, Option<RefPatView>)>) -> Seq<u64> {
    entries.map_values(|e: (u64, Option<RefPatView>)| e.0)
}

/// The first position of `key` among `keys`, where it is there.
pub open spec fn position(keys: Seq<u64>, key: u64) -> Option<int> {
    if keys.contains(key) {
        Some(keys.index_of(key))
    } else {
        None
    }
}

/// Whether no key occurs twice.
pub open spec fn distinct(keys: Seq<u64>) -> bool {
    forall|i: int, j: int| 0 <= i < j < keys.len() ==> keys[i] != keys[j]
}

/// `IndexMap::default`: a table without entries.
#[verifier::external_body]
pub(crate) fn table_new() -> (table: RefLocals)
    ensures
        entries(table) == Seq::<(u64, Option<RefPat>)>::empty(),
{
    FxIndexMap::default()
}

/// `IndexMap::contains_key`: whether the table has an entry whose key is
/// `key`.
#[verifier::external_body]
pub(crate) fn table_contains(table: &RefLocals, key: u64) -> (r: bool)
    ensures
        r == keys(entries(*table)).contains(key),
{
    table.contains_key(&key)
}

/// `IndexMap::insert`: where the table has an entry for `key`, the entry
/// keeps its place, takes `value` and the value it had is returned; else
/// the new entry goes last and nothing is returned.
#[verifier::external_body]
pub(crate) fn table_insert(table: &mut RefLocals, key: u64, value: Option<RefPat>) -> (r: Option<
    Option<RefPat>,
>)
    ensures
        match position(keys(entries(*old(table))), key) {
            Some(i) => r == Some(entries(*old(table))[i].1) && entries(*final(table)) == entries(
                *old(table),
            ).update(i, (key, value)),
            None => r is None && entries(*final(table)) == entries(*old(table)).push((key, value)),
        },
{
    table.insert(key, value)
}

/// `IndexMap::drain` over the full range: hands out all entries in their
/// order and leaves the table empty.
#[verifier::external_body]
pub(crate) fn table_drain(table: &mut RefLocals) -> (r: Vec<(u64, Option<RefPat>)>)
    ensures
        r@ == entries(*old(table)),
        entries(*final(table)) == Seq::<(u64, Option<RefPat>)>::empty(),
{
    table.drain(..).collect()
}

} // verus!
