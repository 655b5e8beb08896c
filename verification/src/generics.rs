//! Borrowed arguments of generic functions: how many `&` can go without the
//! call ceasing to meet the bounds of the function.
use vstd::prelude::*;
use crate::substitution::{
    args_view, replace_types, spec_replace_run, spec_replace_types, substitute, OpenQuestion,
    Replaced, Substitution,
};
use crate::ty::{Ty, TyKind, TyView};

verus! {

/// The traits that the engine tells apart.
#[derive(Clone, Copy, Debug, PartialEq, Eq, Structural)]
pub enum TraitKind {
    Destruct,
    Sized,
    Any,
    IntoIterator,
    Other,
}

/// An associated item of a trait.
#[derive(Debug)]
pub struct AssocItem {
    /// The type of the `self` parameter, where the item is a method with
    /// one.
    pub self_param: Option<Ty>,
}

/// A bound `self_ty: Trait`.
#[derive(Debug)]
pub struct TraitPredicate {
    pub self_ty: Ty,
    pub kind: TraitKind,
    /// The associated items of the trait, in the order of their definition.
    pub items: Vec<AssocItem>,
}

/// The self type of a projection `<Self as Trait>::Name`.
#[derive(Debug)]
pub enum ProjectionSelf {
    /// Another projection.
    Projection(Box<ProjectionSelf>),
    /// A type parameter, by its index.
    Param(u32),
    Other,
}

/// A bound `<self_ty as Trait>::Name == term`.
#[derive(Debug)]
pub struct ProjectionPredicate {
    pub self_ty: ProjectionSelf,
    /// The index of the type parameter that the projection is bound to,
    /// where it is bound to one.
    pub term_param: Option<u32>,
}

/// A bound on the generics of a function.
#[derive(Debug)]
pub enum Predicate {
    Trait(TraitPredicate),
    Projection(ProjectionPredicate),
    Other,
}

/// One generic argument of a call.
#[derive(Debug)]
pub enum GenericArg {
    Lifetime,
    Type(Ty),
    Const,
}

/// A generic argument as a mathematical value.
pub enum GenericArgView {
    Lifetime,
    Type(TyView),
    Const,
}

impl View for GenericArg {
    type V = GenericArgView;

    open spec fn view(&self) -> GenericArgView {
        match self {
            GenericArg::Lifetime => GenericArgView::Lifetime,
            GenericArg::Type(ty) => GenericArgView::Type(ty@),
            GenericArg::Const => GenericArgView::Const,
        }
    }
}

/// An answer of the host's normaliser: what the projection of bound number
/// `predicate` becomes with `self_ty` as its self type.
#[derive(Debug)]
pub struct Normalization {
    pub predicate: usize,
    pub self_ty: Ty,
    /// The resulting type, where normalising succeeds.
    pub projected: Option<Ty>,
}

/// How the temporary that holds a borrow is made and used in the body of
/// the function around it.
#[derive(Clone, Copy, Debug, PartialEq, Eq, Structural)]
pub struct ReferenceUse {
    /// How often the temporary is assigned; nothing where the body or the
    /// temporary is not to be had.
    pub assignments: Option<usize>,
    /// Whether the one assignment is a borrow of a place.
    pub assigns_borrow: bool,
    /// Whether that place is reached through a pointer.
    pub place_is_indirect: bool,
    /// Whether the block of the assignment lies on a cycle, so that the
    /// borrow may be made more than once.
    pub in_cycle: bool,
    /// The function or closure whose body holds the borrow.
    pub body_owner: u32,
    /// Whether nothing but the temporary can hold a borrow of the place
    /// where the temporary is assigned.
    pub bounded_borrowers: bool,
    /// Whether the borrowed place is used exactly once, where the host can
    /// tell.
    pub used_exactly_once: Option<bool>,
}

/// One `&` layer of the argument: the expression under it.
#[derive(Debug)]
pub struct Referent {
    /// The type of the expression under the `&`.
    pub ty: Ty,
    pub is_copy: bool,
    pub has_significant_drop: bool,
    /// How the borrow itself is used.
    pub usage: ReferenceUse,
    /// For each bound of the function, whether it holds once this layer has
    /// been substituted for the type parameter.
    pub holds: Vec<bool>,
}

/// The generic environment of a called function.
#[derive(Debug)]
pub struct CallFacts {
    /// How many of the generic parameters belong to the enclosing items.
    pub parent_count: usize,
    /// For each input of the signature, and last for its output, the
    /// indices of the type parameters that occur in it.
    pub sig: Vec<Vec<u32>>,
    /// The bounds that a caller has to meet.
    pub predicates: Vec<Predicate>,
    /// The generic arguments of the call.
    pub args: Vec<GenericArg>,
    /// The answers of the normaliser that the substitution may ask for.
    pub normalizations: Vec<Normalization>,
}

/// What the borrow check of a generic argument works on.
#[derive(Debug)]
pub struct GenericArgFacts {
    pub call: CallFacts,
    /// The `&` layers of the argument, outermost first.
    pub layers: Vec<Referent>,
}

/// A version of the language.
#[derive(Clone, Copy, Debug, PartialEq, Eq, Structural)]
pub struct RustcVersion {
    pub major: u32,
    pub minor: u32,
    pub patch: u32,
}

/// The first version in which arrays can be iterated by value: 1.53.0.
pub open spec fn spec_array_into_iterator() -> RustcVersion {
    RustcVersion { major: 1, minor: 53, patch: 0 }
}

/// The first version in which arrays can be iterated by value: 1.53.0.
#[verifier::when_used_as_spec(spec_array_into_iterator)]
pub fn array_into_iterator() -> (r: RustcVersion)
    ensures
        r == spec_array_into_iterator(),
{
    RustcVersion { major: 1, minor: 53, patch: 0 }
}

impl RustcVersion {
    pub open spec fn spec_meets(self, required: RustcVersion) -> bool {
        self.major > required.major || (self.major == required.major && (self.minor
            > required.minor || (self.minor == required.minor && self.patch >= required.patch)))
    }

    /// Whether this version is `required` or a later one.
    #[verifier::when_used_as_spec(spec_meets)]
    pub fn meets(self, required: RustcVersion) -> (r: bool)
        ensures
            r == self.spec_meets(required),
    {
        self.major > required.major || (self.major == required.major && (self.minor
            > required.minor || (self.minor == required.minor && self.patch >= required.patch)))
    }
}

/// The oldest version of the language that the linted code has to build
/// with, where one is set.
#[derive(Clone, Copy, Debug, PartialEq, Eq, Structural)]
pub struct Msrv {
    pub current: Option<RustcVersion>,
}

impl Default for Msrv {
    /// No oldest version is set.
    fn default() -> (r: Msrv)
        ensures
            r.current is None,
    {
        Msrv { current: None }
    }
}

impl Msrv {
    pub open spec fn spec_meets(self, required: RustcVersion) -> bool {
        match self.current {
            Some(version) => version.spec_meets(required),
            None => true,
        }
    }

    /// Whether code may rely on what `required` brought: always where no
    /// oldest version is set.
    #[verifier::when_used_as_spec(spec_meets)]
    pub fn meets(self, required: RustcVersion) -> (r: bool)
        ensures
            r == self.spec_meets(required),
    {
        match self.current {
            Some(version) => version.meets(required),
            None => true,
        }
    }
}

/// Whether `item` is a method that takes `&mut self`.
pub open spec fn spec_takes_ref_mut_self(item: &AssocItem) -> bool {
    item.self_param matches Some(ty) && ty.spec_is_mut_ref()
}

/// Whether one of `items` is a method that takes `&mut self`.
pub open spec fn spec_has_ref_mut_self_method(items: Seq<AssocItem>) -> bool {
    exists|i: int| 0 <= i < items.len() && spec_takes_ref_mut_self(#[trigger] &items[i])
}

/// Whether the trait with these associated items has a method that takes
/// `&mut self`.
pub fn has_ref_mut_self_method(items: &Vec<AssocItem>) -> (r: bool)
    ensures
        r == spec_has_ref_mut_self_method(items@),
{
    let mut i: usize = 0;
    while i < items.len()
        invariant
            i <= items@.len(),
            forall|j: int| 0 <= j < i ==> !spec_takes_ref_mut_self(#[trigger] &items@[j]),
        decreases items@.len() - i,
    {
        let hit = match &items[i].self_param {
            Some(ty) => ty.is_mut_ref(),
            None => false,
        };
        if hit {
            return true;
        }
        i += 1;
    }
    false
}

/// The self type at the bottom of a nest of projections.
pub open spec fn spec_innermost_self(s: ProjectionSelf) -> ProjectionSelf
    decreases s,
{
    match s {
        ProjectionSelf::Projection(inner) => spec_innermost_self(*inner),
        _ => s,
    }
}

/// Whether the bound ties a projection that starts at a parameter of the
/// function itself to a parameter of the items around it.
pub open spec fn spec_is_mixed_projection_predicate(
    parent_count: usize,
    predicate: &ProjectionPredicate,
) -> bool {
    &&& predicate.term_param matches Some(term)
    &&& (term as int) < parent_count
    &&& spec_innermost_self(predicate.self_ty) matches ProjectionSelf::Param(param)
    &&& (param as int) >= parent_count
}

/// Walks to the bottom of a nest of projections.
fn innermost_self(s: &ProjectionSelf) -> (r: &ProjectionSelf)
    ensures
        *r == spec_innermost_self(*s),
    decreases *s,
{
    match s {
        ProjectionSelf::Projection(inner) => innermost_self(inner),
        _ => s,
    }
}

/// Whether the bound requires the projected type to equal a type parameter
/// of the enclosing context, while the innermost self type of the
/// projection is a type parameter of the function itself. With such a
/// bound, substituting for the one parameter would need a change of the
/// other, which the call cannot make.
pub fn is_mixed_projection_predicate(parent_count: usize, predicate: &ProjectionPredicate) -> (r:
    bool)
    ensures
        r == spec_is_mixed_projection_predicate(parent_count, predicate),
{
    match predicate.term_param {
        Some(term) => {
            if (term as usize) < parent_count {
                match innermost_self(&predicate.self_ty) {
                    ProjectionSelf::Param(param) => (*param as usize) >= parent_count,
                    _ => false,
                }
            } else {
                false
            }
        },
        None => false,
    }
}

impl ReferenceUse {
    /// Whether the borrow is made once, straight from a place, outside
    /// every loop: only then can its uses be counted.
    pub open spec fn spec_is_countable(&self) -> bool {
        &&& self.assignments == Some(1usize)
        &&& self.assigns_borrow
        &&& !self.place_is_indirect
        &&& !self.in_cycle
    }

    /// Whether the referent of the borrow is used exactly once.
    pub open spec fn spec_used_exactly_once(&self) -> bool {
        &&& self.spec_is_countable()
        &&& self.bounded_borrowers
        &&& self.used_exactly_once == Some(true)
    }

    /// The function whose borrowers are remembered after this borrow has
    /// been looked at, `memo` being the one remembered before.
    pub open spec fn spec_memo_after(&self, memo: Option<u32>) -> Option<u32> {
        if self.spec_is_countable() {
            Some(self.body_owner)
        } else {
            memo
        }
    }
}

/// Whether the referent of a borrow is used exactly once, so that it can be
/// moved in place of being borrowed. `memo` is the function whose possible
/// borrowers were worked out last: a borrow in another function takes its
/// place.
pub fn referent_used_exactly_once(memo: &mut Option<u32>, usage: &ReferenceUse) -> (r: bool)
    ensures
        r == usage.spec_used_exactly_once(),
        *final(memo) == usage.spec_memo_after(*old(memo)),
{
    let once = match usage.assignments {
        Some(n) => n == 1,
        None => false,
    };
    if once && usage.assigns_borrow && !usage.place_is_indirect && !usage.in_cycle {
        let known = match *memo {
            Some(owner) => owner == usage.body_owner,
            None => false,
        };
        if !known {
            *memo = Some(usage.body_owner);
        }
        usage.bounded_borrowers && match usage.used_exactly_once {
            Some(b) => b,
            None => false,
        }
    } else {
        false
    }
}

impl TraitKind {
    pub open spec fn spec_is_marker(self) -> bool {
        self == TraitKind::Destruct || self == TraitKind::Sized || self == TraitKind::Any
    }

    /// Whether a bound by this trait asks nothing that a borrow could be
    /// needed for.
    #[verifier::when_used_as_spec(spec_is_marker)]
    pub fn is_marker(self) -> (r: bool)
        ensures
            r == self.spec_is_marker(),
    {
        match self {
            TraitKind::Destruct | TraitKind::Sized | TraitKind::Any => true,
            _ => false,
        }
    }
}

impl Ty {
    pub open spec fn spec_is_param(&self, param: u32) -> bool {
        self.refs@.len() == 0 && self.pointee.kind == TyKind::Param(param)
    }

    /// Whether the type is the type parameter number `param`.
    #[verifier::when_used_as_spec(spec_is_param)]
    pub fn is_param(&self, param: u32) -> (r: bool)
        ensures
            r == self.spec_is_param(param),
    {
        self.refs.len() == 0 && self.pointee.kind == TyKind::Param(param)
    }
}

/// Whether `pred` is a trait bound on the type parameter `param`.
pub open spec fn spec_bounds_param(pred: Predicate, param: u32) -> bool {
    pred matches Predicate::Trait(t) && t.self_ty.spec_is_param(param)
}

/// Whether every trait bound on `param` is a marker bound; so it is where
/// there is none.
pub open spec fn spec_only_marker_bounds(preds: Seq<Predicate>, param: u32) -> bool {
    forall|i: int|
        0 <= i < preds.len() && spec_bounds_param(#[trigger] preds[i], param)
            ==> preds[i]->Trait_0.kind.spec_is_marker()
}

/// Whether a trait bound on `param` has a method that takes `&mut self`.
pub open spec fn spec_ref_mut_bound(preds: Seq<Predicate>, param: u32) -> bool {
    exists|i: int|
        0 <= i < preds.len() && spec_bounds_param(#[trigger] preds[i], param)
            && spec_has_ref_mut_self_method(preds[i]->Trait_0.items@)
}

/// Whether `pred` is a mixed projection bound.
pub open spec fn spec_is_mixed(pred: Predicate, parent_count: usize) -> bool {
    pred matches Predicate::Projection(p) && spec_is_mixed_projection_predicate(parent_count, &p)
}

/// Whether one of the bounds is a mixed projection bound.
pub open spec fn spec_any_mixed(preds: Seq<Predicate>, parent_count: usize) -> bool {
    exists|i: int| 0 <= i < preds.len() && spec_is_mixed(#[trigger] preds[i], parent_count)
}

/// Whether the value under the borrow may be handed over in place of the
/// borrow: it is copied, or it has no destructor worth the name and is
/// used nowhere else.
pub open spec fn spec_may_move(layer: &Referent) -> bool {
    layer.is_copy || (!layer.has_significant_drop && layer.usage.spec_used_exactly_once())
}

/// The function whose borrowers are remembered after `layer` was looked at.
pub open spec fn spec_memo_after_layer(layer: &Referent, memo: Option<u32>) -> Option<u32> {
    if !layer.is_copy && !layer.has_significant_drop {
        layer.usage.spec_memo_after(memo)
    } else {
        memo
    }
}

/// Whether `pred` asks for an array to be iterated by value where the
/// oldest version to build with cannot do that yet.
pub open spec fn spec_array_iteration_too_new(
    pred: Predicate,
    args: Seq<GenericArgView>,
    msrv: Msrv,
) -> bool {
    &&& pred matches Predicate::Trait(t)
    &&& t.kind == TraitKind::IntoIterator
    &&& t.self_ty.refs@.len() == 0
    &&& t.self_ty.pointee.kind matches TyKind::Param(p)
    &&& (p as int) < args.len()
    &&& args[p as int] matches GenericArgView::Type(ty)
    &&& ty.refs.len() == 0
    &&& ty.kind == TyKind::Array
    &&& !msrv.spec_meets(spec_array_into_iterator())
}

/// Whether bound number `i` is met after the substitution that led to
/// `args`, by what the host found (`holds`).
pub open spec fn spec_predicate_holds(
    preds: Seq<Predicate>,
    i: int,
    holds: Seq<bool>,
    args: Seq<GenericArgView>,
    msrv: Msrv,
) -> bool {
    !spec_array_iteration_too_new(preds[i], args, msrv) && i < holds.len() && holds[i]
}

/// Whether every bound is met after the substitution that led to `args`.
pub open spec fn spec_all_hold(
    preds: Seq<Predicate>,
    holds: Seq<bool>,
    args: Seq<GenericArgView>,
    msrv: Msrv,
) -> bool {
    forall|i: int| 0 <= i < preds.len() ==> spec_predicate_holds(preds, i, holds, args, msrv)
}

/// The generic arguments after layer `k` has been peeled, `args` being
/// those before; nothing where the layer has to stay.
pub open spec fn spec_peel(
    facts: &GenericArgFacts,
    arg_index: int,
    param: u32,
    msrv: Msrv,
    k: int,
    args: Seq<GenericArgView>,
) -> Option<Seq<GenericArgView>> {
    let layer = &facts.layers@[k];
    if !spec_may_move(layer) || (spec_ref_mut_bound(facts.call.predicates@, param)
        && !layer.ty.spec_is_mut_ref()) {
        None
    } else {
        match spec_replace_types(
            param,
            layer.ty@,
            facts.call.sig@,
            arg_index,
            facts.call.predicates@,
            facts.call.normalizations@,
            args,
        ) {
            None => None,
            Some(after) => if spec_all_hold(facts.call.predicates@, layer.holds@, after, msrv) {
                Some(after)
            } else {
                None
            },
        }
    }
}

/// How many layers can be peeled from layer `k` on, `args` being the
/// generic arguments as the layers before left them.
pub open spec fn spec_count_from(
    facts: &GenericArgFacts,
    arg_index: int,
    param: u32,
    msrv: Msrv,
    k: int,
    args: Seq<GenericArgView>,
) -> nat
    decreases facts.layers@.len() - k,
{
    if k < 0 || k >= facts.layers@.len() {
        0
    } else {
        match spec_peel(facts, arg_index, param, msrv, k, args) {
            None => 0,
            Some(after) => 1 + spec_count_from(facts, arg_index, param, msrv, k + 1, after),
        }
    }
}

/// The function whose borrowers are remembered after the layers from `k`
/// on have been looked at.
pub open spec fn spec_memo_from(
    facts: &GenericArgFacts,
    arg_index: int,
    param: u32,
    msrv: Msrv,
    k: int,
    args: Seq<GenericArgView>,
    memo: Option<u32>,
) -> Option<u32>
    decreases facts.layers@.len() - k,
{
    if k < 0 || k >= facts.layers@.len() {
        memo
    } else {
        let seen = spec_memo_after_layer(&facts.layers@[k], memo);
        match spec_peel(facts, arg_index, param, msrv, k, args) {
            None => seen,
            Some(after) => spec_memo_from(facts, arg_index, param, msrv, k + 1, after, seen),
        }
    }
}

/// Whether the bounds rule out every removal before a layer is looked at:
/// the parameter has none but marker bounds, or a bound is mixed.
pub open spec fn spec_bounds_forbid(facts: &GenericArgFacts, param: u32) -> bool {
    spec_only_marker_bounds(facts.call.predicates@, param) || spec_any_mixed(
        facts.call.predicates@,
        facts.call.parent_count,
    )
}

/// The number of leading `&` that can be removed from the argument.
pub open spec fn spec_needless_borrow_count(
    facts: &GenericArgFacts,
    arg_index: int,
    param: u32,
    msrv: Msrv,
) -> nat {
    if spec_bounds_forbid(facts, param) {
        0
    } else {
        spec_count_from(facts, arg_index, param, msrv, 0, args_view(facts.call.args@))
    }
}

/// A copy of the generic arguments.
fn duplicate_args(args: &Vec<GenericArg>) -> (r: Vec<GenericArg>)
    ensures
        args_view(r@) == args_view(args@),
{
    let mut r: Vec<GenericArg> = Vec::new();
    let mut i: usize = 0;
    while i < args.len()
        invariant
            i <= args@.len(),
            r@.len() == i,
            forall|j: int| 0 <= j < i ==> r@[j]@ == args@[j]@,
        decreases args@.len() - i,
    {
        let copy = match &args[i] {
            GenericArg::Lifetime => GenericArg::Lifetime,
            GenericArg::Type(ty) => GenericArg::Type(ty.duplicate()),
            GenericArg::Const => GenericArg::Const,
        };
        r.push(copy);
        i += 1;
    }
    r
}

/// Looks through the bounds once: whether all trait bounds on `param` are
/// marker bounds, whether one of them has a method taking `&mut self`, and
/// whether a projection bound is mixed.
fn survey_bounds(preds: &Vec<Predicate>, param: u32, parent_count: usize) -> (r: (bool, bool, bool))
    ensures
        r.0 == spec_only_marker_bounds(preds@, param),
        r.1 == spec_ref_mut_bound(preds@, param),
        r.2 == spec_any_mixed(preds@, parent_count),
{
    let mut only_markers = true;
    let mut ref_mut = false;
    let mut mixed = false;
    let mut i: usize = 0;
    while i < preds.len()
        invariant
            i <= preds@.len(),
            only_markers == forall|j: int|
                0 <= j < i && spec_bounds_param(#[trigger] preds@[j], param)
                    ==> preds@[j]->Trait_0.kind.spec_is_marker(),
            ref_mut == exists|j: int|
                0 <= j < i && spec_bounds_param(#[trigger] preds@[j], param)
                    && spec_has_ref_mut_self_method(preds@[j]->Trait_0.items@),
            mixed == exists|j: int| 0 <= j < i && spec_is_mixed(#[trigger] preds@[j], parent_count),
        decreases preds@.len() - i,
    {
        match &preds[i] {
            Predicate::Trait(t) => {
                if t.self_ty.is_param(param) {
                    if !t.kind.is_marker() {
                        only_markers = false;
                    }
                    if has_ref_mut_self_method(&t.items) {
                        ref_mut = true;
                    }
                }
            },
            Predicate::Projection(p) => {
                if is_mixed_projection_predicate(parent_count, p) {
                    mixed = true;
                }
            },
            Predicate::Other => {},
        }
        i += 1;
    }
    (only_markers, ref_mut, mixed)
}

/// Whether every bound is met after the substitution that led to `args`.
fn all_hold(preds: &Vec<Predicate>, holds: &Vec<bool>, args: &Vec<GenericArg>, msrv: Msrv) -> (r:
    bool)
    ensures
        r == spec_all_hold(preds@, holds@, args_view(args@), msrv),
{
    let mut i: usize = 0;
    while i < preds.len()
        invariant
            i <= preds@.len(),
            forall|j: int|
                0 <= j < i ==> spec_predicate_holds(preds@, j, holds@, args_view(args@), msrv),
        decreases preds@.len() - i,
    {
        let too_new = match &preds[i] {
            Predicate::Trait(t) => {
                if t.kind == TraitKind::IntoIterator && t.self_ty.refs.len() == 0 {
                    match t.self_ty.pointee.kind {
                        TyKind::Param(p) => {
                            if (p as usize) < args.len() {
                                match &args[p as usize] {
                                    GenericArg::Type(ty) => ty.is_array() && !msrv.meets(
                                        array_into_iterator(),
                                    ),
                                    _ => false,
                                }
                            } else {
                                false
                            }
                        },
                        _ => false,
                    }
                } else {
                    false
                }
            },
            _ => false,
        };
        if too_new || i >= holds.len() || !holds[i] {
            assert(!spec_predicate_holds(preds@, i as int, holds@, args_view(args@), msrv));
            return false;
        }
        i += 1;
    }
    true
}

/// The number of borrow expressions that can be removed from an argument
/// passed where the function expects the generic type `param_ty`.
///
/// A `&` can go where the expression under it meets every bound of the
/// function in place of the borrow, the generic type occurs nowhere else in
/// the signature, and the value under the `&` is not missed afterwards.
/// The count stops at the first `&` that has to stay. `memo` is the
/// function whose possible borrowers were worked out last.
pub fn needless_borrow_generic_arg_count(
    memo: &mut Option<u32>,
    facts: &GenericArgFacts,
    arg_index: usize,
    param_ty: u32,
    msrv: Msrv,
) -> (count: usize)
    ensures
        count == spec_needless_borrow_count(facts, arg_index as int, param_ty, msrv),
        *final(memo) == if spec_bounds_forbid(facts, param_ty) {
            *old(memo)
        } else {
            spec_memo_from(
                facts,
                arg_index as int,
                param_ty,
                msrv,
                0,
                args_view(facts.call.args@),
                *old(memo),
            )
        },
{
    let (only_markers, ref_mut, mixed) = survey_bounds(
        &facts.call.predicates,
        param_ty,
        facts.call.parent_count,
    );
    if only_markers || mixed {
        return 0;
    }
    let mut args = duplicate_args(&facts.call.args);
    let mut count: usize = 0;
    while count < facts.layers.len()
        invariant
            count <= facts.layers@.len(),
            !spec_bounds_forbid(facts, param_ty),
            ref_mut == spec_ref_mut_bound(facts.call.predicates@, param_ty),
            spec_count_from(
                facts,
                arg_index as int,
                param_ty,
                msrv,
                0,
                args_view(facts.call.args@),
            ) == count + spec_count_from(
                facts,
                arg_index as int,
                param_ty,
                msrv,
                count as int,
                args_view(args@),
            ),
            spec_memo_from(
                facts,
                arg_index as int,
                param_ty,
                msrv,
                0,
                args_view(facts.call.args@),
                *old(memo),
            ) == spec_memo_from(
                facts,
                arg_index as int,
                param_ty,
                msrv,
                count as int,
                args_view(args@),
                *memo,
            ),
        decreases facts.layers@.len() - count,
    {
        let layer = &facts.layers[count];
        if !layer.is_copy && (layer.has_significant_drop || !referent_used_exactly_once(
            memo,
            &layer.usage,
        )) {
            return count;
        }
        if ref_mut && !layer.ty.is_mut_ref() {
            return count;
        }
        args = match replace_types(
                param_ty,
                &layer.ty,
                &facts.call.sig,
                arg_index,
                &facts.call.predicates,
                &facts.call.normalizations,
                args,
            ) {
            Some(after) => after,
            None => {
                return count;
            },
        };
        if !all_hold(&facts.call.predicates, &layer.holds, &args, msrv) {
            return count;
        }
        count += 1;
    }
    count
}

/// A question to the host that the facts of a call leave open.
#[derive(Debug)]
pub enum Question {
    /// What the projection of bound number `predicate` becomes with
    /// `self_ty` as its self type. The answer goes into the table of
    /// normalisations.
    Normalize { predicate: usize, self_ty: Ty },
    /// Which of the bounds hold with `args` as the generic arguments of the
    /// call. The answers, one for each bound, go with layer number `layer`.
    Holds { layer: usize, args: Vec<GenericArg> },
}

/// A question as a mathematical value.
pub enum QuestionView {
    Normalize(OpenQuestion),
    Holds { layer: int, args: Seq<GenericArgView> },
}

impl View for Question {
    type V = QuestionView;

    open spec fn view(&self) -> QuestionView {
        match self {
            Question::Normalize { predicate, self_ty } => QuestionView::Normalize(
                OpenQuestion { predicate: *predicate as int, self_ty: self_ty@ },
            ),
            Question::Holds { layer, args } => QuestionView::Holds {
                layer: *layer as int,
                args: args_view(args@),
            },
        }
    }
}

/// What looking at a layer comes to where nothing is taken for granted.
pub enum Peel {
    /// The layer can go; the generic arguments after it.
    Done(Seq<GenericArgView>),
    /// The layer has to stay.
    Stays,
    /// The host has to be asked first.
    Ask(QuestionView),
}

/// What looking at layer `k` comes to where every answer has to come from
/// the host, `args` being the generic arguments as the layers before left
/// them.
pub open spec fn spec_peel_strict(
    facts: &GenericArgFacts,
    arg_index: int,
    param: u32,
    msrv: Msrv,
    k: int,
    args: Seq<GenericArgView>,
) -> Peel {
    let layer = &facts.layers@[k];
    if !spec_may_move(layer) || (spec_ref_mut_bound(facts.call.predicates@, param)
        && !layer.ty.spec_is_mut_ref()) {
        Peel::Stays
    } else {
        match spec_replace_run(
            true,
            param,
            layer.ty@,
            facts.call.sig@,
            arg_index,
            facts.call.predicates@,
            facts.call.normalizations@,
            args,
        ) {
            Replaced::Refused => Peel::Stays,
            Replaced::Ask(q) => Peel::Ask(QuestionView::Normalize(q)),
            Replaced::Done(after) => if layer.holds@.len() < facts.call.predicates@.len() {
                Peel::Ask(QuestionView::Holds { layer: k, args: after })
            } else if spec_all_hold(facts.call.predicates@, layer.holds@, after, msrv) {
                Peel::Done(after)
            } else {
                Peel::Stays
            },
        }
    }
}

/// The first question that the layers from `k` on leave open.
pub open spec fn spec_question_from(
    facts: &GenericArgFacts,
    arg_index: int,
    param: u32,
    msrv: Msrv,
    k: int,
    args: Seq<GenericArgView>,
) -> Option<QuestionView>
    decreases facts.layers@.len() - k,
{
    if k < 0 || k >= facts.layers@.len() {
        None
    } else {
        match spec_peel_strict(facts, arg_index, param, msrv, k, args) {
            Peel::Ask(q) => Some(q),
            Peel::Stays => None,
            Peel::Done(after) => spec_question_from(facts, arg_index, param, msrv, k + 1, after),
        }
    }
}

/// The first question that the count of removable borrows would have to
/// put to the host and that the facts do not answer.
pub open spec fn spec_next_question(
    facts: &GenericArgFacts,
    arg_index: int,
    param: u32,
    msrv: Msrv,
) -> Option<QuestionView> {
    if spec_bounds_forbid(facts, param) {
        None
    } else {
        spec_question_from(facts, arg_index, param, msrv, 0, args_view(facts.call.args@))
    }
}

/// Tells what the host has to find out next before the borrows of an
/// argument can be counted on its answers alone: the first question that
/// the count would ask and that the facts leave open. With nothing left to
/// ask, [`needless_borrow_generic_arg_count`] rests on answers of the host
/// throughout.
pub fn next_question(facts: &GenericArgFacts, arg_index: usize, param_ty: u32, msrv: Msrv) -> (r:
    Option<Question>)
    ensures
        match r {
            Some(q) => spec_next_question(facts, arg_index as int, param_ty, msrv) == Some(q@),
            None => spec_next_question(facts, arg_index as int, param_ty, msrv) is None,
        },
{
    let (only_markers, ref_mut, mixed) = survey_bounds(
        &facts.call.predicates,
        param_ty,
        facts.call.parent_count,
    );
    if only_markers || mixed {
        return None;
    }
    let mut scratch: Option<u32> = None;
    let mut args = duplicate_args(&facts.call.args);
    let mut k: usize = 0;
    while k < facts.layers.len()
        invariant
            k <= facts.layers@.len(),
            !spec_bounds_forbid(facts, param_ty),
            ref_mut == spec_ref_mut_bound(facts.call.predicates@, param_ty),
            spec_next_question(facts, arg_index as int, param_ty, msrv) == spec_question_from(
                facts,
                arg_index as int,
                param_ty,
                msrv,
                k as int,
                args_view(args@),
            ),
        decreases facts.layers@.len() - k,
    {
        let layer = &facts.layers[k];
        if !layer.is_copy && (layer.has_significant_drop || !referent_used_exactly_once(
            &mut scratch,
            &layer.usage,
        )) {
            return None;
        }
        if ref_mut && !layer.ty.is_mut_ref() {
            return None;
        }
        args = match substitute(
                true,
                param_ty,
                &layer.ty,
                &facts.call.sig,
                arg_index,
                &facts.call.predicates,
                &facts.call.normalizations,
                args,
            ) {
            Substitution::Done(after) => after,
            Substitution::Refused => {
                return None;
            },
            Substitution::Ask { predicate, self_ty } => {
                return Some(Question::Normalize { predicate, self_ty });
            },
        };
        if layer.holds.len() < facts.call.predicates.len() {
            return Some(Question::Holds { layer: k, args });
        }
        if !all_hold(&facts.call.predicates, &layer.holds, &args, msrv) {
            return None;
        }
        k += 1;
    }
    None
}

/// Whether the host found bound number `i` to hold.
pub open spec fn spec_found_at(holds: Seq<bool>, i: int) -> bool {
    0 <= i < holds.len() && holds[i]
}

/// Whether the host found each of the first `bounds` bounds to hold.
pub open spec fn spec_found_to_hold(bounds: nat, holds: Seq<bool>) -> bool {
    forall|i: int| 0 <= i < bounds ==> #[trigger] spec_found_at(holds, i)
}

/// No `&` goes unless its removal passes every check: for each layer
/// below the count, the value under it may be moved, it is a mutable
/// reference where a bound has a method taking `&mut self`, and every
/// bound of the function was found to hold after the substitution.
pub proof fn lemma_count_is_conservative(
    facts: &GenericArgFacts,
    arg_index: int,
    param: u32,
    msrv: Msrv,
    k: int,
)
    requires
        0 <= k < spec_needless_borrow_count(facts, arg_index, param, msrv),
    ensures
        k < facts.layers@.len(),
        !spec_bounds_forbid(facts, param),
        spec_may_move(&facts.layers@[k]),
        spec_ref_mut_bound(facts.call.predicates@, param) ==> facts.layers@[k].ty.spec_is_mut_ref(),
        spec_found_to_hold(facts.call.predicates@.len(), facts.layers@[k].holds@),
{
    lemma_count_from_is_conservative(
        facts,
        arg_index,
        param,
        msrv,
        0,
        args_view(facts.call.args@),
        k,
    );
}

/// The same, for the layers from `from` on.
proof fn lemma_count_from_is_conservative(
    facts: &GenericArgFacts,
    arg_index: int,
    param: u32,
    msrv: Msrv,
    from: int,
    args: Seq<GenericArgView>,
    k: int,
)
    requires
        0 <= from <= k,
        k - from < spec_count_from(facts, arg_index, param, msrv, from, args),
    ensures
        k < facts.layers@.len(),
        spec_may_move(&facts.layers@[k]),
        spec_ref_mut_bound(facts.call.predicates@, param) ==> facts.layers@[k].ty.spec_is_mut_ref(),
        spec_found_to_hold(facts.call.predicates@.len(), facts.layers@[k].holds@),
    decreases k - from,
{
    let after = spec_peel(facts, arg_index, param, msrv, from, args);
    if from < k {
        lemma_count_from_is_conservative(facts, arg_index, param, msrv, from + 1, after->0, k);
    } else {
        let preds = facts.call.predicates@;
        let holds = facts.layers@[k].holds@;
        assert forall|i: int| 0 <= i < preds.len() implies #[trigger] spec_found_at(holds, i) by {
            assert(spec_predicate_holds(preds, i, holds, after->0, msrv));
        }
    }
}

} // verus!
