//! How a chain of reference operations begins.
use vstd::prelude::*;
use crate::base::Mutability;
use crate::chain::{DerefedBorrow, State, StateData, StateDataView};
use crate::expr::{DefKind, ExprFacts, MethodFacts, UseCtxt, UseNode};
use crate::finding::Message;
use crate::generics::{
    needless_borrow_generic_arg_count, spec_bounds_forbid, spec_memo_from,
    spec_needless_borrow_count, Msrv,
};
use crate::ref_op::{
    in_postfix_position, path_has_args, spec_in_postfix_position, spec_operand,
    spec_path_has_args, RefOp,
};
use crate::stability::{DefinedTy, TyCoercionStability};
use crate::substitution::args_view;
use crate::ty::{Adjust, Adjustment, Ty, TyKind, TyView};

verus! {

impl UseNode {
    pub open spec fn spec_is_return(&self) -> bool {
        self is Return
    }

    /// Whether the value is returned from the function.
    #[verifier::when_used_as_spec(spec_is_return)]
    pub fn is_return(&self) -> (r: bool)
        ensures
            r == self.spec_is_return(),
    {
        match self {
            UseNode::Return => true,
            _ => false,
        }
    }

    pub open spec fn spec_is_recv(&self) -> bool {
        self matches UseNode::MethodArg { index, .. } && *index == 0
    }

    /// Whether the value is the receiver of a method call.
    #[verifier::when_used_as_spec(spec_is_recv)]
    pub fn is_recv(&self) -> (r: bool)
        ensures
            r == self.spec_is_recv(),
    {
        match self {
            UseNode::MethodArg { index, .. } => *index == 0,
            _ => false,
        }
    }

    pub open spec fn spec_field_access(&self) -> Option<u32> {
        match self {
            UseNode::FieldAccess(name) => Some(*name),
            _ => None,
        }
    }

    /// The name of the field, where a field of the value is read.
    #[verifier::when_used_as_spec(spec_field_access)]
    pub fn field_access(&self) -> (r: Option<u32>)
        ensures
            r == self.spec_field_access(),
    {
        match self {
            UseNode::FieldAccess(name) => Some(*name),
            _ => None,
        }
    }

    /// The position of the value among the arguments of a call whose
    /// callee is named without generic arguments: a function, a
    /// constructor or an associated function called by its path, or a
    /// method called on a receiver other than the value.
    pub open spec fn spec_generic_arg_index(&self) -> Option<usize> {
        match self {
            UseNode::MethodArg { index, has_generic_args, method } => if *index != 0
                && !*has_generic_args && *method is Some {
                Some(*index)
            } else {
                None
            },
            UseNode::FnArg { index, callee } => match callee {
                Some(c) => if !spec_path_has_args(&c.path) && (c.res == Some(DefKind::Fn) || c.res
                    == Some(DefKind::Ctor) || c.res == Some(DefKind::AssocFn)) {
                    Some(*index)
                } else {
                    None
                },
                None => None,
            },
            _ => None,
        }
    }

    /// The position of the value among the arguments of a call that the
    /// borrow check for generic arguments can look at.
    pub fn generic_arg_index(&self) -> (r: Option<usize>)
        ensures
            r == self.spec_generic_arg_index(),
    {
        match self {
            UseNode::MethodArg { index, has_generic_args, method } => if *index != 0
                && !*has_generic_args && method.is_some() {
                Some(*index)
            } else {
                None
            },
            UseNode::FnArg { index, callee } => match callee {
                Some(c) => {
                    if path_has_args(&c.path) {
                        return None;
                    }
                    match c.res {
                        Some(DefKind::Fn) | Some(DefKind::Ctor) | Some(DefKind::AssocFn) => Some(
                            *index,
                        ),
                        _ => None,
                    }
                },
                None => None,
            },
            _ => None,
        }
    }
}

impl UseCtxt {
    /// The type parameter that the use asks for, where it asks for one and
    /// the type need not agree with another code path.
    pub open spec fn spec_generic_param(&self) -> Option<u32> {
        if self.is_ty_unified {
            None
        } else {
            match self.defined_ty {
                Some(DefinedTy::Mir(m)) => if m.ty.refs@.len() == 0 {
                    match m.ty.pointee.kind {
                        TyKind::Param(p) => Some(p),
                        _ => None,
                    }
                } else {
                    None
                },
                _ => None,
            }
        }
    }

    /// The type parameter that the use asks for.
    pub fn generic_param(&self) -> (r: Option<u32>)
        ensures
            r == self.spec_generic_param(),
    {
        if self.is_ty_unified {
            return None;
        }
        match &self.defined_ty {
            Some(DefinedTy::Mir(m)) => if m.ty.refs.len() == 0 {
                match m.ty.pointee.kind {
                    TyKind::Param(p) => Some(p),
                    _ => None,
                }
            } else {
                None
            },
            _ => None,
        }
    }

    /// Whether the borrow check for generic arguments runs for this use.
    pub open spec fn spec_generic_runs(&self) -> bool {
        self.spec_generic_param() is Some && self.node.spec_generic_arg_index() is Some
            && self.generic is Some
    }

    /// How stable coercions to the type are that the use asks for.
    pub open spec fn spec_stability(&self) -> TyCoercionStability {
        match self.defined_ty {
            Some(d) => TyCoercionStability::spec_for_defined_ty(d, self.node.spec_is_return()),
            None => TyCoercionStability::Unconstrained,
        }
    }

    /// How stable coercions to the type are that the use asks for:
    /// unconstrained where it asks for none.
    pub fn stability(&self) -> (r: TyCoercionStability)
        ensures
            r == self.spec_stability(),
    {
        match &self.defined_ty {
            Some(d) => TyCoercionStability::for_defined_ty(d, self.node.is_return()),
            None => TyCoercionStability::Unconstrained,
        }
    }

    /// Whether the compiler borrows by itself where the value is used: for
    /// a callee, for the base of a field access outside unions, and for
    /// the receiver of a method, unless the method comes from a trait that
    /// is implemented for the reference itself.
    pub open spec fn spec_can_auto_borrow(&self, adjusted: TyView) -> bool {
        match self.node {
            UseNode::Callee => true,
            UseNode::FieldAccess(_) => !adjusted.is_union(),
            UseNode::MethodArg { index, has_generic_args, method } => index == 0
                && !self.moved_before_use && !spec_impl_on_reference(method, adjusted),
            _ => false,
        }
    }

    /// Whether the compiler borrows by itself where the value is used.
    pub fn can_auto_borrow(&self, adjusted: &Ty) -> (r: bool)
        ensures
            r == self.spec_can_auto_borrow(adjusted@),
    {
        match &self.node {
            UseNode::Callee => true,
            UseNode::FieldAccess(_) => !adjusted.is_union(),
            UseNode::MethodArg { index, has_generic_args, method } => {
                if *index != 0 || self.moved_before_use {
                    return false;
                }
                match method {
                    Some(m) => {
                        if !m.in_trait || adjusted.ref_count() == 0 {
                            return true;
                        }
                        if m.self_by_ref {
                            !(adjusted.ref_count() > 1 && m.implemented_for_referent)
                        } else {
                            !m.implemented_for_receiver
                        }
                    },
                    None => true,
                }
            },
            _ => false,
        }
    }
}

/// Whether a method call on a receiver of type `adjusted` reaches a trait
/// method whose trait is implemented for a reference: for a method that
/// takes `self` by reference that is the type the receiver refers to, for
/// one that takes `self` by value the type of the receiver itself.
pub open spec fn spec_impl_on_reference(method: Option<MethodFacts>, adjusted: TyView) -> bool {
    match method {
        Some(m) => m.in_trait && adjusted.refs.len() > 0 && if m.self_by_ref {
            adjusted.refs.len() > 1 && m.implemented_for_referent
        } else {
            m.implemented_for_receiver
        },
        None => false,
    }
}

/// Where the automatic dereferences at the head of `adjs` end, counting
/// from `from`: behind the first dereference that does not lead to a
/// reference, or before the first coercion of another kind.
pub open spec fn spec_auto_deref_end(adjs: Seq<Adjustment>, from: nat) -> nat
    decreases adjs.len() - from,
{
    if from >= adjs.len() {
        from
    } else if !adjs[from as int].kind.spec_is_deref() {
        from
    } else if !adjs[from as int].target.spec_is_ref() {
        from + 1
    } else {
        spec_auto_deref_end(adjs, from + 1)
    }
}

/// The number of times the compiler dereferences the value by itself.
pub fn auto_deref_count(adjs: &Vec<Adjustment>) -> (r: usize)
    ensures
        r == spec_auto_deref_end(adjs@, 0),
        r <= adjs@.len(),
{
    let mut i: usize = 0;
    while i < adjs.len()
        invariant
            i <= adjs@.len(),
            spec_auto_deref_end(adjs@, 0) == spec_auto_deref_end(adjs@, i as nat),
        decreases adjs@.len() - i,
    {
        if !adjs[i].kind.is_deref() {
            return i;
        }
        if !adjs[i].target.is_ref() {
            return i + 1;
        }
        i += 1;
    }
    i
}

/// Whether every coercion from number `from` on is a dereference or a
/// borrow.
pub open spec fn spec_rest_is_plain(adjs: Seq<Adjustment>, from: int) -> bool {
    forall|i: int| from <= i < adjs.len() ==> (#[trigger] adjs[i]).kind.spec_is_deref_or_borrow()
}

/// Whether automatic dereferencing is followed by nothing but dereferences
/// and borrows.
pub fn rest_is_plain(adjs: &Vec<Adjustment>, from: usize) -> (r: bool)
    ensures
        r == spec_rest_is_plain(adjs@, from as int),
{
    let mut i: usize = from;
    while i < adjs.len()
        invariant
            from <= i,
            forall|j: int| from <= j < i && j < adjs@.len() ==> (#[trigger] adjs@[j]).kind.spec_is_deref_or_borrow(),
        decreases adjs@.len() - i,
    {
        if !adjs[i].kind.is_deref_or_borrow() {
            return false;
        }
        i += 1;
    }
    true
}

/// The type that the chain has to deliver: the target of the last
/// coercion on the way to the use, or the type of the expression where
/// there is none; the type after the expression's own coercions where
/// nothing is known of the use.
pub open spec fn spec_adjusted_ty(expr: &ExprFacts) -> TyView {
    match expr.use_cx {
        Some(u) => if u.adjustments@.len() > 0 {
            u.adjustments@.last().target@
        } else {
            expr.ty@
        },
        None => expr.adjusted_ty@,
    }
}

/// The fixed data of a chain that begins at `expr`.
pub open spec fn spec_anchor(expr: &ExprFacts) -> StateDataView {
    StateDataView {
        span: expr.span,
        hir_id: expr.hir_id,
        adjusted_ty: spec_adjusted_ty(expr),
        parent: expr.parent,
    }
}

/// The fixed data of a chain that begins at `expr`.
pub fn anchor(expr: &ExprFacts) -> (r: StateData)
    ensures
        r@ == spec_anchor(expr),
{
    let adjusted_ty = match &expr.use_cx {
        Some(u) => {
            let n = u.adjustments.len();
            if n > 0 {
                u.adjustments[n - 1].target.duplicate()
            } else {
                expr.ty.duplicate()
            }
        },
        None => expr.adjusted_ty.duplicate(),
    };
    StateData { span: expr.span, hir_id: expr.hir_id, adjusted_ty, parent: expr.parent }
}

/// What a chain that begins with the borrow `expr` is found to be: a
/// borrow of a generic argument that meets the bounds without the `&`; else
/// a borrow that the compiler dereferences more often than the position
/// needs references; else a borrow in a position with a type that stays the
/// same under dereferencing.
pub open spec fn spec_start_borrow(
    expr: &ExprFacts,
    u: &UseCtxt,
    mutability: Mutability,
    msrv: Msrv,
) -> Option<State> {
    let count = if u.spec_generic_runs() {
        spec_needless_borrow_count(
            &u.generic->0,
            u.node.spec_generic_arg_index()->0 as int,
            u.spec_generic_param()->0,
            msrv,
        )
    } else {
        0
    };
    if count != 0 {
        Some(
            State::DerefedBorrow(
                DerefedBorrow {
                    count: (count - 1) as usize,
                    msg: Message::ImplementsRequiredTraits,
                    stability: TyCoercionStability::Unconstrained,
                    for_field_access: None,
                },
            ),
        )
    } else {
        let end = spec_auto_deref_end(u.adjustments@, 0);
        let stability = u.spec_stability();
        let auto = u.spec_can_auto_borrow(spec_adjusted_ty(expr));
        let required: nat = if auto {
            1
        } else if end < u.adjustments@.len() && u.adjustments@[end as int].kind == Adjust::BorrowRef(
            Mutability::Mut,
        ) && !stability.spec_is_reborrow_stable() {
            3
        } else {
            2
        };
        if end >= required {
            Some(
                State::DerefedBorrow(
                    DerefedBorrow {
                        count: (end - required) as usize,
                        msg: if auto && end == 1 {
                            Message::BorrowedByCompiler
                        } else {
                            Message::DerefedByCompiler
                        },
                        stability,
                        for_field_access: u.node.spec_field_access(),
                    },
                ),
            )
        } else if stability.spec_is_deref_stable() && spec_rest_is_plain(
            u.adjustments@,
            end as int,
        ) {
            Some(State::Borrow { mutability })
        } else {
            None
        }
    }
}

/// What a chain that begins with the operation `op` at `expr` is found to
/// be; nothing where no chain begins.
pub open spec fn spec_start_state(expr: &ExprFacts, op: RefOp, msrv: Msrv) -> Option<State> {
    match op {
        RefOp::Deref => match expr.use_cx {
            Some(u) => {
                let operand = spec_operand(expr);
                if u.node.spec_field_access() is Some && !spec_adjusted_ty(expr).is_union()
                    && !operand.spec_contains_field(u.node.spec_field_access()->0) {
                    Some(State::ExplicitDerefField { name: u.node.spec_field_access()->0 })
                } else if operand.spec_is_ref() && !u.node.spec_is_recv() && u.defined_ty is Some
                    && u.spec_stability().spec_is_deref_stable() {
                    Some(State::ExplicitDeref { mutability: None })
                } else {
                    None
                }
            },
            None => None,
        },
        RefOp::Method { mutbl, is_ufcs } => if !expr.deref_method_lint_allowed && (is_ufcs
            || !spec_in_postfix_position(expr)) {
            Some(
                State::DerefMethod {
                    ty_changed_count: if expr.ty.spec_same_referent(&spec_operand(expr)) {
                        0
                    } else {
                        1
                    },
                    is_ufcs,
                    mutbl,
                },
            )
        } else {
            None
        },
        RefOp::AddrOf(mutability) => match expr.use_cx {
            Some(u) => spec_start_borrow(expr, &u, mutability, msrv),
            None => None,
        },
    }
}

/// The chain that begins with the operation `op` at `expr`.
pub open spec fn spec_start(expr: &ExprFacts, op: RefOp, msrv: Msrv) -> Option<
    (State, StateDataView),
> {
    match spec_start_state(expr, op, msrv) {
        Some(state) => Some((state, spec_anchor(expr))),
        None => None,
    }
}

/// The function whose borrowers are remembered once the start of a chain
/// at `expr` has been tried.
pub open spec fn spec_start_memo(expr: &ExprFacts, op: RefOp, msrv: Msrv, memo: Option<u32>) -> Option<
    u32,
> {
    if op is AddrOf && expr.use_cx is Some && expr.use_cx->0.spec_generic_runs()
        && !spec_bounds_forbid(&expr.use_cx->0.generic->0, expr.use_cx->0.spec_generic_param()->0) {
        let u = expr.use_cx->0;
        spec_memo_from(
            &u.generic->0,
            u.node.spec_generic_arg_index()->0 as int,
            u.spec_generic_param()->0,
            msrv,
            0,
            args_view(u.generic->0.call.args@),
            memo,
        )
    } else {
        memo
    }
}

/// Tries to begin a chain with a borrow.
fn start_borrow(
    expr: &ExprFacts,
    u: &UseCtxt,
    mutability: Mutability,
    memo: &mut Option<u32>,
    msrv: Msrv,
) -> (r: Option<State>)
    requires
        expr.use_cx == Some(*u),
    ensures
        r == spec_start_borrow(expr, u, mutability, msrv),
        *final(memo) == spec_start_memo(expr, RefOp::AddrOf(mutability), msrv, *old(memo)),
{
    let count = match (u.generic_param(), u.node.generic_arg_index(), &u.generic) {
        (Some(param), Some(index), Some(facts)) => needless_borrow_generic_arg_count(
            memo,
            facts,
            index,
            param,
            msrv,
        ),
        _ => 0,
    };
    if count != 0 {
        return Some(
            State::DerefedBorrow(
                DerefedBorrow {
                    count: count - 1,
                    msg: Message::ImplementsRequiredTraits,
                    stability: TyCoercionStability::Unconstrained,
                    for_field_access: None,
                },
            ),
        );
    }
    let end = auto_deref_count(&u.adjustments);
    let stability = u.stability();
    let data = anchor(expr);
    let auto = u.can_auto_borrow(&data.adjusted_ty);
    // How many references have to be there before one can go. The borrow
    // at hand goes in any case. Where the compiler borrows by itself,
    // nothing more is needed. Else one reference has to stay, for the
    // re-borrow that the compiler puts in or for a `Deref` impl to start
    // from. And where the dereferences end in a mutable re-borrow that the
    // position does not pin down, one more stays, so that the mutable
    // borrow is not moved:
    //
    //     let x = match x { Some(x) => &mut *x, None => y };
    let required: usize = if auto {
        1
    } else if end < u.adjustments.len() && u.adjustments[end].kind == Adjust::BorrowRef(
        Mutability::Mut,
    ) && !stability.is_reborrow_stable() {
        3
    } else {
        2
    };
    if end >= required {
        Some(
            State::DerefedBorrow(
                DerefedBorrow {
                    count: end - required,
                    msg: if auto && end == 1 {
                        Message::BorrowedByCompiler
                    } else {
                        Message::DerefedByCompiler
                    },
                    stability,
                    for_field_access: u.node.field_access(),
                },
            ),
        )
    } else if stability.is_deref_stable() && rest_is_plain(&u.adjustments, end) {
        Some(State::Borrow { mutability })
    } else {
        None
    }
}

/// Begins a chain at `expr`, which is the reference operation `op` on an
/// operand of type `operand`, where the use of `expr` allows one.
pub(crate) fn start_with(
    expr: &ExprFacts,
    op: RefOp,
    operand: &Ty,
    memo: &mut Option<u32>,
    msrv: Msrv,
) -> (r: Option<(State, StateData)>)
    requires
        *operand == spec_operand(expr),
    ensures
        match r {
            Some((state, data)) => spec_start(expr, op, msrv) == Some((state, data@)),
            None => spec_start(expr, op, msrv) is None,
        },
        *final(memo) == spec_start_memo(expr, op, msrv, *old(memo)),
{
    let state = match op {
        RefOp::Deref => match &expr.use_cx {
            Some(u) => {
                let data = anchor(expr);
                let field = match u.node.field_access() {
                    Some(name) => !data.adjusted_ty.is_union() && !operand.contains_field(name),
                    None => false,
                };
                if field {
                    match u.node.field_access() {
                        Some(name) => Some(State::ExplicitDerefField { name }),
                        None => None,
                    }
                } else if operand.is_ref() && !u.node.is_recv() && u.defined_ty.is_some()
                    && u.stability().is_deref_stable() {
                    Some(State::ExplicitDeref { mutability: None })
                } else {
                    None
                }
            },
            None => None,
        },
        RefOp::Method { mutbl, is_ufcs } => if !expr.deref_method_lint_allowed && (is_ufcs
            || !in_postfix_position(expr)) {
            Some(
                State::DerefMethod {
                    ty_changed_count: if expr.ty.same_referent(operand) {
                        0
                    } else {
                        1
                    },
                    is_ufcs,
                    mutbl,
                },
            )
        } else {
            None
        },
        RefOp::AddrOf(mutability) => match &expr.use_cx {
            Some(u) => start_borrow(expr, u, mutability, memo, msrv),
            None => None,
        },
    };
    match state {
        Some(state) => Some((state, anchor(expr))),
        None => None,
    }
}

} // verus!
