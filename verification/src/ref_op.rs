//! Telling reference operations from other expressions.
use vstd::prelude::*;
use crate::base::Mutability;
use crate::expr::{ExprFacts, ExprKind, MatchSource, ParentKind, QPath};
use crate::ty::Ty;

verus! {

/// A reference operation that the engine follows.
#[derive(Clone, Copy, Debug, PartialEq, Eq, Structural)]
pub enum RefOp {
    /// A call of `deref` or `deref_mut`, as a method or, with `is_ufcs`,
    /// through a path such as `Deref::deref(x)`.
    Method { mutbl: Mutability, is_ufcs: bool },
    /// `*x`, where `x` is no raw pointer.
    Deref,
    /// `&x` or `&mut x`.
    AddrOf(Mutability),
}

/// The reference operation that the expression is, where it is one.
pub open spec fn spec_ref_op(expr: &ExprFacts) -> Option<RefOp> {
    match expr.kind {
        ExprKind::MethodCall { extra_args, callee, receiver } => if extra_args == 0 {
            spec_method_op(callee, false)
        } else {
            None
        },
        ExprKind::Call { callee_is_path, callee, args } => if callee_is_path && args@.len() == 1 {
            spec_method_op(callee, true)
        } else {
            None
        },
        ExprKind::Unary { deref, operand } => if deref && !operand.spec_is_unsafe_ptr() {
            Some(RefOp::Deref)
        } else {
            None
        },
        ExprKind::AddrOf { raw, mutability, operand } => if raw {
            None
        } else {
            Some(RefOp::AddrOf(mutability))
        },
        _ => None,
    }
}

/// The operation that a call is, by what it resolves to.
pub open spec fn spec_method_op(callee: Option<crate::expr::Callee>, is_ufcs: bool) -> Option<
    RefOp,
> {
    match callee {
        Some(c) => if c.is_deref_method {
            Some(RefOp::Method { mutbl: Mutability::Not, is_ufcs })
        } else if c.is_deref_mut_method {
            Some(RefOp::Method { mutbl: Mutability::Mut, is_ufcs })
        } else {
            None
        },
        None => None,
    }
}

/// The type of what a reference operation is applied to.
pub open spec fn spec_operand(expr: &ExprFacts) -> Ty {
    match expr.kind {
        ExprKind::MethodCall { extra_args, callee, receiver } => receiver,
        ExprKind::Call { callee_is_path, callee, args } => args@[0],
        ExprKind::Unary { deref, operand } => operand,
        ExprKind::AddrOf { raw, mutability, operand } => operand,
        _ => expr.ty,
    }
}

/// Reads an expression as a reference operation: the operation and the
/// type of its operand. Nothing where the expression is none, where a call
/// does not resolve, or where `*` is applied to a raw pointer.
pub fn try_parse_ref_op(expr: &ExprFacts) -> (r: Option<(RefOp, &Ty)>)
    ensures
        match r {
            Some((op, operand)) => spec_ref_op(expr) == Some(op) && *operand == spec_operand(expr),
            None => spec_ref_op(expr) is None,
        },
{
    let (is_ufcs, callee, arg) = match &expr.kind {
        ExprKind::MethodCall { extra_args, callee, receiver } => {
            if *extra_args != 0 {
                return None;
            }
            (false, callee, receiver)
        },
        ExprKind::Call { callee_is_path, callee, args } => {
            if !*callee_is_path || args.len() != 1 {
                return None;
            }
            (true, callee, &args[0])
        },
        ExprKind::Unary { deref, operand } => {
            if *deref && !operand.is_unsafe_ptr() {
                return Some((RefOp::Deref, operand));
            }
            return None;
        },
        ExprKind::AddrOf { raw, mutability, operand } => {
            if *raw {
                return None;
            }
            return Some((RefOp::AddrOf(*mutability), operand));
        },
        _ => {
            return None;
        },
    };
    match callee {
        Some(c) => if c.is_deref_method {
            Some((RefOp::Method { mutbl: Mutability::Not, is_ufcs }, arg))
        } else if c.is_deref_mut_method {
            Some((RefOp::Method { mutbl: Mutability::Mut, is_ufcs }, arg))
        } else {
            None
        },
        None => None,
    }
}

/// Checks whether a `deref` call left the type referred to as it was and
/// changed at most the mutability of the reference. The result of such a
/// call is always a reference: an argument that is none has changed.
pub fn deref_method_same_type(result_ty: &Ty, arg_ty: &Ty) -> (r: bool)
    ensures
        r == result_ty.spec_same_referent(arg_ty),
{
    result_ty.same_referent(arg_ty)
}

/// Whether the type is a struct with a field called `name`.
pub fn ty_contains_field(ty: &Ty, name: u32) -> (r: bool)
    ensures
        r == ty.spec_contains_field(name),
{
    ty.contains_field(name)
}

/// Whether the last segment of the path has generic arguments.
pub open spec fn spec_path_has_args(p: &QPath) -> bool {
    match p {
        QPath::Resolved { segment_args } => segment_args@.len() > 0 && segment_args@.last(),
        QPath::TypeRelative { has_args } => *has_args,
        QPath::LangItem => false,
    }
}

/// Whether the path spells out generic arguments on its last segment.
pub fn path_has_args(p: &QPath) -> (r: bool)
    ensures
        r == spec_path_has_args(p),
{
    match p {
        QPath::Resolved { segment_args } => {
            let n = segment_args.len();
            n > 0 && segment_args[n - 1]
        },
        QPath::TypeRelative { has_args } => *has_args,
        QPath::LangItem => false,
    }
}

/// Whether something is applied to the expression from behind, in the
/// same syntax context: it is called, indexed, the receiver of a method
/// call, the base of a field access, or followed by `?` or `.await`.
pub open spec fn spec_in_postfix_position(expr: &ExprFacts) -> bool {
    match expr.parent {
        Some(parent) => parent.span.ctxt == expr.span.ctxt && match parent.kind {
            ParentKind::Call { callee } => callee == expr.hir_id,
            ParentKind::MethodCall { receiver } => receiver == expr.hir_id,
            ParentKind::Index { base } => base == expr.hir_id,
            ParentKind::Match(source) => source == MatchSource::TryDesugar || source
                == MatchSource::AwaitDesugar,
            ParentKind::Field => true,
            _ => false,
        },
        None => false,
    }
}

/// Whether the expression is the front of a postfix chain, as `x.deref()`
/// is in `x.deref().len()`.
pub fn in_postfix_position(expr: &ExprFacts) -> (r: bool)
    ensures
        r == spec_in_postfix_position(expr),
{
    match expr.parent {
        Some(parent) => {
            if parent.span.ctxt != expr.span.ctxt {
                return false;
            }
            match parent.kind {
                ParentKind::Call { callee } => callee == expr.hir_id,
                ParentKind::MethodCall { receiver } => receiver == expr.hir_id,
                ParentKind::Index { base } => base == expr.hir_id,
                ParentKind::Match(source) => source == MatchSource::TryDesugar || source
                    == MatchSource::AwaitDesugar,
                ParentKind::Field => true,
                _ => false,
            }
        },
        None => false,
    }
}

} // verus!
