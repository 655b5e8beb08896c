//! Chains of reference operations: what the engine remembers of a chain in
//! progress, and what it reports when the chain ends.
use vstd::prelude::*;
use vstd::string::*;
use crate::base::{Mutability, SpanInfo};
use crate::expr::{ExprFacts, ParentExpr, ParentKind, PREC_POSTFIX, PREC_PREFIX};
use crate::finding::{Finding, Help, Lint, Message};
use crate::stability::TyCoercionStability;
use crate::text::{
    has_enclosing_paren, joined, parenthesized, repeat_star, spec_has_enclosing_paren,
    spec_parenthesized, stars,
};
use crate::ty::{Ty, TyView};

verus! {

/// What stays fixed from the start of a chain to its end.
#[derive(Debug)]
pub struct StateData {
    /// The place of the outermost expression of the chain.
    pub span: SpanInfo,
    /// The node of that expression.
    pub hir_id: u64,
    /// The type the chain has to deliver, after all coercions.
    pub adjusted_ty: Ty,
    /// The expression around the outermost one, where the chain began as a
    /// borrow.
    pub parent: Option<ParentExpr>,
}

/// The fixed data of a chain as a mathematical value.
pub struct StateDataView {
    pub span: SpanInfo,
    pub hir_id: u64,
    pub adjusted_ty: TyView,
    pub parent: Option<ParentExpr>,
}

impl View for StateData {
    type V = StateDataView;

    open spec fn view(&self) -> StateDataView {
        StateDataView {
            span: self.span,
            hir_id: self.hir_id,
            adjusted_ty: self.adjusted_ty@,
            parent: self.parent,
        }
    }
}

/// A borrow that the compiler takes back by dereferencing.
#[derive(Clone, Copy, Debug, PartialEq, Eq, Structural)]
pub struct DerefedBorrow {
    /// How many more `&` can go.
    pub count: usize,
    pub msg: Message,
    pub stability: TyCoercionStability,
    /// The field that is read through the borrow, where one is.
    pub for_field_access: Option<u32>,
}

/// What a chain in progress has been found to be.
#[allow(inconsistent_fields)]
#[derive(Clone, Copy, Debug, PartialEq, Eq, Structural)]
pub enum State {
    /// Any number of calls of `deref` or `deref_mut`.
    DerefMethod {
        /// How many of the calls changed the type referred to.
        ty_changed_count: usize,
        /// Whether the last call was written as a path, `Deref::deref(x)`.
        is_ufcs: bool,
        /// The mutability that the first call asked for.
        mutbl: Mutability,
    },
    DerefedBorrow(DerefedBorrow),
    /// A `*` that automatic dereferencing covers.
    ExplicitDeref { mutability: Option<Mutability> },
    /// A `*` used only to reach the field `name`.
    ExplicitDerefField { name: u32 },
    /// A borrow followed by a `*` of a reference.
    Reborrow { mutability: Mutability },
    /// A borrow that may yet turn out to be followed by a `*`.
    Borrow { mutability: Mutability },
}

/// What a report says, apart from the place and the applicability.
pub struct Report {
    pub lint: Lint,
    pub hir_id: Option<u64>,
    pub message: Message,
    pub help: Help,
    pub text: Seq<char>,
}

/// `n + 1`, or `n` where the machine holds no larger number.
pub open spec fn spec_succ(n: usize) -> usize {
    if n < usize::MAX {
        (n + 1) as usize
    } else {
        n
    }
}

/// The next number, as far as the machine can count.
pub fn succ(n: usize) -> (r: usize)
    ensures
        r == spec_succ(n),
{
    if n < usize::MAX {
        n + 1
    } else {
        n
    }
}

/// The number of `*` that stand for the `deref` calls of a chain, where
/// `changed` of them changed the type referred to and the innermost
/// expression has `refs` reference layers. The first call that changes the
/// type of a reference takes two: one for the reference, one for the impl.
pub open spec fn spec_deref_stars(changed: usize, refs: nat) -> usize {
    if changed >= refs && refs != 0 {
        spec_succ(changed)
    } else {
        changed
    }
}

/// What goes in front of the `*`: nothing while references are left to
/// dereference, unless a shared reference is wanted out of a mutable one;
/// else the borrow that the calls stood for.
pub open spec fn spec_deref_prefix(changed: usize, mutbl: Mutability, ty: &Ty) -> Seq<char> {
    if changed < ty.spec_ref_count() {
        if mutbl == Mutability::Not && ty.spec_is_mut_ref() {
            "&*"@
        } else {
            ""@
        }
    } else if mutbl == Mutability::Mut {
        "&mut "@
    } else {
        "&"@
    }
}

/// The precedence that the place of a needless borrow asks of what is put
/// there, and whether a field read there would be taken for a method call.
pub open spec fn spec_borrow_context(
    parent: Option<ParentExpr>,
    anchor: u64,
    expr_is_field: bool,
) -> (i8, bool) {
    match parent {
        Some(p) => match p.kind {
            ParentKind::Call { callee } => if callee != anchor {
                (0i8, false)
            } else {
                (PREC_POSTFIX, expr_is_field)
            },
            _ => (p.precedence, false),
        },
        None => (0i8, false),
    }
}

/// The text that replaces a chain found to be `state`, where a report is
/// due; nothing where the chain is dropped in silence.
pub open spec fn spec_report(expr: &ExprFacts, state: State, data: StateDataView) -> Option<Report> {
    let snip = expr.snippet.text@;
    let bare = expr.snippet.is_macro_call || spec_has_enclosing_paren(snip);
    match state {
        State::DerefMethod { ty_changed_count, is_ufcs, mutbl } => if is_ufcs {
            None
        } else {
            Some(
                Report {
                    lint: Lint::ExplicitDerefMethods,
                    hir_id: None,
                    message: match mutbl {
                        Mutability::Not => Message::ExplicitDerefCall,
                        Mutability::Mut => Message::ExplicitDerefMutCall,
                    },
                    help: Help::Try,
                    text: spec_deref_prefix(ty_changed_count, mutbl, &expr.ty) + stars(
                        spec_deref_stars(ty_changed_count, expr.ty.spec_ref_count()) as nat,
                    ) + snip,
                },
            )
        },
        State::DerefedBorrow(borrow) => {
            let (precedence, calls_field) = spec_borrow_context(
                data.parent,
                data.hir_id,
                expr.kind.spec_is_field(),
            );
            Some(
                Report {
                    lint: Lint::NeedlessBorrow,
                    hir_id: Some(data.hir_id),
                    message: borrow.msg,
                    help: Help::ChangeThisTo,
                    text: if !bare && (calls_field || expr.precedence < precedence) {
                        spec_parenthesized(snip)
                    } else {
                        snip
                    },
                },
            )
        },
        State::ExplicitDeref { mutability } => if expr.kind.spec_is_block_like()
            && data.adjusted_ty.refers_to_sized() {
            None
        } else {
            let borrows = mutability is Some && !expr.ty.spec_is_ref();
            let prefix = if !borrows {
                ""@
            } else if mutability == Some(Mutability::Not) {
                "&"@
            } else {
                "&mut "@
            };
            Some(
                Report {
                    lint: Lint::ExplicitAutoDeref,
                    hir_id: Some(data.hir_id),
                    message: Message::DoneByAutoDeref,
                    help: Help::Try,
                    text: if !bare && expr.precedence < (if borrows {
                        PREC_PREFIX
                    } else {
                        0i8
                    }) {
                        prefix + spec_parenthesized(snip)
                    } else {
                        prefix + snip
                    },
                },
            )
        },
        State::ExplicitDerefField { name } => if expr.kind.spec_is_block_like()
            && data.adjusted_ty.is_sized() {
            None
        } else {
            Some(
                Report {
                    lint: Lint::ExplicitAutoDeref,
                    hir_id: Some(data.hir_id),
                    message: Message::DoneByAutoDeref,
                    help: Help::Try,
                    text: snip,
                },
            )
        },
        State::Reborrow { .. } | State::Borrow { .. } => None,
    }
}

/// Whether `finding` is what [`spec_report`] asks for at the end of a chain.
pub open spec fn reported(
    finding: Option<Finding>,
    expr: &ExprFacts,
    state: State,
    data: StateDataView,
) -> bool {
    match spec_report(expr, state, data) {
        None => finding is None,
        Some(report) => {
            &&& finding matches Some(f)
            &&& f.lint == report.lint
            &&& f.hir_id == report.hir_id
            &&& f.message == report.message
            &&& f.help == report.help
            &&& f.applicability == expr.snippet.applicability
            &&& f.replaces(data.span.span, report.text)
        },
    }
}

/// Closes a chain: `expr` is the first expression that no longer belongs to
/// it, `state` what the chain was found to be and `data` where it began.
/// The finding replaces the whole chain by the text of `expr`, with the
/// operators in front and the parentheses around it that the place needs.
pub fn report(expr: &ExprFacts, state: State, data: &StateData) -> (finding: Option<Finding>)
    ensures
        reported(finding, expr, state, data@),
{
    let app = expr.snippet.applicability;
    let snip = expr.snippet.text.as_str();
    match state {
        State::DerefMethod { ty_changed_count, is_ufcs, mutbl } => {
            let ref_count = expr.ty.ref_count();
            let deref_str = if ty_changed_count >= ref_count && ref_count != 0 {
                repeat_star(succ(ty_changed_count))
            } else {
                repeat_star(ty_changed_count)
            };
            let addr_of_str = if ty_changed_count < ref_count {
                if mutbl == Mutability::Not && expr.ty.is_mut_ref() {
                    "&*"
                } else {
                    ""
                }
            } else if mutbl == Mutability::Mut {
                "&mut "
            } else {
                "&"
            };
            if is_ufcs {
                return None;
            }
            let mut text = joined(addr_of_str, deref_str.as_str());
            text.append(snip);
            Some(
                Finding::replacing(
                    Lint::ExplicitDerefMethods,
                    None,
                    data.span.span,
                    match mutbl {
                        Mutability::Not => Message::ExplicitDerefCall,
                        Mutability::Mut => Message::ExplicitDerefMutCall,
                    },
                    Help::Try,
                    text,
                    app,
                ),
            )
        },
        State::DerefedBorrow(borrow) => {
            let (precedence, calls_field) = match data.parent {
                Some(p) => match p.kind {
                    ParentKind::Call { callee } => if callee != data.hir_id {
                        (0i8, false)
                    } else {
                        (PREC_POSTFIX, expr.kind.is_field())
                    },
                    _ => (p.precedence, false),
                },
                None => (0i8, false),
            };
            let sugg = if !expr.snippet.is_macro_call && (calls_field || expr.precedence
                < precedence) && !has_enclosing_paren(snip) {
                parenthesized(snip)
            } else {
                String::from_str(snip)
            };
            Some(
                Finding::replacing(
                    Lint::NeedlessBorrow,
                    Some(data.hir_id),
                    data.span.span,
                    borrow.msg,
                    Help::ChangeThisTo,
                    sugg,
                    app,
                ),
            )
        },
        State::ExplicitDeref { mutability } => {
            if expr.kind.is_block_like() && data.adjusted_ty.refers_to_sized() {
                return None;
            }
            let (prefix, precedence) = match mutability {
                Some(m) if !expr.ty.is_ref() => (
                    match m {
                        Mutability::Not => "&",
                        Mutability::Mut => "&mut ",
                    },
                    PREC_PREFIX,
                ),
                _ => ("", 0i8),
            };
            let sugg = if !expr.snippet.is_macro_call && expr.precedence < precedence
                && !has_enclosing_paren(snip) {
                joined(prefix, parenthesized(snip).as_str())
            } else {
                joined(prefix, snip)
            };
            Some(
                Finding::replacing(
                    Lint::ExplicitAutoDeref,
                    Some(data.hir_id),
                    data.span.span,
                    Message::DoneByAutoDeref,
                    Help::Try,
                    sugg,
                    app,
                ),
            )
        },
        State::ExplicitDerefField { name } => {
            if expr.kind.is_block_like() && data.adjusted_ty.is_sized() {
                return None;
            }
            Some(
                Finding::replacing(
                    Lint::ExplicitAutoDeref,
                    Some(data.hir_id),
                    data.span.span,
                    Message::DoneByAutoDeref,
                    Help::Try,
                    String::from_str(snip),
                    app,
                ),
            )
        },
        State::Reborrow { .. } | State::Borrow { .. } => None,
    }
}

} // verus!
