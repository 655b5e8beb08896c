//! The engine: one chain in progress, the table of `ref` bindings, and the
//! memo of the borrow check, driven by one call per visited node.
use vstd::prelude::*;
use crate::chain::{
    report, reported, spec_succ, succ, DerefedBorrow, State, StateData, StateDataView,
};
use crate::expr::ExprFacts;
use crate::finding::Finding;
use crate::generics::Msrv;
use crate::ref_op::{spec_operand, spec_ref_op, try_parse_ref_op, RefOp};
use crate::ref_pat::{
    findings_view, flush, note_local_usage, note_pattern, spec_binding_findings,
    spec_pattern_body, spec_pattern_entries, spec_usage_entries, BodyFacts, PatFacts,
};
use crate::start::{spec_start, spec_start_memo, start_with};
use crate::table::{distinct, entries, entries_view, keys, table_new, RefLocals, RefPatView};
use crate::ty::Ty;

verus! {

/// Whether the operation `op` at `expr` carries the chain `state` on.
pub open spec fn spec_continues(state: State, expr: &ExprFacts, op: RefOp) -> bool {
    match (state, op) {
        (State::DerefMethod { .. }, RefOp::Method { .. }) => true,
        (State::DerefedBorrow(b), RefOp::AddrOf(_)) => b.count != 0,
        (State::Borrow { .. }, RefOp::Deref) => true,
        (State::Reborrow { .. }, RefOp::Deref) => true,
        (State::ExplicitDeref { .. }, RefOp::Deref) => true,
        (State::ExplicitDerefField { name }, RefOp::Deref) => !spec_operand(expr).spec_contains_field(
            name,
        ),
        _ => false,
    }
}

/// What the chain `state` is found to be once the operation `op` at `expr`
/// has carried it on.
pub open spec fn spec_extend(state: State, expr: &ExprFacts, op: RefOp) -> State {
    match (state, op) {
        (
            State::DerefMethod { ty_changed_count, is_ufcs: _, mutbl },
            RefOp::Method { mutbl: _, is_ufcs },
        ) => State::DerefMethod {
            ty_changed_count: if expr.ty.spec_same_referent(&spec_operand(expr)) {
                ty_changed_count
            } else {
                spec_succ(ty_changed_count)
            },
            is_ufcs,
            mutbl,
        },
        (State::DerefedBorrow(b), RefOp::AddrOf(_)) => State::DerefedBorrow(
            DerefedBorrow {
                count: (b.count - 1) as usize,
                msg: b.msg,
                stability: b.stability,
                for_field_access: b.for_field_access,
            },
        ),
        (State::Borrow { mutability }, RefOp::Deref) => if spec_operand(expr).spec_is_ref() {
            State::Reborrow { mutability }
        } else {
            State::ExplicitDeref { mutability: Some(mutability) }
        },
        (State::Reborrow { mutability }, RefOp::Deref) => State::ExplicitDeref {
            mutability: Some(mutability),
        },
        _ => state,
    }
}

/// The chain that begins at `expr` right after the chain `state` has been
/// closed there: after a needless borrow, a further borrow or a
/// dereference may begin a chain of its own, which has to deliver the type
/// that the closed chain had to deliver.
pub open spec fn spec_reseed(state: State, data: StateDataView, expr: &ExprFacts, op: RefOp) -> Option<
    (State, StateDataView),
> {
    match (state, op) {
        (State::DerefedBorrow(b), RefOp::AddrOf(mutability)) => if b.stability.spec_is_deref_stable() {
            Some(
                (
                    State::Borrow { mutability },
                    StateDataView {
                        span: expr.span,
                        hir_id: expr.hir_id,
                        adjusted_ty: data.adjusted_ty,
                        parent: expr.parent,
                    },
                ),
            )
        } else {
            None
        },
        (State::DerefedBorrow(b), RefOp::Deref) => if b.for_field_access is Some && !spec_operand(
            expr,
        ).spec_contains_field(b.for_field_access->0) {
            Some(
                (
                    State::ExplicitDerefField { name: b.for_field_access->0 },
                    StateDataView {
                        span: expr.span,
                        hir_id: expr.hir_id,
                        adjusted_ty: data.adjusted_ty,
                        parent: expr.parent,
                    },
                ),
            )
        } else if b.stability.spec_is_deref_stable() && expr.parent is Some {
            Some(
                (
                    State::ExplicitDeref { mutability: None },
                    StateDataView {
                        span: expr.parent->0.span,
                        hir_id: expr.parent->0.hir_id,
                        adjusted_ty: data.adjusted_ty,
                        parent: None,
                    },
                ),
            )
        } else {
            None
        },
        _ => None,
    }
}

/// Whether the visit of `expr` ends every chain: the expression comes out
/// of a macro, or is no reference operation.
pub open spec fn spec_ends_chains(expr: &ExprFacts) -> bool {
    expr.span.from_expansion || spec_ref_op(expr) is None
}

/// The chain that the visit of `expr` closes: the chain in progress,
/// unless `expr` carries it on.
pub open spec fn spec_closed_chain(chain: Option<(State, StateDataView)>, expr: &ExprFacts) -> Option<
    (State, StateDataView),
> {
    match chain {
        Some((state, data)) => if !spec_ends_chains(expr) && spec_continues(
            state,
            expr,
            spec_ref_op(expr)->0,
        ) {
            None
        } else {
            chain
        },
        None => None,
    }
}

/// The chain in progress after the operation `op` at `expr` has been fed
/// to the chain `state` that began at `data`.
pub open spec fn spec_advance(state: State, data: StateDataView, expr: &ExprFacts, op: RefOp) -> Option<
    (State, StateDataView),
> {
    if spec_continues(state, expr, op) {
        Some((spec_extend(state, expr, op), data))
    } else {
        spec_reseed(state, data, expr, op)
    }
}

/// The chain that begins with the visit of `expr` where none is in
/// progress.
pub open spec fn spec_begin(expr: &ExprFacts, msrv: Msrv) -> Option<(State, StateDataView)> {
    if spec_ends_chains(expr) {
        None
    } else {
        spec_start(expr, spec_ref_op(expr)->0, msrv)
    }
}

/// The chain in progress after the visit of `expr`, where the chain
/// `state` that began at `data` was in progress before.
pub open spec fn spec_carry(state: State, data: StateDataView, expr: &ExprFacts) -> Option<
    (State, StateDataView),
> {
    if spec_ends_chains(expr) {
        None
    } else {
        spec_advance(state, data, expr, spec_ref_op(expr)->0)
    }
}

/// The chain in progress after the visit of `expr`.
pub open spec fn spec_next_chain(
    chain: Option<(State, StateDataView)>,
    expr: &ExprFacts,
    msrv: Msrv,
) -> Option<(State, StateDataView)> {
    match chain {
        Some((state, data)) => spec_carry(state, data, expr),
        None => spec_begin(expr, msrv),
    }
}

/// The function whose possible borrowers are remembered after the visit of
/// `expr`.
pub open spec fn spec_next_memo(
    chain: Option<(State, StateDataView)>,
    expr: &ExprFacts,
    msrv: Msrv,
    memo: Option<u32>,
) -> Option<u32> {
    if chain is None && !spec_ends_chains(expr) {
        spec_start_memo(expr, spec_ref_op(expr)->0, msrv, memo)
    } else {
        memo
    }
}

/// Whether `finding` is what the visit of `expr` owes for the chain that
/// it closes.
pub open spec fn spec_owed(
    finding: Option<Finding>,
    chain: Option<(State, StateDataView)>,
    expr: &ExprFacts,
) -> bool {
    match spec_closed_chain(chain, expr) {
        Some((state, data)) => reported(finding, expr, state, data),
        None => finding is None,
    }
}

/// The chain as a mathematical value.
pub open spec fn chain_view(chain: Option<(State, StateData)>) -> Option<(State, StateDataView)> {
    match chain {
        Some((state, data)) => Some((state, data@)),
        None => None,
    }
}

/// Feeds the operation `op` at `expr` to the chain in progress.
fn advance_with(state: State, data: StateData, expr: &ExprFacts, op: RefOp, operand: &Ty) -> (r:
    (Option<(State, StateData)>, Option<Finding>))
    requires
        spec_ref_op(expr) == Some(op),
        *operand == spec_operand(expr),
        !expr.span.from_expansion,
    ensures
        chain_view(r.0) == spec_advance(state, data@, expr, op),
        spec_owed(r.1, Some((state, data@)), expr),
{
    match (state, op) {
        (State::DerefMethod { ty_changed_count, is_ufcs: _, mutbl }, RefOp::Method { mutbl: _, is_ufcs }) => {
            let count = if expr.ty.same_referent(operand) {
                ty_changed_count
            } else {
                succ(ty_changed_count)
            };
            (Some((State::DerefMethod { ty_changed_count: count, is_ufcs, mutbl }, data)), None)
        },
        (State::DerefedBorrow(b), RefOp::AddrOf(mutability)) => {
            if b.count != 0 {
                (
                    Some(
                        (
                            State::DerefedBorrow(
                                DerefedBorrow {
                                    count: b.count - 1,
                                    msg: b.msg,
                                    stability: b.stability,
                                    for_field_access: b.for_field_access,
                                },
                            ),
                            data,
                        ),
                    ),
                    None,
                )
            } else {
                let finding = report(expr, state, &data);
                let next = if b.stability.is_deref_stable() {
                    Some(
                        (
                            State::Borrow { mutability },
                            StateData {
                                span: expr.span,
                                hir_id: expr.hir_id,
                                adjusted_ty: data.adjusted_ty,
                                parent: expr.parent,
                            },
                        ),
                    )
                } else {
                    None
                };
                (next, finding)
            }
        },
        (State::DerefedBorrow(b), RefOp::Deref) => {
            let finding = report(expr, state, &data);
            let field = match b.for_field_access {
                Some(name) => !operand.contains_field(name),
                None => false,
            };
            let next = if field {
                match b.for_field_access {
                    Some(name) => Some(
                        (
                            State::ExplicitDerefField { name },
                            StateData {
                                span: expr.span,
                                hir_id: expr.hir_id,
                                adjusted_ty: data.adjusted_ty,
                                parent: expr.parent,
                            },
                        ),
                    ),
                    None => None,
                }
            } else if b.stability.is_deref_stable() {
                match expr.parent {
                    Some(parent) => Some(
                        (
                            State::ExplicitDeref { mutability: None },
                            StateData {
                                span: parent.span,
                                hir_id: parent.hir_id,
                                adjusted_ty: data.adjusted_ty,
                                parent: None,
                            },
                        ),
                    ),
                    None => None,
                }
            } else {
                None
            };
            (next, finding)
        },
        (State::Borrow { mutability }, RefOp::Deref) => {
            if operand.is_ref() {
                (Some((State::Reborrow { mutability }, data)), None)
            } else {
                (Some((State::ExplicitDeref { mutability: Some(mutability) }, data)), None)
            }
        },
        (State::Reborrow { mutability }, RefOp::Deref) => {
            (Some((State::ExplicitDeref { mutability: Some(mutability) }, data)), None)
        },
        (State::ExplicitDeref { mutability }, RefOp::Deref) => { (Some((state, data)), None) },
        (State::ExplicitDerefField { name }, RefOp::Deref) => {
            if !operand.contains_field(name) {
                (Some((state, data)), None)
            } else {
                let finding = report(expr, state, &data);
                (None, finding)
            }
        },
        _ => {
            let finding = report(expr, state, &data);
            (None, finding)
        },
    }
}

/// Feeds `expr` to the chain `state` that began at `data`: the chain is
/// carried on, or it is closed and reported and, where `expr` can begin
/// one, followed by a new chain. An expression out of a macro and one that
/// is no reference operation close the chain for good.
pub fn advance_chain(state: State, data: StateData, expr: &ExprFacts) -> (r: (
    Option<(State, StateData)>,
    Option<Finding>,
))
    ensures
        chain_view(r.0) == spec_carry(state, data@, expr),
        spec_owed(r.1, Some((state, data@)), expr),
{
    let parsed = if expr.span.from_expansion {
        None
    } else {
        try_parse_ref_op(expr)
    };
    match parsed {
        Some((op, operand)) => advance_with(state, data, expr, op, operand),
        None => (None, report(expr, state, &data)),
    }
}

/// Begins a chain at `expr` where none is in progress: with a `*` that
/// automatic dereferencing covers, with a call of `deref` outside method
/// chains, or with a borrow that the compiler dereferences again. `memo`
/// is the function whose possible borrowers were worked out last.
pub fn start_chain(expr: &ExprFacts, memo: &mut Option<u32>, msrv: Msrv) -> (r: Option<
    (State, StateData),
>)
    ensures
        chain_view(r) == spec_begin(expr, msrv),
        *final(memo) == spec_next_memo(None, expr, msrv, *old(memo)),
{
    if expr.span.from_expansion {
        return None;
    }
    match try_parse_ref_op(expr) {
        Some((op, operand)) => start_with(expr, op, operand, memo, msrv),
        None => None,
    }
}

/// The lint engine. It is told of every expression and every pattern of a
/// body in the order of a pre-order walk, and of the end of every body.
pub struct Dereferencing {
    /// The chain in progress.
    state: Option<(State, StateData)>,
    /// The body at whose end the `ref` bindings are reported: that of the
    /// first binding put under watch. Bodies can be nested in each other,
    /// so not every end of a body is the time to report.
    current_body: Option<u64>,
    /// The `ref` bindings under watch. A binding without a record has been
    /// seen and must not be reported, as `x` in `m!(x) | Foo::Bar(ref x)`.
    ref_locals: RefLocals,
    /// The function whose possible borrowers were worked out last.
    possible_borrowers: Option<u32>,
    /// The oldest version of the language that suggestions may rely on.
    msrv: Msrv,
}

impl Default for Dereferencing {
    /// An engine that has seen nothing yet, with no oldest version set.
    fn default() -> (r: Dereferencing)
        ensures
            r.wf(),
            r.chain() is None,
            r.bindings() == Seq::<(u64, Option<RefPatView>)>::empty(),
            r.reporting_body() is None,
            r.borrowers() is None,
            r.min_version().current is None,
    {
        Dereferencing::new(Msrv { current: None })
    }
}

impl Dereferencing {
    /// The chain in progress.
    pub closed spec fn chain(&self) -> Option<(State, StateDataView)> {
        chain_view(self.state)
    }

    /// The `ref` bindings under watch, in the order in which they were
    /// first seen.
    pub closed spec fn bindings(&self) -> Seq<(u64, Option<RefPatView>)> {
        entries_view(entries(self.ref_locals))
    }

    /// The body at whose end the bindings are reported.
    pub closed spec fn reporting_body(&self) -> Option<u64> {
        self.current_body
    }

    /// The function whose possible borrowers are remembered.
    pub closed spec fn borrowers(&self) -> Option<u32> {
        self.possible_borrowers
    }

    /// The oldest version of the language that suggestions may rely on.
    pub closed spec fn min_version(&self) -> Msrv {
        self.msrv
    }

    /// The table holds each binding once.
    pub closed spec fn wf(&self) -> bool {
        distinct(keys(entries(self.ref_locals)))
    }

    /// An engine that has seen nothing yet.
    #[must_use]
    pub fn new(msrv: Msrv) -> (r: Self)
        ensures
            r.wf(),
            r.chain() is None,
            r.bindings() == Seq::<(u64, Option<RefPatView>)>::empty(),
            r.reporting_body() is None,
            r.borrowers() is None,
            r.min_version() == msrv,
    {
        let ref_locals = table_new();
        Dereferencing {
            state: None,
            current_body: None,
            ref_locals,
            possible_borrowers: None,
            msrv,
        }
    }

    /// What the chain in progress has been found to be so far.
    pub fn chain_state(&self) -> (r: Option<State>)
        ensures
            r == match self.chain() {
                Some((state, data)) => Some(state),
                None => None,
            },
    {
        match &self.state {
            Some((state, data)) => Some(*state),
            None => None,
        }
    }

    /// The node at which the chain in progress began.
    pub fn chain_anchor(&self) -> (r: Option<u64>)
        ensures
            r == match self.chain() {
                Some((state, data)) => Some(data.hir_id),
                None => None,
            },
    {
        match &self.state {
            Some((state, data)) => Some(data.hir_id),
            None => None,
        }
    }

    /// The syntax context in which the chain in progress began. The text
    /// of the next expression is to be read in this context.
    pub fn chain_context(&self) -> (r: Option<u32>)
        ensures
            r == match self.chain() {
                Some((state, data)) => Some(data.span.ctxt),
                None => None,
            },
    {
        match &self.state {
            Some((state, data)) => Some(data.span.ctxt),
            None => None,
        }
    }

    /// The function whose possible borrowers were worked out last.
    pub fn borrowers_owner(&self) -> (r: Option<u32>)
        ensures
            r == self.borrowers(),
    {
        self.possible_borrowers
    }

    /// The body at whose end the `ref` bindings are reported.
    pub fn current_body(&self) -> (r: Option<u64>)
        ensures
            r == self.reporting_body(),
    {
        self.current_body
    }

    /// The oldest version of the language that suggestions may rely on.
    pub fn msrv(&self) -> (r: Msrv)
        ensures
            r == self.min_version(),
    {
        self.msrv
    }

    /// Sets the oldest version of the language that suggestions may rely
    /// on, for the nodes visited from now on.
    pub fn set_msrv(&mut self, msrv: Msrv)
        ensures
            final(self).min_version() == msrv,
            final(self).wf() == old(self).wf(),
            final(self).chain() == old(self).chain(),
            final(self).bindings() == old(self).bindings(),
            final(self).borrowers() == old(self).borrowers(),
            final(self).reporting_body() == old(self).reporting_body(),
    {
        self.msrv = msrv;
    }

    /// Visits an expression. A use of a `ref` binding under watch is
    /// noted. Then the expression is fed to the chain in progress: it
    /// carries the chain on, or closes it, which yields the finding that is
    /// due for the chain, or begins a new chain where none is in progress.
    /// An expression out of a macro and one that is no reference operation
    /// close the chain in any case.
    pub fn check_expr(&mut self, expr: &ExprFacts) -> (finding: Option<Finding>)
        requires
            old(self).wf(),
        ensures
            final(self).wf(),
            final(self).bindings() == spec_usage_entries(old(self).bindings(), expr),
            final(self).chain() == spec_next_chain(
                old(self).chain(),
                expr,
                old(self).min_version(),
            ),
            spec_owed(finding, old(self).chain(), expr),
            final(self).borrowers() == spec_next_memo(
                old(self).chain(),
                expr,
                old(self).min_version(),
                old(self).borrowers(),
            ),
            final(self).reporting_body() == old(self).reporting_body(),
            final(self).min_version() == old(self).min_version(),
    {
        note_local_usage(&mut self.ref_locals, expr);
        match self.state.take() {
            None => {
                self.state = start_chain(expr, &mut self.possible_borrowers, self.msrv);
                None
            },
            Some((state, data)) => {
                let (next, finding) = advance_chain(state, data, expr);
                self.state = next;
                finding
            },
        }
    }

    /// Notes the use of a `ref` binding under watch, where `expr` is one:
    /// the record of the binding takes the edit that the use asks for, or
    /// is taken out of the reports.
    pub fn check_local_usage(&mut self, expr: &ExprFacts)
        requires
            old(self).wf(),
        ensures
            final(self).wf(),
            final(self).bindings() == spec_usage_entries(old(self).bindings(), expr),
            final(self).chain() == old(self).chain(),
            final(self).borrowers() == old(self).borrowers(),
            final(self).reporting_body() == old(self).reporting_body(),
            final(self).min_version() == old(self).min_version(),
    {
        note_local_usage(&mut self.ref_locals, expr);
    }

    /// Visits a pattern: a further pattern of a binding under watch adds
    /// its place and the edit that removes its `ref`, or, where a macro
    /// wrote it, takes the binding out of the reports for good; a new `ref`
    /// binding of a reference to a shared reference is put under watch.
    pub fn check_pat(&mut self, pat: &PatFacts)
        requires
            old(self).wf(),
        ensures
            final(self).wf(),
            final(self).bindings() == spec_pattern_entries(old(self).bindings(), pat),
            final(self).reporting_body() == spec_pattern_body(
                old(self).bindings(),
                old(self).reporting_body(),
                pat,
            ),
            final(self).chain() == old(self).chain(),
            final(self).borrowers() == old(self).borrowers(),
            final(self).min_version() == old(self).min_version(),
    {
        note_pattern(&mut self.ref_locals, &mut self.current_body, pat);
    }

    /// Ends the traversal of a body. No chain outlives a body: one that
    /// should still be in progress is dropped without a finding. The memo
    /// of the borrow check is dropped where it belongs to the owner of the
    /// body. At the end of the body in which the first `ref` binding was
    /// put under watch, all bindings are reported and the table is emptied.
    pub fn check_body_post(&mut self, body: BodyFacts) -> (findings: Vec<Finding>)
        requires
            old(self).wf(),
        ensures
            final(self).wf(),
            final(self).borrowers() == if old(self).borrowers() == Some(body.owner) {
                None
            } else {
                old(self).borrowers()
            },
            final(self).chain() is None,
            final(self).min_version() == old(self).min_version(),
            old(self).reporting_body() == Some(body.id) ==> {
                &&& findings_view(findings@) == spec_binding_findings(old(self).bindings())
                &&& final(self).bindings() == Seq::<(u64, Option<RefPatView>)>::empty()
                &&& final(self).reporting_body() is None
            },
            old(self).reporting_body() != Some(body.id) ==> {
                &&& findings@.len() == 0
                &&& final(self).bindings() == old(self).bindings()
                &&& final(self).reporting_body() == old(self).reporting_body()
            },
    {
        self.state = None;
        let drop_memo = match self.possible_borrowers {
            Some(owner) => owner == body.owner,
            None => false,
        };
        if drop_memo {
            self.possible_borrowers = None;
        }
        let reports = match self.current_body {
            Some(id) => id == body.id,
            None => false,
        };
        if reports {
            let findings = flush(&mut self.ref_locals);
            self.current_body = None;
            findings
        } else {
            Vec::new()
        }
    }
}

} // verus!
