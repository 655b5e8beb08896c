//! What holds of the engine over every run: a chain reports at most once,
//! and only when it closes; where a chain began stays fixed; a binding
//! taken out of the reports stays out.
use vstd::prelude::*;
use crate::chain::{spec_report, State, StateDataView};
use crate::expr::ExprFacts;
use crate::finding::Finding;
use crate::generics::{
    spec_bounds_forbid, spec_count_from, spec_may_move, spec_needless_borrow_count,
    spec_next_question, spec_peel, spec_peel_strict, spec_question_from, spec_ref_mut_bound,
    GenericArgFacts, GenericArgView, Msrv, Normalization, Peel, Predicate,
};
use crate::pass::{spec_closed_chain, spec_next_chain, spec_owed};
use crate::ref_pat::{
    spec_binding_finding, spec_binding_findings, spec_pattern_entries, spec_usage_entries,
    PatFacts,
};
use crate::stability::spec_pointee_stability;
use crate::substitution::{
    args_view, count_unset, lemma_set_one_more, none_set, spec_pushes, spec_replace_from,
    spec_replace_types, spec_sig_allows, Pushes,
};
use crate::table::{position, view_keys, RefPatView};
use crate::ty::{Pointee, TyView};

verus! {

/// A visit either carries the chain in progress on or closes it, never
/// both. A chain that is carried on keeps the place where it began and
/// yields no finding. A chain that is closed is closed as a whole; the
/// chain in progress afterwards, if any, begins at the visited expression
/// or at the expression around it.
pub proof fn lemma_visit_carries_or_closes(
    state: State,
    data: StateDataView,
    expr: &ExprFacts,
    msrv: Msrv,
    finding: Option<Finding>,
)
    requires
        spec_owed(finding, Some((state, data)), expr),
    ensures
        spec_closed_chain(Some((state, data)), expr) is None ==> {
            &&& finding is None
            &&& spec_next_chain(Some((state, data)), expr, msrv) matches Some(next) && next.1
                == data
        },
        spec_closed_chain(Some((state, data)), expr) is Some ==> {
            &&& spec_closed_chain(Some((state, data)), expr) == Some((state, data))
            &&& spec_next_chain(Some((state, data)), expr, msrv) matches Some(next) ==> {
                ||| next.1.hir_id == expr.hir_id
                ||| (expr.parent is Some && next.1.hir_id == expr.parent->0.hir_id)
            }
        },
{
}

/// A macro ends every chain: after the visit of an expression that a macro
/// produced, no chain is in progress, whatever the expression is.
pub proof fn lemma_macro_ends_every_chain(
    chain: Option<(State, StateDataView)>,
    expr: &ExprFacts,
    msrv: Msrv,
)
    requires
        expr.span.from_expansion,
    ensures
        spec_next_chain(chain, expr, msrv) is None,
        spec_closed_chain(chain, expr) == chain,
{
}

/// Where no chain is in progress, a visit yields no finding.
pub proof fn lemma_idle_engine_reports_nothing(expr: &ExprFacts, finding: Option<Finding>)
    requires
        spec_owed(finding, None, expr),
    ensures
        finding is None,
{
}

/// The chain in progress after the expressions `visits` have been visited
/// in their order, `chain` being the one in progress before.
pub open spec fn spec_run(
    chain: Option<(State, StateDataView)>,
    visits: Seq<ExprFacts>,
    msrv: Msrv,
) -> Option<(State, StateDataView)>
    decreases visits.len(),
{
    if visits.len() == 0 {
        chain
    } else {
        spec_next_chain(spec_run(chain, visits.drop_last(), msrv), &visits.last(), msrv)
    }
}

/// Whether the visit of `expr` begins a chain: one is in progress
/// afterwards that was not carried on.
pub open spec fn spec_begins(
    chain: Option<(State, StateDataView)>,
    expr: &ExprFacts,
    msrv: Msrv,
) -> bool {
    spec_next_chain(chain, expr, msrv) is Some && (chain is None || spec_closed_chain(chain, expr)
        is Some)
}

/// Whether the visit of `expr` owes a finding.
pub open spec fn spec_finding_due(chain: Option<(State, StateDataView)>, expr: &ExprFacts) -> bool {
    spec_closed_chain(chain, expr) matches Some((state, data)) && spec_report(expr, state, data)
        is Some
}

/// How many chains are begun during the visits.
pub open spec fn spec_begun(
    chain: Option<(State, StateDataView)>,
    visits: Seq<ExprFacts>,
    msrv: Msrv,
) -> nat
    decreases visits.len(),
{
    if visits.len() == 0 {
        0
    } else {
        spec_begun(chain, visits.drop_last(), msrv) + if spec_begins(
            spec_run(chain, visits.drop_last(), msrv),
            &visits.last(),
            msrv,
        ) {
            1nat
        } else {
            0nat
        }
    }
}

/// How many chains are closed during the visits.
pub open spec fn spec_closed(
    chain: Option<(State, StateDataView)>,
    visits: Seq<ExprFacts>,
    msrv: Msrv,
) -> nat
    decreases visits.len(),
{
    if visits.len() == 0 {
        0
    } else {
        spec_closed(chain, visits.drop_last(), msrv) + if spec_closed_chain(
            spec_run(chain, visits.drop_last(), msrv),
            &visits.last(),
        ) is Some {
            1nat
        } else {
            0nat
        }
    }
}

/// How many findings the visits owe.
pub open spec fn spec_findings_due(
    chain: Option<(State, StateDataView)>,
    visits: Seq<ExprFacts>,
    msrv: Msrv,
) -> nat
    decreases visits.len(),
{
    if visits.len() == 0 {
        0
    } else {
        spec_findings_due(chain, visits.drop_last(), msrv) + if spec_finding_due(
            spec_run(chain, visits.drop_last(), msrv),
            &visits.last(),
        ) {
            1nat
        } else {
            0nat
        }
    }
}

/// `1` for a chain in progress, `0` for none.
pub open spec fn spec_in_progress(chain: Option<(State, StateDataView)>) -> nat {
    if chain is Some {
        1
    } else {
        0
    }
}

/// Over every run of visits, each chain is closed exactly once or is
/// still in progress, and a finding comes only with the close of a chain:
/// no chain yields more than one finding.
pub proof fn lemma_no_chain_reports_twice(
    chain: Option<(State, StateDataView)>,
    visits: Seq<ExprFacts>,
    msrv: Msrv,
)
    ensures
        spec_closed(chain, visits, msrv) + spec_in_progress(spec_run(chain, visits, msrv))
            == spec_begun(chain, visits, msrv) + spec_in_progress(chain),
        spec_findings_due(chain, visits, msrv) <= spec_closed(chain, visits, msrv),
    decreases visits.len(),
{
    if visits.len() > 0 {
        lemma_no_chain_reports_twice(chain, visits.drop_last(), msrv);
    }
}

/// A binding that has been taken out of the reports stays out: no pattern
/// that is visited later brings its record back, and the bindings before
/// it keep their places.
pub proof fn lemma_pattern_keeps_poison(
    table: Seq<(u64, Option<RefPatView>)>,
    pat: &PatFacts,
    i: int,
)
    requires
        0 <= i < table.len(),
        table[i].1 is None,
    ensures
        i < spec_pattern_entries(table, pat).len(),
        spec_pattern_entries(table, pat)[i].0 == table[i].0,
        spec_pattern_entries(table, pat)[i].1 is None,
{
    if let Some(b) = pat.binding {
        lemma_position_holds_key(view_keys(table), b.id);
    }
}

/// The position that a lookup yields lies among the keys and holds the
/// key.
pub proof fn lemma_position_holds_key(keys: Seq<u64>, key: u64)
    ensures
        match position(keys, key) {
            Some(j) => 0 <= j < keys.len() && keys[j] == key,
            None => !keys.contains(key),
        },
{
}

/// A binding that has been taken out of the reports stays out: no use that
/// is visited later brings its record back.
pub proof fn lemma_usage_keeps_poison(
    table: Seq<(u64, Option<RefPatView>)>,
    expr: &ExprFacts,
    i: int,
)
    requires
        0 <= i < table.len(),
        table[i].1 is None,
    ensures
        i < spec_usage_entries(table, expr).len(),
        spec_usage_entries(table, expr)[i].0 == table[i].0,
        spec_usage_entries(table, expr)[i].1 is None,
{
    if let Some(u) = expr.local {
        lemma_position_holds_key(view_keys(table), u.local);
    }
}

/// Every finding at the end of a body stems from a record that is still in
/// the table: a binding without a record yields none, and there are never
/// more findings than bindings.
pub proof fn lemma_findings_stem_from_records(table: Seq<(u64, Option<RefPatView>)>, k: int)
    requires
        0 <= k < spec_binding_findings(table).len(),
    ensures
        spec_binding_findings(table).len() <= table.len(),
        exists|i: int|
            0 <= i < table.len() && (#[trigger] table[i]).1 is Some && spec_binding_findings(
                table,
            )[k] == spec_binding_finding(table[i].1->0),
    decreases table.len(),
{
    let front = table.drop_last();
    let before = spec_binding_findings(front);
    lemma_findings_bounded(front);
    if k < before.len() {
        lemma_findings_stem_from_records(front, k);
        let i = choose|i: int|
            0 <= i < front.len() && (#[trigger] front[i]).1 is Some && before[k]
                == spec_binding_finding(front[i].1->0);
        assert(table[i] == front[i]);
    } else {
        assert(table[table.len() - 1].1 is Some);
    }
}

/// There are never more findings than bindings.
pub proof fn lemma_findings_bounded(table: Seq<(u64, Option<RefPatView>)>)
    ensures
        spec_binding_findings(table).len() <= table.len(),
    decreases table.len(),
{
    if table.len() > 0 {
        lemma_findings_bounded(table.drop_last());
    }
}

/// A substitution that goes through leaves the signature alone: the
/// parameter that is replaced occurs in no input and not in the output,
/// but for the argument that is being looked at.
pub proof fn lemma_replace_spares_signature(
    param: u32,
    new_ty: TyView,
    sig: Seq<Vec<u32>>,
    arg_index: int,
    preds: Seq<Predicate>,
    table: Seq<Normalization>,
    args: Seq<GenericArgView>,
)
    requires
        spec_replace_types(param, new_ty, sig, arg_index, preds, table, args) is Some,
    ensures
        spec_sig_allows(sig, param, true, arg_index),
        (param as int) < args.len(),
{
    let replaced = Seq::new(args.len(), |i: int| false);
    assert(none_set(replaced));
    let queue = seq![(param, new_ty)];
    assert(queue[0] == (param, new_ty));
}

/// Where the bounds leave no question open, it makes no difference
/// whether open questions are asked or taken as unanswerable.
pub proof fn lemma_pushes_agree(
    preds: Seq<Predicate>,
    table: Seq<Normalization>,
    args: Seq<GenericArgView>,
    param: u32,
    new_ty: TyView,
    upto: int,
)
    requires
        !(spec_pushes(true, preds, table, args, param, new_ty, upto) is Ask),
    ensures
        spec_pushes(true, preds, table, args, param, new_ty, upto) == spec_pushes(
            false,
            preds,
            table,
            args,
            param,
            new_ty,
            upto,
        ),
    decreases upto,
{
    if upto > 0 {
        lemma_pushes_agree(preds, table, args, param, new_ty, upto - 1);
    }
}

/// Where a substitution leaves no question open, it makes no difference
/// whether open questions are asked or taken as unanswerable.
pub proof fn lemma_replace_agrees(
    sig: Seq<Vec<u32>>,
    arg_index: int,
    preds: Seq<Predicate>,
    table: Seq<Normalization>,
    queue: Seq<(u32, TyView)>,
    replaced: Seq<bool>,
    args: Seq<GenericArgView>,
)
    requires
        !(spec_replace_from(true, sig, arg_index, preds, table, queue, replaced, args) is Ask),
    ensures
        spec_replace_from(true, sig, arg_index, preds, table, queue, replaced, args)
            == spec_replace_from(false, sig, arg_index, preds, table, queue, replaced, args),
    decreases count_unset(replaced), queue.len(),
{
    if queue.len() > 0 {
        let param = queue[0].0;
        let new_ty = queue[0].1;
        let rest = queue.drop_first();
        if spec_sig_allows(sig, param, none_set(replaced), arg_index) && (param as int)
            < args.len() && (param as int) < replaced.len() {
            let args2 = args.update(param as int, GenericArgView::Type(new_ty));
            if replaced[param as int] {
                lemma_replace_agrees(sig, arg_index, preds, table, rest, replaced, args2);
            } else {
                lemma_pushes_agree(preds, table, args2, param, new_ty, preds.len() as int);
                if let Pushes::Items(more) = spec_pushes(
                    true,
                    preds,
                    table,
                    args2,
                    param,
                    new_ty,
                    preds.len() as int,
                ) {
                    lemma_set_one_more(replaced, param as int);
                    lemma_replace_agrees(
                        sig,
                        arg_index,
                        preds,
                        table,
                        rest + more,
                        replaced.update(param as int, true),
                        args2,
                    );
                }
            }
        }
    }
}

/// How many layers can be peeled from layer `k` on where every answer has
/// to come from the host.
pub open spec fn spec_answered_count_from(
    facts: &GenericArgFacts,
    arg_index: int,
    param: u32,
    msrv: Msrv,
    k: int,
    args: Seq<GenericArgView>,
) -> nat
    decreases facts.layers@.len() - k,
{
    if k < 0 || k >= facts.layers@.len() {
        0
    } else {
        match spec_peel_strict(facts, arg_index, param, msrv, k, args) {
            Peel::Done(after) => 1 + spec_answered_count_from(
                facts,
                arg_index,
                param,
                msrv,
                k + 1,
                after,
            ),
            _ => 0,
        }
    }
}

/// With no question left open from layer `k` on, the count of removable
/// borrows is the one that rests on the answers of the host alone.
pub proof fn lemma_answered_count_from(
    facts: &GenericArgFacts,
    arg_index: int,
    param: u32,
    msrv: Msrv,
    k: int,
    args: Seq<GenericArgView>,
)
    requires
        0 <= k,
        spec_question_from(facts, arg_index, param, msrv, k, args) is None,
    ensures
        spec_count_from(facts, arg_index, param, msrv, k, args) == spec_answered_count_from(
            facts,
            arg_index,
            param,
            msrv,
            k,
            args,
        ),
    decreases facts.layers@.len() - k,
{
    if k < facts.layers@.len() {
        let layer = &facts.layers@[k];
        if spec_may_move(layer) && (spec_ref_mut_bound(facts.call.predicates@, param)
            ==> layer.ty.spec_is_mut_ref()) {
            lemma_replace_agrees(
                facts.call.sig@,
                arg_index,
                facts.call.predicates@,
                facts.call.normalizations@,
                seq![(param, layer.ty@)],
                Seq::new(args.len(), |i: int| false),
                args,
            );
        }
        if let Peel::Done(after) = spec_peel_strict(facts, arg_index, param, msrv, k, args) {
            lemma_answered_count_from(facts, arg_index, param, msrv, k + 1, after);
        }
    }
}

/// With no question left open, the count of removable borrows is the one
/// that rests on the answers of the host alone.
pub proof fn lemma_answered_count(facts: &GenericArgFacts, arg_index: int, param: u32, msrv: Msrv)
    requires
        spec_next_question(facts, arg_index, param, msrv) is None,
        !spec_bounds_forbid(facts, param),
    ensures
        spec_needless_borrow_count(facts, arg_index, param, msrv) == spec_answered_count_from(
            facts,
            arg_index,
            param,
            msrv,
            0,
            args_view(facts.call.args@),
        ),
{
    lemma_answered_count_from(facts, arg_index, param, msrv, 0, args_view(facts.call.args@));
}

/// The number of borrows that can go never exceeds the number of borrows
/// that are there.
pub proof fn lemma_count_bounded(
    facts: &GenericArgFacts,
    arg_index: int,
    param: u32,
    msrv: Msrv,
    k: int,
    args: Seq<GenericArgView>,
)
    requires
        0 <= k <= facts.layers@.len(),
    ensures
        spec_count_from(facts, arg_index, param, msrv, k, args) <= facts.layers@.len() - k,
    decreases facts.layers@.len() - k,
{
    if k < facts.layers@.len() {
        if let Some(after) = spec_peel(facts, arg_index, param, msrv, k, args) {
            lemma_count_bounded(facts, arg_index, param, msrv, k + 1, after);
        }
    }
}

/// A type asked for in return position is no less stable than the same
/// type asked for elsewhere: what checked before the rewrite still checks
/// with the same substitution.
pub proof fn lemma_return_position_is_no_less_stable(p: Pointee)
    ensures
        spec_pointee_stability(p, false).spec_is_deref_stable() ==> spec_pointee_stability(
            p,
            true,
        ).spec_is_deref_stable(),
        spec_pointee_stability(p, false).spec_is_reborrow_stable(),
        spec_pointee_stability(p, true).spec_is_reborrow_stable(),
{
}

/// A parameter that has been replaced before takes the new type and
/// queues nothing: its bounds were followed the first time. This is what
/// ends a run over bounds that go in a circle.
pub proof fn lemma_replaced_parameter_queues_nothing(
    strict: bool,
    sig: Seq<Vec<u32>>,
    arg_index: int,
    preds: Seq<Predicate>,
    table: Seq<Normalization>,
    queue: Seq<(u32, TyView)>,
    replaced: Seq<bool>,
    args: Seq<GenericArgView>,
)
    requires
        queue.len() > 0,
        (queue[0].0 as int) < args.len(),
        (queue[0].0 as int) < replaced.len(),
        replaced[queue[0].0 as int],
        spec_sig_allows(sig, queue[0].0, false, arg_index),
    ensures
        spec_replace_from(strict, sig, arg_index, preds, table, queue, replaced, args)
            == spec_replace_from(
            strict,
            sig,
            arg_index,
            preds,
            table,
            queue.drop_first(),
            replaced,
            args.update(queue[0].0 as int, GenericArgView::Type(queue[0].1)),
        ),
{
    assert(!none_set(replaced));
}

/// How many parameters queue what their bounds ask for while the pending
/// substitutions in `queue` are worked off.
pub open spec fn spec_expansions(
    strict: bool,
    sig: Seq<Vec<u32>>,
    arg_index: int,
    preds: Seq<Predicate>,
    table: Seq<Normalization>,
    queue: Seq<(u32, TyView)>,
    replaced: Seq<bool>,
    args: Seq<GenericArgView>,
) -> nat
    decreases count_unset(replaced), queue.len(),
{
    if queue.len() == 0 {
        0
    } else {
        let param = queue[0].0;
        let new_ty = queue[0].1;
        let rest = queue.drop_first();
        if !spec_sig_allows(sig, param, none_set(replaced), arg_index) || param as int
            >= args.len() || param as int >= replaced.len() {
            0
        } else {
            let args2 = args.update(param as int, GenericArgView::Type(new_ty));
            if replaced[param as int] {
                spec_expansions(strict, sig, arg_index, preds, table, rest, replaced, args2)
            } else {
                match spec_pushes(strict, preds, table, args2, param, new_ty, preds.len() as int) {
                    Pushes::Items(more) => {
                        proof {
                            lemma_set_one_more(replaced, param as int);
                        }
                        1 + spec_expansions(
                            strict,
                            sig,
                            arg_index,
                            preds,
                            table,
                            rest + more,
                            replaced.update(param as int, true),
                            args2,
                        )
                    },
                    _ => 1,
                }
            }
        }
    }
}

/// However the bounds are tied to each other, in a circle or not, each
/// parameter queues what its bounds ask for at most once: no more
/// parameters do so than have not been replaced yet.
pub proof fn lemma_each_parameter_expands_once(
    strict: bool,
    sig: Seq<Vec<u32>>,
    arg_index: int,
    preds: Seq<Predicate>,
    table: Seq<Normalization>,
    queue: Seq<(u32, TyView)>,
    replaced: Seq<bool>,
    args: Seq<GenericArgView>,
)
    ensures
        spec_expansions(strict, sig, arg_index, preds, table, queue, replaced, args)
            <= count_unset(replaced),
    decreases count_unset(replaced), queue.len(),
{
    if queue.len() > 0 {
        let param = queue[0].0;
        let new_ty = queue[0].1;
        let rest = queue.drop_first();
        if spec_sig_allows(sig, param, none_set(replaced), arg_index) && (param as int)
            < args.len() && (param as int) < replaced.len() {
            let args2 = args.update(param as int, GenericArgView::Type(new_ty));
            if replaced[param as int] {
                lemma_each_parameter_expands_once(
                    strict,
                    sig,
                    arg_index,
                    preds,
                    table,
                    rest,
                    replaced,
                    args2,
                );
            } else {
                lemma_set_one_more(replaced, param as int);
                if let Pushes::Items(more) = spec_pushes(
                    strict,
                    preds,
                    table,
                    args2,
                    param,
                    new_ty,
                    preds.len() as int,
                ) {
                    lemma_each_parameter_expands_once(
                        strict,
                        sig,
                        arg_index,
                        preds,
                        table,
                        rest + more,
                        replaced.update(param as int, true),
                        args2,
                    );
                }
            }
        }
    }
}

/// A substitution that goes through leaves as many generic arguments as
/// there were, puts a type in the place of the parameter it began with,
/// and leaves a type wherever one stood.
pub proof fn lemma_replace_keeps_the_arguments(
    strict: bool,
    sig: Seq<Vec<u32>>,
    arg_index: int,
    preds: Seq<Predicate>,
    table: Seq<Normalization>,
    queue: Seq<(u32, TyView)>,
    replaced: Seq<bool>,
    args: Seq<GenericArgView>,
)
    requires
        spec_replace_from(strict, sig, arg_index, preds, table, queue, replaced, args) is Done,
    ensures
        ({
            let after = spec_replace_from(
                strict,
                sig,
                arg_index,
                preds,
                table,
                queue,
                replaced,
                args,
            )->Done_0;
            &&& after.len() == args.len()
            &&& queue.len() > 0 ==> after[queue[0].0 as int] is Type
            &&& forall|i: int| 0 <= i < args.len() && args[i] is Type ==> #[trigger] after[i] is Type
        }),
    decreases count_unset(replaced), queue.len(),
{
    if queue.len() > 0 {
        let param = queue[0].0;
        let new_ty = queue[0].1;
        let rest = queue.drop_first();
        let args2 = args.update(param as int, GenericArgView::Type(new_ty));
        if replaced[param as int] {
            lemma_replace_keeps_the_arguments(
                strict,
                sig,
                arg_index,
                preds,
                table,
                rest,
                replaced,
                args2,
            );
        } else {
            lemma_set_one_more(replaced, param as int);
            if let Pushes::Items(more) = spec_pushes(
                strict,
                preds,
                table,
                args2,
                param,
                new_ty,
                preds.len() as int,
            ) {
                lemma_replace_keeps_the_arguments(
                    strict,
                    sig,
                    arg_index,
                    preds,
                    table,
                    rest + more,
                    replaced.update(param as int, true),
                    args2,
                );
            }
        }
    }
}

} // verus!
