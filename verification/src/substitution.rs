//! Substituting a type for a generic parameter of a call, together with
//! every parameter that a bound ties to a projection of it.
use vstd::prelude::*;
use std::collections::VecDeque;
use crate::generics::{GenericArg, GenericArgView, Normalization, Predicate, ProjectionSelf};
use crate::ty::{Ty, TyView};

verus! {

/// The generic arguments as mathematical values.
pub open spec fn args_view(args: Seq<GenericArg>) -> Seq<GenericArgView> {
    args.map_values(|a: GenericArg| a@)
}

/// The pending substitutions as mathematical values.
pub open spec fn queue_view(queue: Seq<(u32, Ty)>) -> Seq<(u32, TyView)> {
    queue.map_values(|e: (u32, Ty)| (e.0, e.1@))
}

/// Whether two values stand for the same type: the same reference layers
/// around the same pointee.
pub open spec fn same_key(a: TyView, b: TyView) -> bool {
    a.refs == b.refs && a.id == b.id
}

/// The number of entries of `s` that are not set.
pub open spec fn count_unset(s: Seq<bool>) -> nat
    decreases s.len(),
{
    if s.len() == 0 {
        0
    } else {
        count_unset(s.drop_last()) + if s.last() {
            0nat
        } else {
            1nat
        }
    }
}

/// Whether no entry of `s` is set.
pub open spec fn none_set(s: Seq<bool>) -> bool {
    forall|i: int| 0 <= i < s.len() ==> !s[i]
}

/// Setting an entry that was not set leaves one unset entry fewer.
pub proof fn lemma_set_one_more(s: Seq<bool>, i: int)
    requires
        0 <= i < s.len(),
        !s[i],
    ensures
        count_unset(s.update(i, true)) + 1 == count_unset(s),
    decreases s.len(),
{
    if i == s.len() - 1 {
        assert(s.update(i, true).drop_last() =~= s.drop_last());
    } else {
        lemma_set_one_more(s.drop_last(), i);
        assert(s.update(i, true).drop_last() =~= s.drop_last().update(i, true));
    }
}

/// Whether the type parameter `param` occurs in no part of the signature,
/// but for the argument at `arg_index` while `first` holds.
pub open spec fn spec_sig_allows(sig: Seq<Vec<u32>>, param: u32, first: bool, arg_index: int) -> bool {
    forall|i: int|
        0 <= i < sig.len() ==> (first && i == arg_index) || !(#[trigger] sig[i])@.contains(param)
}

/// What the table of answers says to a question.
pub enum Answer {
    /// The table has no entry for the question.
    Missing,
    /// The normaliser was asked and could not tell.
    Failed,
    /// The normaliser gave this type.
    Projected(TyView),
}

/// A question that the table of answers leaves open: what the projection
/// of bound number `predicate` becomes with `self_ty` as its self type.
pub struct OpenQuestion {
    pub predicate: int,
    pub self_ty: TyView,
}

/// The answer of the normaliser for bound number `predicate` with
/// `self_ty` as self type: that of the first entry from `from` on that
/// speaks of them.
pub open spec fn spec_lookup(
    table: Seq<Normalization>,
    predicate: int,
    self_ty: TyView,
    from: int,
) -> Answer
    decreases table.len() - from,
{
    if from < 0 || from >= table.len() {
        Answer::Missing
    } else if table[from].predicate == predicate && same_key(table[from].self_ty@, self_ty) {
        match table[from].projected {
            Some(t) => Answer::Projected(t@),
            None => Answer::Failed,
        }
    } else {
        spec_lookup(table, predicate, self_ty, from + 1)
    }
}

/// What one bound asks for once a type stands for a parameter.
pub enum PushStep {
    /// Nothing.
    Nothing,
    /// That the parameter it is tied to takes the projected type.
    Item((u32, TyView)),
    /// That the substitution be given up: the parameter it is tied to is
    /// no generic argument of the call.
    GiveUp,
    /// That the normaliser be asked first.
    Ask,
}

/// What bound number `j` asks for once `new_ty` stands for `param`. A
/// question without an answer in the table counts as one that the
/// normaliser could not answer, unless `strict` is set.
pub open spec fn spec_push_of(
    strict: bool,
    pred: Predicate,
    j: int,
    table: Seq<Normalization>,
    args: Seq<GenericArgView>,
    param: u32,
    new_ty: TyView,
) -> PushStep {
    match pred {
        Predicate::Projection(p) => if p.self_ty == ProjectionSelf::Param(param)
            && p.term_param is Some {
            let term = p.term_param->0;
            match spec_lookup(table, j, new_ty, 0) {
                Answer::Projected(projected) => if term as int >= args.len() {
                    PushStep::GiveUp
                } else if args[term as int] matches GenericArgView::Type(cur) && same_key(
                    cur,
                    projected,
                ) {
                    PushStep::Nothing
                } else {
                    PushStep::Item((term, projected))
                },
                Answer::Failed => PushStep::Nothing,
                Answer::Missing => if strict {
                    PushStep::Ask
                } else {
                    PushStep::Nothing
                },
            }
        } else {
            PushStep::Nothing
        },
        _ => PushStep::Nothing,
    }
}

/// What a run over the bounds comes to.
pub enum Pushes {
    /// The substitutions to queue, in the order of the bounds.
    Items(Seq<(u32, TyView)>),
    GiveUp,
    /// The normaliser has to be asked about this bound first.
    Ask(int),
}

/// What the first `upto` bounds ask for, in their order.
pub open spec fn spec_pushes(
    strict: bool,
    preds: Seq<Predicate>,
    table: Seq<Normalization>,
    args: Seq<GenericArgView>,
    param: u32,
    new_ty: TyView,
    upto: int,
) -> Pushes
    decreases upto,
{
    if upto <= 0 {
        Pushes::Items(Seq::empty())
    } else {
        match spec_pushes(strict, preds, table, args, param, new_ty, upto - 1) {
            Pushes::Items(items) => match spec_push_of(
                strict,
                preds[upto - 1],
                upto - 1,
                table,
                args,
                param,
                new_ty,
            ) {
                PushStep::Nothing => Pushes::Items(items),
                PushStep::Item(item) => Pushes::Items(items.push(item)),
                PushStep::GiveUp => Pushes::GiveUp,
                PushStep::Ask => Pushes::Ask(upto - 1),
            },
            other => other,
        }
    }
}

/// What a substitution comes to.
pub enum Replaced {
    /// The generic arguments after the substitution.
    Done(Seq<GenericArgView>),
    /// The substitution cannot be made.
    Refused,
    /// The normaliser has to be asked first.
    Ask(OpenQuestion),
}

/// Works off the pending substitutions in `queue`, first come first
/// served. Each is refused where its parameter occurs in the signature
/// (the argument at `arg_index` excepted for the very first) or is no
/// generic argument of the call. A parameter that is replaced for the
/// first time queues what the bounds on its projections ask for. The
/// result is the arguments once the queue is empty.
pub open spec fn spec_replace_from(
    strict: bool,
    sig: Seq<Vec<u32>>,
    arg_index: int,
    preds: Seq<Predicate>,
    table: Seq<Normalization>,
    queue: Seq<(u32, TyView)>,
    replaced: Seq<bool>,
    args: Seq<GenericArgView>,
) -> Replaced
    decreases count_unset(replaced), queue.len(),
{
    if queue.len() == 0 {
        Replaced::Done(args)
    } else {
        let param = queue[0].0;
        let new_ty = queue[0].1;
        let rest = queue.drop_first();
        if !spec_sig_allows(sig, param, none_set(replaced), arg_index) || param as int
            >= args.len() || param as int >= replaced.len() {
            Replaced::Refused
        } else {
            let args2 = args.update(param as int, GenericArgView::Type(new_ty));
            if replaced[param as int] {
                spec_replace_from(strict, sig, arg_index, preds, table, rest, replaced, args2)
            } else {
                match spec_pushes(strict, preds, table, args2, param, new_ty, preds.len() as int) {
                    Pushes::GiveUp => Replaced::Refused,
                    Pushes::Ask(j) => Replaced::Ask(OpenQuestion { predicate: j, self_ty: new_ty }),
                    Pushes::Items(more) => {
                        proof {
                            lemma_set_one_more(replaced, param as int);
                        }
                        spec_replace_from(
                            strict,
                            sig,
                            arg_index,
                            preds,
                            table,
                            rest + more,
                            replaced.update(param as int, true),
                            args2,
                        )
                    },
                }
            }
        }
    }
}

/// What comes of putting `new_ty` in place of the parameter `param` in
/// the generic arguments of a call, every parameter that a bound ties to a
/// projection of a replaced one following. With `strict` set, a question
/// that the table of answers leaves open is asked; else it counts as one
/// that the normaliser could not answer.
pub open spec fn spec_replace_run(
    strict: bool,
    param: u32,
    new_ty: TyView,
    sig: Seq<Vec<u32>>,
    arg_index: int,
    preds: Seq<Predicate>,
    table: Seq<Normalization>,
    args: Seq<GenericArgView>,
) -> Replaced {
    spec_replace_from(
        strict,
        sig,
        arg_index,
        preds,
        table,
        seq![(param, new_ty)],
        Seq::new(args.len(), |i: int| false),
        args,
    )
}

/// The generic arguments of a call after `new_ty` has been put in place of
/// the parameter `param`, and after every parameter that a bound ties to a
/// projection of a replaced one has followed; nothing where that would
/// reach the signature anywhere but at `arg_index`.
pub open spec fn spec_replace_types(
    param: u32,
    new_ty: TyView,
    sig: Seq<Vec<u32>>,
    arg_index: int,
    preds: Seq<Predicate>,
    table: Seq<Normalization>,
    args: Seq<GenericArgView>,
) -> Option<Seq<GenericArgView>> {
    match spec_replace_run(false, param, new_ty, sig, arg_index, preds, table, args) {
        Replaced::Done(after) => Some(after),
        _ => None,
    }
}

/// Once a bound has put an end to the run, the bounds after it change
/// nothing.
pub proof fn lemma_pushes_stay(
    strict: bool,
    preds: Seq<Predicate>,
    table: Seq<Normalization>,
    args: Seq<GenericArgView>,
    param: u32,
    new_ty: TyView,
    j: int,
    upto: int,
)
    requires
        0 <= j <= upto,
        !(spec_pushes(strict, preds, table, args, param, new_ty, j) is Items),
    ensures
        spec_pushes(strict, preds, table, args, param, new_ty, upto) == spec_pushes(
            strict,
            preds,
            table,
            args,
            param,
            new_ty,
            j,
        ),
    decreases upto - j,
{
    if j < upto {
        lemma_pushes_stay(strict, preds, table, args, param, new_ty, j, upto - 1);
    }
}

/// Whether `x` is among `v`.
fn mentions(v: &Vec<u32>, x: u32) -> (r: bool)
    ensures
        r == v@.contains(x),
{
    let mut i: usize = 0;
    while i < v.len()
        invariant
            i <= v@.len(),
            forall|j: int| 0 <= j < i ==> v@[j] != x,
        decreases v@.len() - i,
    {
        if v[i] == x {
            return true;
        }
        i += 1;
    }
    false
}

/// Whether the signature leaves `param` free to be replaced.
fn sig_allows(sig: &Vec<Vec<u32>>, param: u32, first: bool, arg_index: usize) -> (r: bool)
    ensures
        r == spec_sig_allows(sig@, param, first, arg_index as int),
{
    let mut i: usize = 0;
    while i < sig.len()
        invariant
            i <= sig@.len(),
            forall|j: int|
                0 <= j < i ==> (first && j == arg_index) || !(#[trigger] sig@[j])@.contains(param),
        decreases sig@.len() - i,
    {
        if !(first && i == arg_index) && mentions(&sig[i], param) {
            return false;
        }
        i += 1;
    }
    true
}

/// What the table of answers says to a question, for the running code.
enum Found<'a> {
    Missing,
    Failed,
    Projected(&'a Ty),
}

impl<'a> Found<'a> {
    spec fn view(&self) -> Answer {
        match self {
            Found::Missing => Answer::Missing,
            Found::Failed => Answer::Failed,
            Found::Projected(t) => Answer::Projected(t@),
        }
    }
}

/// Looks up what the normaliser answered for bound number `predicate` with
/// `self_ty` as self type.
fn lookup<'a>(table: &'a Vec<Normalization>, predicate: usize, self_ty: &Ty) -> (r: Found<'a>)
    ensures
        r.view() == spec_lookup(table@, predicate as int, self_ty@, 0),
{
    let mut i: usize = 0;
    while i < table.len()
        invariant
            i <= table@.len(),
            spec_lookup(table@, predicate as int, self_ty@, 0) == spec_lookup(
                table@,
                predicate as int,
                self_ty@,
                i as int,
            ),
        decreases table@.len() - i,
    {
        if table[i].predicate == predicate && table[i].self_ty.same(self_ty) {
            return match &table[i].projected {
                Some(t) => Found::Projected(t),
                None => Found::Failed,
            };
        }
        i += 1;
    }
    Found::Missing
}

/// Whether the bound speaks of a projection straight from `param`, and if
/// so, to which parameter it binds the projection.
fn bound_term(pred: &Predicate, param: u32) -> (r: Option<u32>)
    ensures
        match r {
            Some(term) => pred matches Predicate::Projection(p) && p.self_ty
                == ProjectionSelf::Param(param) && p.term_param == Some(term),
            None => !(pred matches Predicate::Projection(p) && p.self_ty == ProjectionSelf::Param(
                param,
            ) && p.term_param is Some),
        },
{
    match pred {
        Predicate::Projection(p) => match &p.self_ty {
            ProjectionSelf::Param(q) => if *q == param {
                p.term_param
            } else {
                None
            },
            _ => None,
        },
        _ => None,
    }
}

/// What a substitution comes to, for the running code.
pub enum Substitution {
    /// The generic arguments after the substitution.
    Done(Vec<GenericArg>),
    /// The substitution cannot be made.
    Refused,
    /// The normaliser has to be asked first what the projection of bound
    /// number `predicate` becomes with `self_ty` as its self type.
    Ask { predicate: usize, self_ty: Ty },
}

impl View for Substitution {
    type V = Replaced;

    open spec fn view(&self) -> Replaced {
        match self {
            Substitution::Done(args) => Replaced::Done(args_view(args@)),
            Substitution::Refused => Replaced::Refused,
            Substitution::Ask { predicate, self_ty } => Replaced::Ask(
                OpenQuestion { predicate: *predicate as int, self_ty: self_ty@ },
            ),
        }
    }
}

/// Puts `new_ty` in place of the parameter `param_ty` in the generic
/// arguments of a call, and likewise each projected type that a bound ties
/// to a type parameter. With `strict` set, the run stops at the first
/// question that the table of answers leaves open and hands it out.
pub fn substitute(
    strict: bool,
    param_ty: u32,
    new_ty: &Ty,
    sig: &Vec<Vec<u32>>,
    arg_index: usize,
    predicates: &Vec<Predicate>,
    normalizations: &Vec<Normalization>,
    args: Vec<GenericArg>,
) -> (r: Substitution)
    ensures
        r@ == spec_replace_run(
            strict,
            param_ty,
            new_ty@,
            sig@,
            arg_index as int,
            predicates@,
            normalizations@,
            args_view(args@),
        ),
{
    let mut current = args;
    let n = current.len();
    let mut replaced: Vec<bool> = Vec::new();
    while replaced.len() < n
        invariant
            replaced@.len() <= n,
            forall|i: int| 0 <= i < replaced@.len() ==> !replaced@[i],
        decreases n - replaced@.len(),
    {
        replaced.push(false);
    }
    assert(replaced@ =~= Seq::new(n as nat, |i: int| false));
    let mut any_replaced = false;
    let mut deque: VecDeque<(u32, Ty)> = VecDeque::new();
    deque.push_back((param_ty, new_ty.duplicate()));
    let ghost goal = spec_replace_run(
        strict,
        param_ty,
        new_ty@,
        sig@,
        arg_index as int,
        predicates@,
        normalizations@,
        args_view(args@),
    );
    loop
        invariant
            replaced@.len() == n,
            current@.len() == n,
            goal == spec_replace_run(
                strict,
                param_ty,
                new_ty@,
                sig@,
                arg_index as int,
                predicates@,
                normalizations@,
                args_view(args@),
            ),
            any_replaced == !none_set(replaced@),
            spec_replace_from(
                strict,
                sig@,
                arg_index as int,
                predicates@,
                normalizations@,
                queue_view(deque@),
                replaced@,
                args_view(current@),
            ) == goal,
        decreases count_unset(replaced@), deque@.len(),
    {
        let ghost before = queue_view(deque@);
        let item = deque.pop_front();
        let (param, ty) = match item {
            Some(e) => e,
            None => {
                return Substitution::Done(current);
            },
        };
        let ghost rest = queue_view(deque@);
        assert(rest =~= before.drop_first());
        if !sig_allows(sig, param, !any_replaced, arg_index) {
            return Substitution::Refused;
        }
        let p = param as usize;
        if p >= n {
            return Substitution::Refused;
        }
        let ghost args_before = args_view(current@);
        current.set(p, GenericArg::Type(ty.duplicate()));
        assert(args_view(current@) =~= args_before.update(p as int, GenericArgView::Type(ty@)));
        if !replaced[p] {
            proof {
                lemma_set_one_more(replaced@, p as int);
            }
            replaced.set(p, true);
            any_replaced = true;
            assert(replaced@[p as int]);
            let ghost more: Seq<(u32, TyView)> = Seq::empty();
            let ghost whole = spec_pushes(
                strict,
                predicates@,
                normalizations@,
                args_view(current@),
                param,
                ty@,
                predicates@.len() as int,
            );
            let mut j: usize = 0;
            while j < predicates.len()
                invariant
                    j <= predicates@.len(),
                    current@.len() == n,
                    goal == spec_replace_run(
                        strict,
                        param_ty,
                        new_ty@,
                        sig@,
                        arg_index as int,
                        predicates@,
                        normalizations@,
                        args_view(args@),
                    ),
                    queue_view(deque@) == rest + more,
                    whole == spec_pushes(
                        strict,
                        predicates@,
                        normalizations@,
                        args_view(current@),
                        param,
                        ty@,
                        predicates@.len() as int,
                    ),
                    spec_pushes(
                        strict,
                        predicates@,
                        normalizations@,
                        args_view(current@),
                        param,
                        ty@,
                        j as int,
                    ) == Pushes::Items(more),
                    whole is GiveUp ==> goal is Refused,
                    whole matches Pushes::Ask(q) ==> goal == Replaced::Ask(
                        OpenQuestion { predicate: q, self_ty: ty@ },
                    ),
                decreases predicates@.len() - j,
            {
                if let Some(term) = bound_term(&predicates[j], param) {
                    match lookup(normalizations, j, &ty) {
                        Found::Projected(projected) => {
                            let t = term as usize;
                            if t >= n {
                                proof {
                                    lemma_pushes_stay(
                                        strict,
                                        predicates@,
                                        normalizations@,
                                        args_view(current@),
                                        param,
                                        ty@,
                                        j as int + 1,
                                        predicates@.len() as int,
                                    );
                                }
                                return Substitution::Refused;
                            }
                            let equal = match &current[t] {
                                GenericArg::Type(cur) => cur.same(projected),
                                _ => false,
                            };
                            if !equal {
                                let ghost queue_before = queue_view(deque@);
                                deque.push_back((term, projected.duplicate()));
                                proof {
                                    assert(queue_view(deque@) =~= queue_before.push(
                                        (term, projected@),
                                    ));
                                    more = more.push((term, projected@));
                                }
                            }
                        },
                        Found::Failed => (),
                        Found::Missing => {
                            if strict {
                                proof {
                                    lemma_pushes_stay(
                                        strict,
                                        predicates@,
                                        normalizations@,
                                        args_view(current@),
                                        param,
                                        ty@,
                                        j as int + 1,
                                        predicates@.len() as int,
                                    );
                                }
                                return Substitution::Ask { predicate: j, self_ty: ty };
                            }
                        },
                    }
                }
                j += 1;
            }
        }
    }
}

/// Puts `new_ty` in place of the parameter `param_ty` in the generic
/// arguments of a call, and likewise each projected type that a bound ties
/// to a type parameter. Gives nothing where that would change the
/// signature of the function beyond the argument at `arg_index`, or where a
/// parameter is met that is no generic argument of the call. A projection
/// for which the table holds no answer is not followed.
pub fn replace_types(
    param_ty: u32,
    new_ty: &Ty,
    sig: &Vec<Vec<u32>>,
    arg_index: usize,
    predicates: &Vec<Predicate>,
    normalizations: &Vec<Normalization>,
    args: Vec<GenericArg>,
) -> (r: Option<Vec<GenericArg>>)
    ensures
        match spec_replace_types(
            param_ty,
            new_ty@,
            sig@,
            arg_index as int,
            predicates@,
            normalizations@,
            args_view(args@),
        ) {
            Some(a) => r matches Some(v) && args_view(v@) == a,
            None => r is None,
        },
{
    match substitute(false, param_ty, new_ty, sig, arg_index, predicates, normalizations, args) {
        Substitution::Done(after) => Some(after),
        _ => None,
    }
}

} // verus!
