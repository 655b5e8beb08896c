//! `ref` bindings that bind a reference: what the tracker is told, how a
//! record changes with each pattern and each use, and what is reported.
use vstd::prelude::*;
use vstd::string::*;
use crate::base::{Applicability, Snippet, SpanInfo};
use crate::expr::{ExprFacts, LocalUse, ParentKind, PREC_POSTFIX};
use crate::finding::{Finding, FindingView, Help, Lint, Message};
use crate::table::{
    distinct, edits_view, entries, entries_view, keys, position, table_contains, table_drain,
    table_insert, view_keys, RefLocals, RefPat, RefPatView,
};
use crate::text::joined;
use crate::ty::{Adjust, Ty};

verus! {

/// A binding made with `ref`, without `mut`.
#[derive(Debug)]
pub struct RefBinding {
    /// The node that stands for the binding in all its patterns.
    pub id: u64,
    /// The text of the bound name, read in the context of the pattern.
    pub name: Snippet,
}

/// Everything the tracker is told when it visits a pattern.
#[derive(Debug)]
pub struct PatFacts {
    pub hir_id: u64,
    pub span: SpanInfo,
    /// Set where the pattern is a `ref` binding.
    pub binding: Option<RefBinding>,
    /// The type of the pattern.
    pub ty: Ty,
    /// The body that the pattern lies in.
    pub enclosing_body: Option<u64>,
}

/// A body whose traversal has ended.
#[derive(Clone, Copy, Debug, PartialEq, Eq, Structural)]
pub struct BodyFacts {
    pub id: u64,
    /// The function or closure that the body belongs to.
    pub owner: u32,
}

/// The record of a binding that has just been seen for the first time.
pub open spec fn spec_first_sight(pat: &PatFacts, name: &Snippet) -> RefPatView {
    RefPatView {
        always_deref: true,
        spans: seq![pat.span.span],
        app: Applicability::MachineApplicable.spec_after(name.applicability),
        replacements: seq![(pat.span.span, name.text@)],
        hir_id: pat.hir_id,
    }
}

/// The record after a further pattern of the same binding.
pub open spec fn spec_further_sight(p: RefPatView, pat: &PatFacts, name: &Snippet) -> RefPatView {
    RefPatView {
        always_deref: p.always_deref,
        spans: p.spans.push(pat.span.span),
        app: p.app.spec_after(name.applicability),
        replacements: p.replacements.push((pat.span.span, name.text@)),
        hir_id: p.hir_id,
    }
}

/// Whether a binding of this pattern is put under watch: the pattern is
/// written by hand and binds a reference to a shared reference, for a
/// borrowed `&mut` cannot be moved out.
pub open spec fn spec_is_watched(pat: &PatFacts) -> bool {
    !pat.span.from_expansion && pat.ty.spec_is_ref_to_shared_ref()
}

/// The table after the pattern has been visited.
pub open spec fn spec_pattern_entries(
    table: Seq<(u64, Option<RefPatView>)>,
    pat: &PatFacts,
) -> Seq<(u64, Option<RefPatView>)> {
    match pat.binding {
        None => table,
        Some(b) => match position(view_keys(table), b.id) {
            Some(i) => match table[i].1 {
                None => table,
                Some(p) => if pat.span.from_expansion {
                    table.update(i, (b.id, None))
                } else {
                    table.update(i, (b.id, Some(spec_further_sight(p, pat, &b.name))))
                },
            },
            None => if spec_is_watched(pat) {
                table.push((b.id, Some(spec_first_sight(pat, &b.name))))
            } else {
                table
            },
        },
    }
}

/// The body at whose end the bindings are reported, after the pattern has
/// been visited: the body of the first binding put under watch.
pub open spec fn spec_pattern_body(
    table: Seq<(u64, Option<RefPatView>)>,
    current: Option<u64>,
    pat: &PatFacts,
) -> Option<u64> {
    if pat.binding is Some && position(view_keys(table), pat.binding->0.id) is None
        && spec_is_watched(pat) && current is None {
        pat.enclosing_body
    } else {
        current
    }
}

/// The keys of the exec entries are the keys of their views.
pub proof fn lemma_view_keys(e: Seq<(u64, Option<RefPat>)>)
    ensures
        view_keys(entries_view(e)) == keys(e),
        entries_view(e).len() == e.len(),
{
}

/// Visits a pattern: a further pattern of a binding under watch adds its
/// place and the edit that removes its `ref`, or, where a macro wrote it,
/// takes the binding out of the reports for good; a new `ref` binding of a
/// reference to a shared reference is put under watch.
pub(crate) fn note_pattern(table: &mut RefLocals, current_body: &mut Option<u64>, pat: &PatFacts)
    requires
        distinct(keys(entries(*old(table)))),
    ensures
        distinct(keys(entries(*final(table)))),
        entries_view(entries(*final(table))) == spec_pattern_entries(
            entries_view(entries(*old(table))),
            pat,
        ),
        *final(current_body) == spec_pattern_body(
            entries_view(entries(*old(table))),
            *old(current_body),
            pat,
        ),
{
    let ghost before = entries(*table);
    proof {
        lemma_view_keys(before);
    }
    let binding = match &pat.binding {
        Some(b) => b,
        None => {
            return ;
        },
    };
    let id = binding.id;
    let span = pat.span.span;
    if table_contains(table, id) {
        // The record is taken out of the table, changed and put back.
        let prev = table_insert(table, id, None);
        assert(keys(entries(*table)) =~= keys(before));
        if let Some(Some(p)) = prev {
            if !pat.span.from_expansion {
                let mut p = p;
                p.spans.push(span);
                p.app = p.app.after(binding.name.applicability);
                let ghost edits_before = edits_view(p.replacements@);
                p.replacements.push((span, binding.name.text.clone()));
                assert(edits_view(p.replacements@) =~= edits_before.push(
                    (span, binding.name.text@),
                ));
                table_insert(table, id, Some(p));
                assert(keys(entries(*table)) =~= keys(before));
            }
        }
        return ;
    }
    if !pat.span.from_expansion && pat.ty.is_ref_to_shared_ref() {
        let app = Applicability::MachineApplicable.after(binding.name.applicability);
        if current_body.is_none() {
            *current_body = pat.enclosing_body;
        }
        let mut spans = Vec::new();
        spans.push(span);
        let mut replacements: Vec<(rustc_span::Span, String)> = Vec::new();
        replacements.push((span, binding.name.text.clone()));
        assert(edits_view(replacements@) =~= seq![(span, binding.name.text@)]);
        let p = RefPat { always_deref: true, spans, app, replacements, hir_id: pat.hir_id };
        table_insert(table, id, Some(p));
        assert(keys(entries(*table)) =~= keys(before).push(id));
    }
}

/// What a use of a binding under watch asks for.
pub enum UsageEdit {
    /// The use can stay as it is.
    Keep,
    /// The binding cannot be reported any more.
    Poison,
    /// The place `span` is to be replaced by `text`; with `derefs` unset,
    /// the use is one that is not dereferenced.
    Replace { span: rustc_span::Span, text: Seq<char>, derefs: bool },
}

/// Whether the compiler dereferences the use at least twice by itself.
pub open spec fn spec_double_deref(adjustments: Seq<Adjust>) -> bool {
    adjustments.len() >= 2 && adjustments[0] == Adjust::Deref && adjustments[1] == Adjust::Deref
}

/// Whether the compiler dereferences the use at least twice by itself.
pub fn double_deref(adjustments: &Vec<Adjust>) -> (r: bool)
    ensures
        r == spec_double_deref(adjustments@),
{
    adjustments.len() >= 2 && adjustments[0].is_deref() && adjustments[1].is_deref()
}

/// The use with a `&` in front.
pub open spec fn spec_borrowed(expr: &ExprFacts, u: &LocalUse) -> UsageEdit {
    UsageEdit::Replace { span: expr.span.span, text: "&"@ + u.snippet.text@, derefs: false }
}

/// What the use `expr` of a binding asks for, once the `ref` is gone and
/// the binding holds the reference itself: nothing below a field access;
/// the loss of the `*` below a dereference; else a `&` in front, unless
/// the use stands in front of a postfix operator, where the `&` would need
/// parentheses, or comes out of a macro.
pub open spec fn spec_usage_edit(expr: &ExprFacts, u: &LocalUse) -> UsageEdit {
    match expr.parent {
        Some(parent) => if parent.kind == ParentKind::Field {
            UsageEdit::Keep
        } else if parent.kind == (ParentKind::Unary { deref: true }) && !parent.span.from_expansion {
            UsageEdit::Replace { span: parent.span.span, text: u.snippet.text@, derefs: true }
        } else if !parent.span.from_expansion {
            if parent.precedence == PREC_POSTFIX {
                UsageEdit::Poison
            } else {
                spec_borrowed(expr, u)
            }
        } else if !expr.span.from_expansion {
            spec_borrowed(expr, u)
        } else {
            UsageEdit::Poison
        },
        None => if !expr.span.from_expansion {
            spec_borrowed(expr, u)
        } else {
            UsageEdit::Poison
        },
    }
}

/// The record after the edit for one more use has been added.
pub open spec fn spec_with_edit(
    p: RefPatView,
    span: rustc_span::Span,
    text: Seq<char>,
    derefs: bool,
    read: Applicability,
) -> RefPatView {
    RefPatView {
        always_deref: p.always_deref && derefs,
        spans: p.spans,
        app: p.app.spec_after(read),
        replacements: p.replacements.push((span, text)),
        hir_id: p.hir_id,
    }
}

/// The table after the expression has been visited.
pub open spec fn spec_usage_entries(
    table: Seq<(u64, Option<RefPatView>)>,
    expr: &ExprFacts,
) -> Seq<(u64, Option<RefPatView>)> {
    match expr.local {
        None => table,
        Some(u) => match position(view_keys(table), u.local) {
            None => table,
            Some(i) => match table[i].1 {
                None => table,
                Some(p) => if spec_double_deref(u.adjustments@) {
                    table
                } else {
                    match spec_usage_edit(expr, &u) {
                        UsageEdit::Keep => table,
                        UsageEdit::Poison => table.update(i, (u.local, None)),
                        UsageEdit::Replace { span, text, derefs } => table.update(
                            i,
                            (
                                u.local,
                                Some(spec_with_edit(p, span, text, derefs, u.snippet.applicability)),
                            ),
                        ),
                    }
                },
            },
        },
    }
}

/// The three outcomes of looking at a use, for the running code.
enum Edit {
    Keep,
    Poison,
    Replace { span: rustc_span::Span, text: String, derefs: bool },
}

impl Edit {
    spec fn view(&self) -> UsageEdit {
        match self {
            Edit::Keep => UsageEdit::Keep,
            Edit::Poison => UsageEdit::Poison,
            Edit::Replace { span, text, derefs } => UsageEdit::Replace {
                span: *span,
                text: text@,
                derefs: *derefs,
            },
        }
    }
}

/// Works out what the use asks for.
fn usage_edit(expr: &ExprFacts, u: &LocalUse) -> (r: Edit)
    ensures
        r.view() == spec_usage_edit(expr, u),
{
    let snip = u.snippet.text.as_str();
    let borrow_ok = !expr.span.from_expansion;
    match expr.parent {
        Some(parent) => {
            match parent.kind {
                ParentKind::Field => {
                    return Edit::Keep;
                },
                ParentKind::Unary { deref } if deref && !parent.span.from_expansion => {
                    return Edit::Replace {
                        span: parent.span.span,
                        text: String::from_str(snip),
                        derefs: true,
                    };
                },
                _ => (),
            }
            if !parent.span.from_expansion {
                if parent.precedence == PREC_POSTFIX {
                    Edit::Poison
                } else {
                    Edit::Replace { span: expr.span.span, text: joined("&", snip), derefs: false }
                }
            } else if borrow_ok {
                Edit::Replace { span: expr.span.span, text: joined("&", snip), derefs: false }
            } else {
                Edit::Poison
            }
        },
        None => if borrow_ok {
            Edit::Replace { span: expr.span.span, text: joined("&", snip), derefs: false }
        } else {
            Edit::Poison
        },
    }
}

/// Visits the use of a local: where the local is a binding under watch and
/// the compiler does not dereference the use twice by itself, the record
/// takes the edit that the use asks for, or is taken out of the reports.
pub(crate) fn note_local_usage(table: &mut RefLocals, expr: &ExprFacts)
    requires
        distinct(keys(entries(*old(table)))),
    ensures
        distinct(keys(entries(*final(table)))),
        entries_view(entries(*final(table))) == spec_usage_entries(
            entries_view(entries(*old(table))),
            expr,
        ),
{
    let ghost before = entries(*table);
    proof {
        lemma_view_keys(before);
    }
    let u = match &expr.local {
        Some(u) => u,
        None => {
            return ;
        },
    };
    if !table_contains(table, u.local) || double_deref(&u.adjustments) {
        return ;
    }
    let edit = usage_edit(expr, u);
    if let Edit::Keep = edit {
        return ;
    }
    // The record is taken out of the table, changed and put back, unless
    // the binding is to be reported no more.
    let prev = table_insert(table, u.local, None);
    assert(keys(entries(*table)) =~= keys(before));
    if let Some(Some(p)) = prev {
        if let Edit::Replace { span, text, derefs } = edit {
            let mut p = p;
            let ghost edits_before = edits_view(p.replacements@);
            let ghost t = text@;
            if !derefs {
                p.always_deref = false;
            }
            p.app = p.app.after(u.snippet.applicability);
            p.replacements.push((span, text));
            assert(edits_view(p.replacements@) =~= edits_before.push((span, t)));
            table_insert(table, u.local, Some(p));
            assert(keys(entries(*table)) =~= keys(before));
        }
    }
}

/// The finding for a binding whose record is `p`: a needless borrow where
/// every use is dereferenced, else a `ref` binding to a reference.
pub open spec fn spec_binding_finding(p: RefPatView) -> FindingView {
    FindingView {
        lint: if p.always_deref {
            Lint::NeedlessBorrow
        } else {
            Lint::RefBindingToReference
        },
        hir_id: Some(p.hir_id),
        spans: p.spans,
        message: Message::ReferenceToReference,
        help: Help::Try,
        edits: p.replacements,
        applicability: p.app,
    }
}

/// The findings for the bindings of the table that can be reported, in the
/// order of the table.
pub open spec fn spec_binding_findings(table: Seq<(u64, Option<RefPatView>)>) -> Seq<FindingView>
    decreases table.len(),
{
    if table.len() == 0 {
        Seq::empty()
    } else {
        let front = spec_binding_findings(table.drop_last());
        match table.last().1 {
            Some(p) => front.push(spec_binding_finding(p)),
            None => front,
        }
    }
}

/// The findings as mathematical values.
pub open spec fn findings_view(findings: Seq<Finding>) -> Seq<FindingView> {
    findings.map_values(|f: Finding| f@)
}

/// Empties the table and reports every binding in it that was not taken
/// out of the reports, in the order in which the bindings were first seen.
pub(crate) fn flush(table: &mut RefLocals) -> (findings: Vec<Finding>)
    ensures
        entries(*final(table)) == Seq::<(u64, Option<RefPat>)>::empty(),
        findings_view(findings@) == spec_binding_findings(entries_view(entries(*old(table)))),
{
    let ghost before = entries_view(entries(*table));
    let mut all = table_drain(table);
    // The records are taken from the back, so the findings come out last
    // first; they are put in order afterwards.
    let mut reversed: Vec<Finding> = Vec::new();
    let ghost done: Seq<FindingView> = Seq::empty();
    while all.len() > 0
        invariant
            spec_binding_findings(before) == spec_binding_findings(entries_view(all@)) + done,
            done.len() == reversed@.len(),
            forall|k: int|
                0 <= k < done.len() ==> (#[trigger] reversed@[k])@ == done[done.len() - 1 - k],
        decreases all@.len(),
    {
        let ghost rest = entries_view(all@);
        let entry = all.pop();
        assert(entries_view(all@) =~= rest.drop_last());
        if let Some((_, Some(p))) = entry {
            let ghost pv = p@;
            let f = Finding {
                lint: if p.always_deref {
                    Lint::NeedlessBorrow
                } else {
                    Lint::RefBindingToReference
                },
                hir_id: Some(p.hir_id),
                spans: p.spans,
                message: Message::ReferenceToReference,
                help: Help::Try,
                edits: p.replacements,
                applicability: p.app,
            };
            reversed.push(f);
            proof {
                done = seq![spec_binding_finding(pv)] + done;
            }
        }
    }
    let mut findings: Vec<Finding> = Vec::new();
    while reversed.len() > 0
        invariant
            findings_view(findings@) + Seq::new(
                reversed@.len(),
                |k: int| reversed@[reversed@.len() - 1 - k]@,
            ) == done,
        decreases reversed@.len(),
    {
        if let Some(f) = reversed.pop() {
            findings.push(f);
        }
    }
    findings
}

} // verus!
