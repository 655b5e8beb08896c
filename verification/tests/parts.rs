use dereference::allow_attributes::{AllowAttribute, AttrFacts, AttrIdent, AttrStyle};
use dereference::base::{Applicability, Mutability, Snippet, SpanInfo};
use dereference::chain::{report, DerefedBorrow, State, StateData};
use dereference::expr::{
    Callee, ExprFacts, ExprKind, MatchSource, ParentExpr, ParentKind, QPath, UseCtxt, UseNode,
    PREC_POSTFIX, PREC_PREFIX,
};
use dereference::finding::{Help, Lint, Message};
use dereference::generics::{
    has_ref_mut_self_method, is_mixed_projection_predicate, needless_borrow_generic_arg_count,
    next_question, referent_used_exactly_once, Question, AssocItem, CallFacts, GenericArg, GenericArgFacts, Msrv,
    Normalization, Predicate, ProjectionPredicate, ProjectionSelf, ReferenceUse, Referent,
    RustcVersion, TraitKind, TraitPredicate,
};
use dereference::graph::block_in_cycle;
use dereference::hir_ty::{ty_contains_infer, HirArg, HirTy, HirTyKind};
use dereference::pass::{advance_chain, start_chain};
use dereference::ref_op::{
    deref_method_same_type, in_postfix_position, path_has_args, try_parse_ref_op,
    ty_contains_field, RefOp,
};
use dereference::stability::{DefinedTy, MirDefinedTy, TyCoercionStability};
use dereference::substitution::{replace_types, substitute, Substitution};
use dereference::text::{has_enclosing_paren, joined, parenthesized, repeat_star};
use dereference::ty::{Adjust, Adjustment, AdtKind, AliasKind, Pointee, Ty, TyKind};
use rustc_span::{BytePos, Span};

fn span(lo: u32, hi: u32) -> Span {
    Span::new(BytePos(lo), BytePos(hi))
}

fn at(lo: u32, hi: u32) -> SpanInfo {
    SpanInfo { span: span(lo, hi), from_expansion: false, ctxt: 0 }
}

fn ty(refs: Vec<Mutability>, id: u64, kind: TyKind) -> Ty {
    Ty {
        refs,
        pointee: Pointee {
            id,
            kind,
            fields: Vec::new(),
            has_non_region_param: false,
            has_infer: false,
            has_placeholders: false,
            has_opaque_types: false,
            args_have_non_region_param: false,
            is_sized: true,
        },
    }
}

fn shared(refs: usize, id: u64, kind: TyKind) -> Ty {
    ty(vec![Mutability::Not; refs], id, kind)
}

fn text(s: &str) -> Snippet {
    Snippet {
        text: s.to_string(),
        is_macro_call: false,
        applicability: Applicability::MachineApplicable,
    }
}

fn expr(kind: ExprKind, ty: Ty, snippet: &str, precedence: i8) -> ExprFacts {
    ExprFacts {
        hir_id: 1,
        span: at(0, 4),
        kind,
        adjusted_ty: ty.duplicate(),
        ty,
        precedence,
        snippet: text(snippet),
        parent: None,
        use_cx: None,
        deref_method_lint_allowed: false,
        local: None,
    }
}

fn anchor(adjusted_ty: Ty, parent: Option<ParentExpr>) -> StateData {
    StateData { span: at(10, 20), hir_id: 7, adjusted_ty, parent }
}

fn path_ty(parts: Vec<HirArg>) -> HirTy {
    HirTy::Other { kind: HirTyKind::Path, parts }
}

fn hir_ref(inner: HirTy) -> HirTy {
    HirTy::Ref(Box::new(inner))
}

fn other(kind: HirTyKind, parts: Vec<HirArg>) -> HirTy {
    HirTy::Other { kind, parts }
}

#[test]
fn stability_predicates() {
    assert!(TyCoercionStability::Deref.is_deref_stable());
    assert!(!TyCoercionStability::Reborrow.is_deref_stable());
    assert!(!TyCoercionStability::Unconstrained.is_deref_stable());
    assert!(TyCoercionStability::Deref.is_reborrow_stable());
    assert!(TyCoercionStability::Reborrow.is_reborrow_stable());
    assert!(!TyCoercionStability::Unconstrained.is_reborrow_stable());
}

#[test]
fn written_type_that_is_no_reference_constrains_nothing() {
    assert_eq!(TyCoercionStability::for_hir_ty(&path_ty(vec![])), TyCoercionStability::Unconstrained);
    assert_eq!(
        TyCoercionStability::for_hir_ty(&other(HirTyKind::Infer, vec![])),
        TyCoercionStability::Unconstrained
    );
}

#[test]
fn written_reference_to_a_concrete_type_is_deref_stable() {
    assert_eq!(
        TyCoercionStability::for_hir_ty(&hir_ref(path_ty(vec![HirArg::Type(path_ty(vec![]))]))),
        TyCoercionStability::Deref
    );
    for kind in [
        HirTyKind::Slice,
        HirTyKind::Array,
        HirTyKind::Ptr,
        HirTyKind::BareFn,
        HirTyKind::Never,
        HirTyKind::Tup,
    ] {
        let parts = || vec![HirArg::Type(path_ty(vec![])), HirArg::Lifetime, HirArg::Const];
        assert_eq!(
            TyCoercionStability::for_hir_ty(&hir_ref(hir_ref(other(kind, parts())))),
            TyCoercionStability::Deref
        );
        assert_eq!(
            TyCoercionStability::for_hir_ty(&hir_ref(other(kind, vec![]))),
            TyCoercionStability::Deref
        );
    }
    // `&Box<dyn Trait>`: only what is left to inference counts below the top
    assert_eq!(
        TyCoercionStability::for_hir_ty(&hir_ref(path_ty(vec![HirArg::Type(other(
            HirTyKind::TraitObject,
            vec![]
        ))]))),
        TyCoercionStability::Deref
    );
}

#[test]
fn written_reference_to_a_type_with_an_inferred_part_is_reborrow_stable() {
    let infer = || HirArg::Type(other(HirTyKind::Infer, vec![]));
    let u8_ty = || HirArg::Type(path_ty(vec![]));
    // `&[_]`
    assert_eq!(
        TyCoercionStability::for_hir_ty(&hir_ref(other(HirTyKind::Slice, vec![infer()]))),
        TyCoercionStability::Reborrow
    );
    // `&[_; 2]` and `&[u8; _]`
    assert_eq!(
        TyCoercionStability::for_hir_ty(&hir_ref(other(HirTyKind::Array, vec![infer()]))),
        TyCoercionStability::Reborrow
    );
    assert_eq!(
        TyCoercionStability::for_hir_ty(&hir_ref(other(
            HirTyKind::Array,
            vec![u8_ty(), HirArg::Infer]
        ))),
        TyCoercionStability::Reborrow
    );
    // `&(_, u8)` and `&(u8, _)`
    assert_eq!(
        TyCoercionStability::for_hir_ty(&hir_ref(other(HirTyKind::Tup, vec![infer(), u8_ty()]))),
        TyCoercionStability::Reborrow
    );
    assert_eq!(
        TyCoercionStability::for_hir_ty(&hir_ref(other(HirTyKind::Tup, vec![u8_ty(), infer()]))),
        TyCoercionStability::Reborrow
    );
    // `&*const _` and `&fn(u8) -> _`
    assert_eq!(
        TyCoercionStability::for_hir_ty(&hir_ref(other(HirTyKind::Ptr, vec![infer()]))),
        TyCoercionStability::Reborrow
    );
    assert_eq!(
        TyCoercionStability::for_hir_ty(&hir_ref(other(HirTyKind::BareFn, vec![u8_ty(), infer()]))),
        TyCoercionStability::Reborrow
    );
    // `&&[(u8, Vec<_>)]`
    let deep = other(
        HirTyKind::Slice,
        vec![HirArg::Type(other(
            HirTyKind::Tup,
            vec![u8_ty(), HirArg::Type(path_ty(vec![HirArg::Infer]))],
        ))],
    );
    assert_eq!(
        TyCoercionStability::for_hir_ty(&hir_ref(hir_ref(deep))),
        TyCoercionStability::Reborrow
    );
    // `&[impl Trait]`
    assert_eq!(
        TyCoercionStability::for_hir_ty(&hir_ref(other(
            HirTyKind::Slice,
            vec![HirArg::Type(other(HirTyKind::OpaqueDef, vec![]))]
        ))),
        TyCoercionStability::Reborrow
    );
}

#[test]
fn written_reference_to_an_inferred_type_is_reborrow_stable() {
    // `&Box<_>`
    assert_eq!(
        TyCoercionStability::for_hir_ty(&hir_ref(path_ty(vec![HirArg::Infer]))),
        TyCoercionStability::Reborrow
    );
    // `&Box<Vec<_>>`
    assert_eq!(
        TyCoercionStability::for_hir_ty(&hir_ref(path_ty(vec![HirArg::Type(path_ty(vec![
            HirArg::Lifetime,
            HirArg::Infer
        ]))]))),
        TyCoercionStability::Reborrow
    );
    for kind in [
        HirTyKind::OpaqueDef,
        HirTyKind::Infer,
        HirTyKind::Typeof,
        HirTyKind::TraitObject,
        HirTyKind::Error,
    ] {
        assert_eq!(
            TyCoercionStability::for_hir_ty(&hir_ref(other(kind, vec![]))),
            TyCoercionStability::Reborrow
        );
    }
}

#[test]
fn inference_anywhere_in_a_path_counts() {
    // `&<Vec<_>>::Item<3>`: the self type comes first, then the arguments
    let t = path_ty(vec![HirArg::Type(path_ty(vec![HirArg::Infer])), HirArg::Const]);
    assert!(ty_contains_infer(&t));
    assert_eq!(TyCoercionStability::for_hir_ty(&hir_ref(t)), TyCoercionStability::Reborrow);
    // `&Foo<_>::Bar<'a>`
    let t = path_ty(vec![HirArg::Infer, HirArg::Lifetime]);
    assert_eq!(TyCoercionStability::for_hir_ty(&hir_ref(t)), TyCoercionStability::Reborrow);
    // `&<Vec<u8>>::Item<3>`
    let written_out = path_ty(vec![HirArg::Type(path_ty(vec![HirArg::Type(path_ty(vec![]))])), HirArg::Const]);
    assert!(!ty_contains_infer(&written_out));
    assert_eq!(TyCoercionStability::for_hir_ty(&hir_ref(written_out)), TyCoercionStability::Deref);
}

#[test]
fn inferred_types_are_found_at_any_depth() {
    assert!(!ty_contains_infer(&path_ty(vec![HirArg::Lifetime, HirArg::Const])));
    assert!(ty_contains_infer(&other(HirTyKind::Infer, vec![])));
    assert!(ty_contains_infer(&other(HirTyKind::Typeof, vec![])));
    assert!(ty_contains_infer(&other(HirTyKind::OpaqueDef, vec![])));
    assert!(ty_contains_infer(&other(HirTyKind::Error, vec![])));
    assert!(!ty_contains_infer(&other(HirTyKind::TraitObject, vec![])));
    assert!(ty_contains_infer(&other(
        HirTyKind::Slice,
        vec![HirArg::Type(other(HirTyKind::Infer, vec![]))]
    )));
    assert!(ty_contains_infer(&hir_ref(other(
        HirTyKind::Tup,
        vec![
            HirArg::Type(path_ty(vec![])),
            HirArg::Type(path_ty(vec![HirArg::Type(hir_ref(path_ty(vec![HirArg::Infer])))])),
        ]
    ))));
    assert!(!ty_contains_infer(&hir_ref(other(
        HirTyKind::Tup,
        vec![HirArg::Type(path_ty(vec![])), HirArg::Type(path_ty(vec![HirArg::Lifetime]))]
    ))));
}

fn mir(ty: Ty) -> MirDefinedTy {
    MirDefinedTy { ty, normalized_referent: None }
}

#[test]
fn resolved_type_that_is_no_reference_constrains_nothing() {
    assert_eq!(
        TyCoercionStability::for_mir_ty(&mir(shared(0, 1, TyKind::Int)), false),
        TyCoercionStability::Unconstrained
    );
    assert_eq!(
        TyCoercionStability::for_mir_ty(&mir(shared(0, 1, TyKind::Param(0))), true),
        TyCoercionStability::Unconstrained
    );
}

#[test]
fn resolved_reference_to_a_concrete_type_is_deref_stable() {
    for kind in [
        TyKind::Bool,
        TyKind::Char,
        TyKind::Int,
        TyKind::Uint,
        TyKind::Float,
        TyKind::Str,
        TyKind::Never,
        TyKind::Foreign,
        TyKind::FnDef,
        TyKind::FnPtr,
        TyKind::Closure,
        TyKind::Generator,
        TyKind::GeneratorWitness,
        TyKind::GeneratorWitnessMir,
        TyKind::Array,
        TyKind::Slice,
        TyKind::RawPtr,
        TyKind::Tuple,
        TyKind::Adt(AdtKind::Struct),
        TyKind::Adt(AdtKind::Enum),
        TyKind::Alias(AliasKind::Projection),
    ] {
        for for_return in [false, true] {
            assert_eq!(
                TyCoercionStability::for_mir_ty(&mir(shared(3, 1, kind)), for_return),
                TyCoercionStability::Deref
            );
        }
    }
}

#[test]
fn resolved_reference_to_an_open_type_is_reborrow_stable() {
    for kind in [
        TyKind::Infer,
        TyKind::Error,
        TyKind::Bound,
        TyKind::Placeholder,
        TyKind::Dynamic,
        TyKind::Alias(AliasKind::Opaque),
        TyKind::Alias(AliasKind::Weak),
        TyKind::Alias(AliasKind::Inherent),
    ] {
        for for_return in [false, true] {
            assert_eq!(
                TyCoercionStability::for_mir_ty(&mir(shared(1, 1, kind)), for_return),
                TyCoercionStability::Reborrow
            );
        }
    }
}

#[test]
fn type_parameter_is_stable_only_in_return_position() {
    let t = mir(shared(1, 1, TyKind::Param(2)));
    assert_eq!(TyCoercionStability::for_mir_ty(&t, true), TyCoercionStability::Deref);
    assert_eq!(TyCoercionStability::for_mir_ty(&t, false), TyCoercionStability::Reborrow);
}

#[test]
fn projection_with_parameters_is_stable_only_in_return_position() {
    let mut t = shared(1, 1, TyKind::Alias(AliasKind::Projection));
    t.pointee.has_non_region_param = true;
    let t = mir(t);
    assert_eq!(TyCoercionStability::for_mir_ty(&t, true), TyCoercionStability::Deref);
    assert_eq!(TyCoercionStability::for_mir_ty(&t, false), TyCoercionStability::Reborrow);
}

#[test]
fn resolved_type_that_holds_a_placeholder_or_an_opaque_type() {
    for kind in [
        TyKind::Tuple,
        TyKind::Array,
        TyKind::Slice,
        TyKind::RawPtr,
        TyKind::FnPtr,
        TyKind::FnDef,
        TyKind::Closure,
        TyKind::Generator,
        TyKind::Adt(AdtKind::Struct),
        TyKind::Alias(AliasKind::Projection),
    ] {
        for for_return in [false, true] {
            let mut with_placeholders = shared(1, 1, kind);
            with_placeholders.pointee.has_placeholders = true;
            assert_eq!(
                TyCoercionStability::for_mir_ty(&mir(with_placeholders), for_return),
                TyCoercionStability::Reborrow
            );
            let mut with_opaque = shared(2, 1, kind);
            with_opaque.pointee.has_opaque_types = true;
            assert_eq!(
                TyCoercionStability::for_mir_ty(&mir(with_opaque), for_return),
                TyCoercionStability::Reborrow
            );
            let mut with_infer = shared(1, 1, kind);
            with_infer.pointee.has_infer = true;
            assert_eq!(
                TyCoercionStability::for_mir_ty(&mir(with_infer), for_return),
                TyCoercionStability::Reborrow
            );
        }
    }
    // the normalised referent is what is judged
    let mut open_tuple = shared(0, 2, TyKind::Tuple);
    open_tuple.pointee.has_opaque_types = true;
    let t = MirDefinedTy {
        ty: shared(1, 1, TyKind::Alias(AliasKind::Projection)),
        normalized_referent: Some(open_tuple),
    };
    assert_eq!(TyCoercionStability::for_mir_ty(&t, true), TyCoercionStability::Reborrow);
}

#[test]
fn nominal_type_with_open_arguments() {
    let mut with_params = shared(1, 1, TyKind::Adt(AdtKind::Struct));
    with_params.pointee.args_have_non_region_param = true;
    let with_params = mir(with_params);
    assert_eq!(TyCoercionStability::for_mir_ty(&with_params, false), TyCoercionStability::Reborrow);
    assert_eq!(TyCoercionStability::for_mir_ty(&with_params, true), TyCoercionStability::Deref);
    let mut with_placeholders = shared(1, 1, TyKind::Adt(AdtKind::Struct));
    with_placeholders.pointee.has_placeholders = true;
    assert_eq!(
        TyCoercionStability::for_mir_ty(&mir(with_placeholders), true),
        TyCoercionStability::Reborrow
    );
    let mut with_opaque = shared(1, 1, TyKind::Adt(AdtKind::Enum));
    with_opaque.pointee.has_opaque_types = true;
    assert_eq!(
        TyCoercionStability::for_mir_ty(&mir(with_opaque), true),
        TyCoercionStability::Reborrow
    );
}

#[test]
fn normalised_referent_takes_the_place_of_the_written_one() {
    let t = MirDefinedTy {
        ty: shared(1, 1, TyKind::Alias(AliasKind::Opaque)),
        normalized_referent: Some(shared(2, 2, TyKind::Int)),
    };
    assert_eq!(TyCoercionStability::for_mir_ty(&t, false), TyCoercionStability::Deref);
    assert_eq!(
        TyCoercionStability::for_defined_ty(&DefinedTy::Mir(t), false),
        TyCoercionStability::Deref
    );
    assert_eq!(
        TyCoercionStability::for_defined_ty(&DefinedTy::Hir(hir_ref(path_ty(vec![HirArg::Infer]))), true),
        TyCoercionStability::Reborrow
    );
}

#[test]
fn enclosing_parentheses() {
    assert!(has_enclosing_paren("(x)"));
    assert!(has_enclosing_paren("((a) + (b))"));
    assert!(has_enclosing_paren("()"));
    assert!(has_enclosing_paren("("));
    assert!(has_enclosing_paren("(abc"));
    assert!(!has_enclosing_paren(""));
    assert!(!has_enclosing_paren("x"));
    assert!(!has_enclosing_paren("(a) + (b)"));
    assert!(!has_enclosing_paren("(a)b"));
    assert!(!has_enclosing_paren("a(b)"));
    assert!(!has_enclosing_paren(")("));
    assert!(!has_enclosing_paren("())"));
    assert!(has_enclosing_paren("(é)"));
}

#[test]
fn text_pieces() {
    assert_eq!(repeat_star(0), "");
    assert_eq!(repeat_star(3), "***");
    assert_eq!(parenthesized("a + b"), "(a + b)");
    assert_eq!(joined("&mut ", "x"), "&mut x");
}

#[test]
fn applicability_after_reading_a_snippet() {
    let (machine, maybe, holes, unknown) = (
        Applicability::MachineApplicable,
        Applicability::MaybeIncorrect,
        Applicability::HasPlaceholders,
        Applicability::Unspecified,
    );
    assert_eq!(machine.after(machine), machine);
    assert_eq!(machine.after(maybe), maybe);
    assert_eq!(machine.after(holes), holes);
    assert_eq!(holes.after(maybe), maybe);
    assert_eq!(holes.after(machine), holes);
    assert_eq!(maybe.after(holes), maybe);
    assert_eq!(maybe.after(machine), maybe);
    assert_eq!(unknown.after(maybe), unknown);
    assert_eq!(unknown.after(holes), unknown);
    assert_eq!(machine.after(unknown), machine);
}

#[test]
fn type_helpers() {
    let mut s = shared(0, 1, TyKind::Adt(AdtKind::Struct));
    s.pointee.fields = vec![3, 5, 8];
    assert!(ty_contains_field(&s, 5));
    assert!(!ty_contains_field(&s, 4));
    let mut e = shared(0, 1, TyKind::Adt(AdtKind::Enum));
    e.pointee.fields = vec![5];
    assert!(!ty_contains_field(&e, 5));
    let mut r = shared(1, 1, TyKind::Adt(AdtKind::Struct));
    r.pointee.fields = vec![5];
    assert!(!ty_contains_field(&r, 5));
    assert!(shared(0, 1, TyKind::Adt(AdtKind::Union)).is_union());
    assert!(!shared(1, 1, TyKind::Adt(AdtKind::Union)).is_union());
    assert!(shared(0, 1, TyKind::RawPtr).is_unsafe_ptr());
    assert!(shared(0, 1, TyKind::Array).is_array());
    assert_eq!(shared(3, 1, TyKind::Int).ref_count(), 3);
    assert!(ty(vec![Mutability::Mut, Mutability::Not], 1, TyKind::Int).is_mut_ref());
    assert!(ty(vec![Mutability::Mut, Mutability::Not], 1, TyKind::Int).is_ref_to_shared_ref());
    assert!(!ty(vec![Mutability::Not, Mutability::Mut], 1, TyKind::Int).is_ref_to_shared_ref());
    let mut unsized_ty = shared(0, 2, TyKind::Str);
    unsized_ty.pointee.is_sized = false;
    assert!(!unsized_ty.is_sized());
    let mut to_unsized = shared(1, 2, TyKind::Str);
    to_unsized.pointee.is_sized = false;
    assert!(to_unsized.is_sized());
    assert!(!to_unsized.refers_to_sized());
    let mut to_ref = shared(2, 2, TyKind::Str);
    to_ref.pointee.is_sized = false;
    assert!(to_ref.refers_to_sized());
}

#[test]
fn same_type_and_same_referent() {
    let a = ty(vec![Mutability::Not, Mutability::Mut], 1, TyKind::Int);
    let b = ty(vec![Mutability::Mut, Mutability::Mut], 1, TyKind::Int);
    let c = ty(vec![Mutability::Not, Mutability::Not], 1, TyKind::Int);
    let d = ty(vec![Mutability::Not, Mutability::Mut], 2, TyKind::Int);
    assert!(a.same(&a.duplicate()));
    assert!(!a.same(&b));
    assert!(deref_method_same_type(&a, &b));
    assert!(!deref_method_same_type(&a, &c));
    assert!(!deref_method_same_type(&a, &d));
    assert!(!deref_method_same_type(&a, &shared(1, 1, TyKind::Int)));
    assert!(!deref_method_same_type(&shared(0, 1, TyKind::Int), &shared(0, 1, TyKind::Int)));
    assert!(!deref_method_same_type(&shared(1, 1, TyKind::Int), &shared(0, 1, TyKind::Int)));
}

#[test]
fn reading_reference_operations() {
    let deref = Callee { is_deref_method: true, is_deref_mut_method: false };
    let deref_mut = Callee { is_deref_method: false, is_deref_mut_method: true };
    let neither = Callee { is_deref_method: false, is_deref_mut_method: false };
    let int = || shared(0, 1, TyKind::Int);
    let method = |extra_args, callee| {
        expr(ExprKind::MethodCall { extra_args, callee, receiver: shared(1, 9, TyKind::Int) }, int(), "e", 60)
    };
    let parsed = |e: &ExprFacts| try_parse_ref_op(e).map(|(op, operand)| (op, operand.pointee.id));
    assert_eq!(
        parsed(&method(0, Some(deref))),
        Some((RefOp::Method { mutbl: Mutability::Not, is_ufcs: false }, 9))
    );
    assert_eq!(
        parsed(&method(0, Some(deref_mut))),
        Some((RefOp::Method { mutbl: Mutability::Mut, is_ufcs: false }, 9))
    );
    assert_eq!(parsed(&method(0, Some(neither))), None);
    assert_eq!(parsed(&method(0, None)), None);
    assert_eq!(parsed(&method(1, Some(deref))), None);
    let call = |callee_is_path, callee, n: usize| {
        expr(
            ExprKind::Call { callee_is_path, callee, args: (0..n).map(|_| shared(1, 8, TyKind::Int)).collect() },
            int(),
            "e",
            60,
        )
    };
    assert_eq!(
        parsed(&call(true, Some(deref_mut), 1)),
        Some((RefOp::Method { mutbl: Mutability::Mut, is_ufcs: true }, 8))
    );
    assert_eq!(parsed(&call(false, Some(deref), 1)), None);
    assert_eq!(parsed(&call(true, Some(deref), 2)), None);
    assert_eq!(parsed(&call(true, Some(deref), 0)), None);
    assert_eq!(parsed(&call(true, None, 1)), None);
    let unary = |deref, operand| expr(ExprKind::Unary { deref, operand }, int(), "e", 50);
    assert_eq!(parsed(&unary(true, shared(1, 7, TyKind::Int))), Some((RefOp::Deref, 7)));
    assert_eq!(parsed(&unary(false, shared(1, 7, TyKind::Int))), None);
    assert_eq!(parsed(&unary(true, shared(0, 7, TyKind::RawPtr))), None);
    let addr_of = |raw, mutability| {
        expr(ExprKind::AddrOf { raw, mutability, operand: shared(0, 6, TyKind::Int) }, int(), "e", 50)
    };
    assert_eq!(parsed(&addr_of(false, Mutability::Mut)), Some((RefOp::AddrOf(Mutability::Mut), 6)));
    assert_eq!(parsed(&addr_of(true, Mutability::Not)), None);
    assert_eq!(parsed(&expr(ExprKind::Field, int(), "e", 60)), None);
    assert_eq!(parsed(&expr(ExprKind::Other, int(), "e", 60)), None);
}

#[test]
fn generic_arguments_of_a_path() {
    assert!(path_has_args(&QPath::Resolved { segment_args: vec![false, true] }));
    assert!(!path_has_args(&QPath::Resolved { segment_args: vec![true, false] }));
    assert!(!path_has_args(&QPath::Resolved { segment_args: vec![] }));
    assert!(path_has_args(&QPath::TypeRelative { has_args: true }));
    assert!(!path_has_args(&QPath::TypeRelative { has_args: false }));
    assert!(!path_has_args(&QPath::LangItem));
}

#[test]
fn postfix_positions() {
    let mut e = expr(ExprKind::Other, shared(0, 1, TyKind::Int), "e", 60);
    assert!(!in_postfix_position(&e));
    let mut check = |kind, ctxt, expected: bool| {
        e.parent = Some(ParentExpr {
            hir_id: 2,
            span: SpanInfo { span: span(0, 9), from_expansion: false, ctxt },
            kind,
            precedence: 0,
        });
        assert_eq!(in_postfix_position(&e), expected);
    };
    check(ParentKind::Call { callee: 1 }, 0, true);
    check(ParentKind::Call { callee: 3 }, 0, false);
    check(ParentKind::MethodCall { receiver: 1 }, 0, true);
    check(ParentKind::MethodCall { receiver: 3 }, 0, false);
    check(ParentKind::Index { base: 1 }, 0, true);
    check(ParentKind::Index { base: 3 }, 0, false);
    check(ParentKind::Match(MatchSource::TryDesugar), 0, true);
    check(ParentKind::Match(MatchSource::AwaitDesugar), 0, true);
    check(ParentKind::Match(MatchSource::Normal), 0, false);
    check(ParentKind::Match(MatchSource::ForLoopDesugar), 0, false);
    check(ParentKind::Field, 0, true);
    check(ParentKind::Unary { deref: true }, 0, false);
    check(ParentKind::Other, 0, false);
    check(ParentKind::Field, 1, false);
    check(ParentKind::Call { callee: 1 }, 1, false);
}

fn derefs(ty_changed_count: usize, mutbl: Mutability) -> State {
    State::DerefMethod { ty_changed_count, is_ufcs: false, mutbl }
}

fn edit_of(e: &ExprFacts, state: State, data: &StateData) -> Option<String> {
    report(e, state, data).map(|f| {
        assert_eq!(f.spans, vec![data.span.span]);
        assert_eq!(f.edits.len(), 1);
        assert_eq!(f.edits[0].0, data.span.span);
        f.edits[0].1.clone()
    })
}

#[test]
fn text_for_deref_calls() {
    let data = anchor(shared(1, 1, TyKind::Int), None);
    let on = |refs: Vec<Mutability>| expr(ExprKind::Other, ty(refs, 1, TyKind::Int), "x", 99);
    let not = Mutability::Not;
    let mt = Mutability::Mut;
    // the innermost expression is no reference
    assert_eq!(edit_of(&on(vec![]), derefs(1, not), &data).unwrap(), "&*x");
    assert_eq!(edit_of(&on(vec![]), derefs(2, mt), &data).unwrap(), "&mut **x");
    assert_eq!(edit_of(&on(vec![]), derefs(0, not), &data).unwrap(), "&x");
    // only the mutability changed
    assert_eq!(edit_of(&on(vec![not]), derefs(0, not), &data).unwrap(), "x");
    assert_eq!(edit_of(&on(vec![mt]), derefs(0, not), &data).unwrap(), "&*x");
    assert_eq!(edit_of(&on(vec![mt]), derefs(0, mt), &data).unwrap(), "x");
    // the first change of type behind a reference takes two stars
    assert_eq!(edit_of(&on(vec![not]), derefs(1, not), &data).unwrap(), "&**x");
    assert_eq!(edit_of(&on(vec![mt]), derefs(1, mt), &data).unwrap(), "&mut **x");
    assert_eq!(edit_of(&on(vec![not, not]), derefs(1, not), &data).unwrap(), "*x");
    assert_eq!(edit_of(&on(vec![not, not]), derefs(2, not), &data).unwrap(), "&***x");
    assert_eq!(edit_of(&on(vec![mt, not]), derefs(1, not), &data).unwrap(), "&**x");
    let ufcs = State::DerefMethod { ty_changed_count: 1, is_ufcs: true, mutbl: not };
    assert_eq!(edit_of(&on(vec![]), ufcs, &data), None);
    let f = report(&on(vec![]), derefs(1, mt), &data).unwrap();
    assert_eq!(f.lint, Lint::ExplicitDerefMethods);
    assert_eq!(f.message, Message::ExplicitDerefMutCall);
    assert_eq!(f.message.text(), "explicit `deref_mut` method call");
    assert_eq!(f.help, Help::Try);
    assert_eq!(f.hir_id, None);
}

fn needless(msg: Message) -> State {
    State::DerefedBorrow(DerefedBorrow {
        count: 0,
        msg,
        stability: TyCoercionStability::Unconstrained,
        for_field_access: None,
    })
}

#[test]
fn text_for_needless_borrows() {
    let state = needless(Message::DerefedByCompiler);
    let parent = |kind, precedence| Some(ParentExpr { hir_id: 6, span: at(8, 30), kind, precedence });
    let sum = || expr(ExprKind::Other, shared(0, 1, TyKind::Int), "a + b", 18);
    let field = || expr(ExprKind::Field, shared(0, 1, TyKind::Int), "a.b", 60);
    let int = || shared(0, 1, TyKind::Int);
    // argument of a call: no parentheses
    let arg = anchor(int(), parent(ParentKind::Call { callee: 5 }, PREC_POSTFIX));
    assert_eq!(edit_of(&sum(), state, &arg).unwrap(), "a + b");
    // callee of a call
    let callee = anchor(int(), parent(ParentKind::Call { callee: 7 }, PREC_POSTFIX));
    assert_eq!(edit_of(&sum(), state, &callee).unwrap(), "(a + b)");
    assert_eq!(edit_of(&field(), state, &callee).unwrap(), "(a.b)");
    // receiver of a method call
    let receiver = anchor(int(), parent(ParentKind::MethodCall { receiver: 7 }, PREC_POSTFIX));
    assert_eq!(edit_of(&sum(), state, &receiver).unwrap(), "(a + b)");
    assert_eq!(edit_of(&field(), state, &receiver).unwrap(), "a.b");
    // no expression around
    assert_eq!(edit_of(&sum(), state, &anchor(int(), None)).unwrap(), "a + b");
    // text that is enclosed already, or a macro call
    let mut enclosed = sum();
    enclosed.snippet = text("(a + b)");
    assert_eq!(edit_of(&enclosed, state, &receiver).unwrap(), "(a + b)");
    let mut mac = sum();
    mac.snippet = Snippet {
        text: "m!(a)".to_string(),
        is_macro_call: true,
        applicability: Applicability::MaybeIncorrect,
    };
    let f = report(&mac, state, &receiver).unwrap();
    assert_eq!(f.edits[0].1, "m!(a)");
    assert_eq!(f.applicability, Applicability::MaybeIncorrect);
    assert_eq!(f.lint, Lint::NeedlessBorrow);
    assert_eq!(f.hir_id, Some(7));
    assert_eq!(f.help, Help::ChangeThisTo);
    assert_eq!(f.message, Message::DerefedByCompiler);
    assert_eq!(
        f.message.text(),
        "this expression creates a reference which is immediately dereferenced by the compiler"
    );
    assert_eq!(
        Message::BorrowedByCompiler.text(),
        "this expression borrows a value the compiler would automatically borrow"
    );
}

#[test]
fn text_for_explicit_derefs() {
    let int = || shared(0, 1, TyKind::Int);
    let refd = || shared(1, 1, TyKind::Int);
    let data = anchor(refd(), None);
    let plain = State::ExplicitDeref { mutability: None };
    let shared_borrow = State::ExplicitDeref { mutability: Some(Mutability::Not) };
    let mut_borrow = State::ExplicitDeref { mutability: Some(Mutability::Mut) };
    let x = |ty| expr(ExprKind::Other, ty, "x", 99);
    let sum = |ty| expr(ExprKind::Other, ty, "a + b", 18);
    assert_eq!(edit_of(&x(refd()), plain, &data).unwrap(), "x");
    assert_eq!(edit_of(&x(int()), plain, &data).unwrap(), "x");
    assert_eq!(edit_of(&x(int()), shared_borrow, &data).unwrap(), "&x");
    assert_eq!(edit_of(&x(int()), mut_borrow, &data).unwrap(), "&mut x");
    assert_eq!(edit_of(&x(refd()), mut_borrow, &data).unwrap(), "x");
    assert_eq!(edit_of(&sum(int()), shared_borrow, &data).unwrap(), "&(a + b)");
    assert_eq!(edit_of(&sum(refd()), shared_borrow, &data).unwrap(), "a + b");
    let closure = expr(ExprKind::Other, refd(), "|| x", -40);
    assert_eq!(edit_of(&closure, plain, &data).unwrap(), "(|| x)");
    // a block in front of a sized type cannot be dereferenced automatically
    let block = || expr(ExprKind::Block, int(), "{ x }", 99);
    assert_eq!(edit_of(&block(), plain, &data), None);
    assert_eq!(edit_of(&expr(ExprKind::If, int(), "if c { x } else { y }", 99), plain, &data), None);
    assert_eq!(edit_of(&expr(ExprKind::Loop, int(), "loop {}", 99), plain, &data), None);
    assert_eq!(edit_of(&expr(ExprKind::ConstBlock, int(), "const { x }", 99), plain, &data), None);
    assert_eq!(
        edit_of(&expr(ExprKind::Match(MatchSource::Normal), int(), "match x {}", 99), plain, &data),
        None
    );
    let mut str_ty = shared(1, 2, TyKind::Str);
    str_ty.pointee.is_sized = false;
    let to_unsized = anchor(str_ty, None);
    assert_eq!(edit_of(&block(), plain, &to_unsized).unwrap(), "{ x }");
    assert_eq!(edit_of(&block(), plain, &anchor(int(), None)).unwrap(), "{ x }");
    let f = report(&x(int()), plain, &data).unwrap();
    assert_eq!(f.lint, Lint::ExplicitAutoDeref);
    assert_eq!(f.message, Message::DoneByAutoDeref);
    assert_eq!(f.message.text(), "deref which would be done by auto-deref");
    assert_eq!(f.help, Help::Try);
    assert_eq!(f.hir_id, Some(7));
}

#[test]
fn text_for_explicit_derefs_in_front_of_a_field() {
    let state = State::ExplicitDerefField { name: 4 };
    let int = || shared(0, 1, TyKind::Int);
    let x = expr(ExprKind::Other, int(), "x", 99);
    assert_eq!(edit_of(&x, state, &anchor(int(), None)).unwrap(), "x");
    let block = expr(ExprKind::Block, int(), "{ x }", 99);
    assert_eq!(edit_of(&block, state, &anchor(int(), None)), None);
    let mut slice = shared(0, 2, TyKind::Slice);
    slice.pointee.is_sized = false;
    assert_eq!(edit_of(&block, state, &anchor(slice, None)).unwrap(), "{ x }");
}

#[test]
fn intermediate_states_report_nothing() {
    let x = expr(ExprKind::Other, shared(0, 1, TyKind::Int), "x", 99);
    let data = anchor(shared(1, 1, TyKind::Int), None);
    assert!(report(&x, State::Borrow { mutability: Mutability::Not }, &data).is_none());
    assert!(report(&x, State::Reborrow { mutability: Mutability::Mut }, &data).is_none());
}

fn star(operand: Ty, result: Ty, snippet: &str) -> ExprFacts {
    expr(ExprKind::Unary { deref: true, operand }, result, snippet, PREC_PREFIX)
}

fn amp(mutability: Mutability, operand: Ty, result: Ty, snippet: &str) -> ExprFacts {
    expr(ExprKind::AddrOf { raw: false, mutability, operand }, result, snippet, PREC_PREFIX)
}

fn deref_call(receiver: Ty, result: Ty) -> ExprFacts {
    expr(
        ExprKind::MethodCall {
            extra_args: 0,
            callee: Some(Callee { is_deref_method: true, is_deref_mut_method: false }),
            receiver,
        },
        result,
        "x.deref()",
        60,
    )
}

#[test]
fn deref_calls_in_a_row_count_the_changes_of_type() {
    let data = anchor(shared(1, 1, TyKind::Int), None);
    let state = derefs(1, Mutability::Mut);
    let same = deref_call(ty(vec![Mutability::Mut], 1, TyKind::Int), shared(1, 1, TyKind::Int));
    let (next, finding) = advance_chain(state, data, &same);
    assert!(finding.is_none());
    let (state, data) = next.unwrap();
    assert_eq!(state, derefs(1, Mutability::Mut));
    assert_eq!(data.hir_id, 7);
    let other = deref_call(shared(1, 2, TyKind::Int), shared(1, 1, TyKind::Int));
    let (next, finding) = advance_chain(state, data, &other);
    assert!(finding.is_none());
    let (state, data) = next.unwrap();
    assert_eq!(state, derefs(2, Mutability::Mut));
    let saturated = derefs(usize::MAX, Mutability::Not);
    let (next, _) = advance_chain(saturated, data, &other);
    assert_eq!(next.unwrap().0, derefs(usize::MAX, Mutability::Not));
}

#[test]
fn needless_borrow_absorbs_further_borrows() {
    let int = || shared(0, 1, TyKind::Int);
    let state = State::DerefedBorrow(DerefedBorrow {
        count: 2,
        msg: Message::DerefedByCompiler,
        stability: TyCoercionStability::Deref,
        for_field_access: None,
    });
    let e = amp(Mutability::Not, int(), shared(1, 1, TyKind::Int), "&x");
    let (next, finding) = advance_chain(state, anchor(int(), None), &e);
    assert!(finding.is_none());
    let (state, data) = next.unwrap();
    let (next, finding) = advance_chain(state, data, &e);
    assert!(finding.is_none());
    let (state, data) = next.unwrap();
    assert_eq!(
        state,
        State::DerefedBorrow(DerefedBorrow {
            count: 0,
            msg: Message::DerefedByCompiler,
            stability: TyCoercionStability::Deref,
            for_field_access: None,
        })
    );
    assert_eq!(data.hir_id, 7);
    // the next borrow is the first that has to stay: it closes the chain
    // and, the type being stable, begins one of its own
    let mut last = amp(Mutability::Mut, int(), ty(vec![Mutability::Mut], 1, TyKind::Int), "&mut x");
    last.hir_id = 44;
    let (next, finding) = advance_chain(state, data, &last);
    let finding = finding.unwrap();
    assert_eq!(finding.edits, vec![(span(10, 20), "&mut x".to_string())]);
    let (state, data) = next.unwrap();
    assert_eq!(state, State::Borrow { mutability: Mutability::Mut });
    assert_eq!(data.hir_id, 44);
}

#[test]
fn needless_borrow_followed_by_a_deref() {
    let int = || shared(0, 1, TyKind::Int);
    let borrow = |stability, for_field_access| {
        State::DerefedBorrow(DerefedBorrow {
            count: 0,
            msg: Message::DerefedByCompiler,
            stability,
            for_field_access,
        })
    };
    let mut with_field = shared(0, 5, TyKind::Adt(AdtKind::Struct));
    with_field.pointee.fields = vec![4];
    let mut e = star(shared(1, 1, TyKind::Int), int(), "*x");
    e.hir_id = 44;
    e.parent = Some(ParentExpr { hir_id: 43, span: at(1, 9), kind: ParentKind::Other, precedence: 0 });
    // a field that the operand does not have: the `*` only serves to reach it
    let (next, finding) =
        advance_chain(borrow(TyCoercionStability::Unconstrained, Some(4)), anchor(int(), None), &e);
    assert!(finding.is_some());
    let (state, data) = next.unwrap();
    assert_eq!(state, State::ExplicitDerefField { name: 4 });
    assert_eq!(data.hir_id, 44);
    // a stable type: the `*` is covered, counted from the expression around it
    let (next, finding) =
        advance_chain(borrow(TyCoercionStability::Deref, None), anchor(int(), None), &e);
    assert!(finding.is_some());
    let (state, data) = next.unwrap();
    assert_eq!(state, State::ExplicitDeref { mutability: None });
    assert_eq!(data.hir_id, 43);
    // the operand has the field, the type is not stable: nothing follows
    let on_struct = star(with_field, int(), "*x");
    let (next, finding) =
        advance_chain(borrow(TyCoercionStability::Reborrow, Some(4)), anchor(int(), None), &on_struct);
    assert!(finding.is_some());
    assert!(next.is_none());
    // stable, but no expression around
    let mut alone = star(shared(1, 1, TyKind::Int), int(), "*x");
    alone.parent = None;
    let (next, _) = advance_chain(borrow(TyCoercionStability::Deref, None), anchor(int(), None), &alone);
    assert!(next.is_none());
}

#[test]
fn borrow_then_deref_becomes_a_reborrow_or_an_explicit_deref() {
    let int = || shared(0, 1, TyKind::Int);
    let borrow = State::Borrow { mutability: Mutability::Mut };
    let of_ref = star(shared(1, 1, TyKind::Int), int(), "*x");
    let (next, finding) = advance_chain(borrow, anchor(int(), None), &of_ref);
    assert!(finding.is_none());
    let (state, data) = next.unwrap();
    assert_eq!(state, State::Reborrow { mutability: Mutability::Mut });
    let (next, finding) = advance_chain(state, data, &of_ref);
    assert!(finding.is_none());
    let (state, data) = next.unwrap();
    assert_eq!(state, State::ExplicitDeref { mutability: Some(Mutability::Mut) });
    let (next, finding) = advance_chain(state, data, &of_ref);
    assert!(finding.is_none());
    let (state, data) = next.unwrap();
    assert_eq!(state, State::ExplicitDeref { mutability: Some(Mutability::Mut) });
    let x = expr(ExprKind::Other, int(), "x", 99);
    let (next, finding) = advance_chain(state, data, &x);
    assert!(next.is_none());
    assert_eq!(finding.unwrap().edits[0].1, "&mut x");
    let of_box = star(int(), int(), "*x");
    let (next, _) = advance_chain(borrow, anchor(int(), None), &of_box);
    assert_eq!(next.unwrap().0, State::ExplicitDeref { mutability: Some(Mutability::Mut) });
    // a borrow after a borrow closes the chain without a word
    let again = amp(Mutability::Not, int(), shared(1, 1, TyKind::Int), "&x");
    let (next, finding) = advance_chain(borrow, anchor(int(), None), &again);
    assert!(next.is_none());
    assert!(finding.is_none());
}

#[test]
fn explicit_deref_for_a_field_ends_where_the_field_is_found() {
    let int = || shared(0, 1, TyKind::Int);
    let state = State::ExplicitDerefField { name: 4 };
    let mut with_field = shared(0, 5, TyKind::Adt(AdtKind::Struct));
    with_field.pointee.fields = vec![4];
    let without = star(shared(1, 1, TyKind::Int), int(), "*x");
    let (next, finding) = advance_chain(state, anchor(int(), None), &without);
    assert!(finding.is_none());
    assert_eq!(next.unwrap().0, state);
    let with = star(with_field, int(), "*x");
    let (next, finding) = advance_chain(state, anchor(int(), None), &with);
    assert!(next.is_none());
    assert_eq!(finding.unwrap().edits[0].1, "*x");
}

fn cx(node: UseNode, adjustments: Vec<Adjustment>, defined_ty: Option<DefinedTy>) -> UseCtxt {
    UseCtxt {
        node,
        adjustments,
        is_ty_unified: false,
        moved_before_use: false,
        defined_ty,
        generic: None,
    }
}

fn to(kind: Adjust, target: Ty) -> Adjustment {
    Adjustment { kind, target }
}

#[test]
fn chains_that_begin_with_a_deref() {
    let int = || shared(0, 1, TyKind::Int);
    let msrv = Msrv { current: None };
    let mut memo = None;
    let stable = || Some(DefinedTy::Hir(hir_ref(path_ty(vec![]))));
    let mut e = star(shared(1, 1, TyKind::Int), int(), "*x");
    assert!(start_chain(&e, &mut memo, msrv).is_none());
    e.use_cx = Some(cx(UseNode::Local, vec![], stable()));
    let (state, data) = start_chain(&e, &mut memo, msrv).unwrap();
    assert_eq!(state, State::ExplicitDeref { mutability: None });
    assert_eq!(data.hir_id, 1);
    assert_eq!(data.adjusted_ty.ref_count(), 0);
    e.use_cx = Some(cx(UseNode::Local, vec![], None));
    assert!(start_chain(&e, &mut memo, msrv).is_none());
    e.use_cx = Some(cx(UseNode::Local, vec![], Some(DefinedTy::Hir(hir_ref(path_ty(vec![HirArg::Infer]))))));
    assert!(start_chain(&e, &mut memo, msrv).is_none());
    e.use_cx = Some(cx(
        UseNode::MethodArg { index: 0, has_generic_args: false, method: None },
        vec![],
        stable(),
    ));
    assert!(start_chain(&e, &mut memo, msrv).is_none());
    e.use_cx = Some(cx(
        UseNode::MethodArg { index: 1, has_generic_args: false, method: None },
        vec![],
        stable(),
    ));
    assert!(start_chain(&e, &mut memo, msrv).is_some());
    // the operand is no reference: `*` calls a `Deref` impl
    let mut on_box = star(int(), int(), "*b");
    on_box.use_cx = Some(cx(UseNode::Local, vec![], stable()));
    assert!(start_chain(&on_box, &mut memo, msrv).is_none());
    // a field that the operand does not have
    on_box.use_cx = Some(cx(UseNode::FieldAccess(4), vec![to(Adjust::Deref, shared(0, 3, TyKind::Int))], None));
    let (state, data) = start_chain(&on_box, &mut memo, msrv).unwrap();
    assert_eq!(state, State::ExplicitDerefField { name: 4 });
    assert_eq!(data.adjusted_ty.pointee.id, 3);
    // never through a union
    on_box.use_cx = Some(cx(
        UseNode::FieldAccess(4),
        vec![to(Adjust::Deref, shared(0, 3, TyKind::Adt(AdtKind::Union)))],
        None,
    ));
    assert!(start_chain(&on_box, &mut memo, msrv).is_none());
    assert_eq!(memo, None);
}

#[test]
fn chains_that_begin_with_a_borrow() {
    let int = |refs| shared(refs, 1, TyKind::Int);
    let msrv = Msrv { current: None };
    let mut memo = None;
    let start = |use_cx: UseCtxt, memo: &mut Option<u32>| {
        let mut e = amp(Mutability::Not, int(2), int(3), "&x");
        e.use_cx = Some(use_cx);
        start_chain(&e, memo, msrv).map(|(state, _)| state)
    };
    let derefed = |count, msg, stability, for_field_access| {
        Some(State::DerefedBorrow(DerefedBorrow { count, msg, stability, for_field_access }))
    };
    let unconstrained = TyCoercionStability::Unconstrained;
    // three automatic dereferences where two references would do
    let three = || vec![to(Adjust::Deref, int(2)), to(Adjust::Deref, int(1)), to(Adjust::Deref, int(0))];
    assert_eq!(
        start(cx(UseNode::Other, three(), None), &mut memo),
        derefed(1, Message::DerefedByCompiler, unconstrained, None)
    );
    // a callee is borrowed by the compiler itself
    assert_eq!(
        start(cx(UseNode::Callee, three(), None), &mut memo),
        derefed(2, Message::DerefedByCompiler, unconstrained, None)
    );
    assert_eq!(
        start(cx(UseNode::Callee, vec![to(Adjust::Deref, int(2))], None), &mut memo),
        derefed(0, Message::BorrowedByCompiler, unconstrained, None)
    );
    assert_eq!(
        start(cx(UseNode::FieldAccess(4), three(), None), &mut memo),
        derefed(2, Message::DerefedByCompiler, unconstrained, Some(4))
    );
    // a mutable re-borrow after the dereferences asks for one reference more
    let reborrowed = || {
        vec![
            to(Adjust::Deref, int(2)),
            to(Adjust::Deref, int(1)),
            to(Adjust::Deref, int(0)),
            to(Adjust::BorrowRef(Mutability::Mut), ty(vec![Mutability::Mut], 1, TyKind::Int)),
        ]
    };
    assert_eq!(
        start(cx(UseNode::Other, reborrowed(), None), &mut memo),
        derefed(0, Message::DerefedByCompiler, unconstrained, None)
    );
    let stable = || Some(DefinedTy::Hir(hir_ref(path_ty(vec![]))));
    assert_eq!(
        start(cx(UseNode::Local, reborrowed(), stable()), &mut memo),
        derefed(1, Message::DerefedByCompiler, TyCoercionStability::Deref, None)
    );
    // too few dereferences: a plain borrow, kept in mind where the type is stable
    let one = || vec![to(Adjust::Deref, int(0)), to(Adjust::BorrowRef(Mutability::Not), int(1))];
    assert_eq!(
        start(cx(UseNode::Local, one(), stable()), &mut memo),
        Some(State::Borrow { mutability: Mutability::Not })
    );
    assert_eq!(start(cx(UseNode::Local, one(), None), &mut memo), None);
    let unsize = || vec![to(Adjust::Deref, int(0)), to(Adjust::Pointer, int(1))];
    assert_eq!(start(cx(UseNode::Local, unsize(), stable()), &mut memo), None);
    let unsize_later = || {
        vec![
            to(Adjust::Deref, int(0)),
            to(Adjust::BorrowRef(Mutability::Not), int(1)),
            to(Adjust::Pointer, int(1)),
        ]
    };
    assert_eq!(start(cx(UseNode::Local, unsize_later(), stable()), &mut memo), None);
    assert_eq!(start(cx(UseNode::Local, vec![], stable()), &mut memo), Some(State::Borrow { mutability: Mutability::Not }));
    // the count stops behind the first dereference that leaves the references
    let through_impl = || {
        vec![to(Adjust::Deref, int(1)), to(Adjust::Deref, int(0)), to(Adjust::Deref, shared(0, 2, TyKind::Str))]
    };
    assert_eq!(
        start(cx(UseNode::Other, through_impl(), None), &mut memo),
        derefed(0, Message::DerefedByCompiler, unconstrained, None)
    );
    // a receiver that is moved before it is used is not borrowed by itself
    let mut moved = cx(
        UseNode::MethodArg { index: 0, has_generic_args: false, method: None },
        vec![to(Adjust::Deref, int(2))],
        None,
    );
    moved.moved_before_use = true;
    assert_eq!(start(moved, &mut memo), None);
    assert_eq!(memo, None);
}

fn param(index: u32) -> Ty {
    shared(0, 100 + index as u64, TyKind::Param(index))
}

fn bound(index: u32, kind: TraitKind) -> Predicate {
    Predicate::Trait(TraitPredicate { self_ty: param(index), kind, items: Vec::new() })
}

fn projection(self_param: u32, term_param: Option<u32>) -> Predicate {
    Predicate::Projection(ProjectionPredicate { self_ty: ProjectionSelf::Param(self_param), term_param })
}

fn countable(owner: u32) -> ReferenceUse {
    ReferenceUse {
        assignments: Some(1),
        assigns_borrow: true,
        place_is_indirect: false,
        in_cycle: false,
        body_owner: owner,
        bounded_borrowers: true,
        used_exactly_once: Some(true),
    }
}

fn layer(ty: Ty, is_copy: bool, holds: Vec<bool>) -> Referent {
    Referent { ty, is_copy, has_significant_drop: false, usage: countable(1), holds }
}

fn call(predicates: Vec<Predicate>, args: Vec<Ty>, layers: Vec<Referent>) -> GenericArgFacts {
    GenericArgFacts {
        call: CallFacts {
            parent_count: 0,
            sig: vec![vec![0], vec![]],
            predicates,
            args: args.into_iter().map(GenericArg::Type).collect(),
            normalizations: Vec::new(),
        },
        layers,
    }
}

fn value(refs: usize) -> Ty {
    shared(refs, 50, TyKind::Adt(AdtKind::Struct))
}

fn count(facts: &GenericArgFacts) -> usize {
    needless_borrow_generic_arg_count(&mut None, facts, 0, 0, Msrv { current: None })
}

#[test]
fn count_of_borrows_that_can_go() {
    let other = || vec![bound(0, TraitKind::Other)];
    assert_eq!(count(&call(other(), vec![value(1)], vec![layer(value(0), true, vec![true])])), 1);
    assert_eq!(
        count(&call(
            other(),
            vec![value(3)],
            vec![
                layer(value(2), true, vec![true]),
                layer(value(1), true, vec![true]),
                layer(value(0), true, vec![true]),
            ]
        )),
        3
    );
    // the count stops at the first layer that has to stay
    assert_eq!(
        count(&call(
            other(),
            vec![value(3)],
            vec![
                layer(value(2), true, vec![true]),
                layer(value(1), true, vec![false]),
                layer(value(0), true, vec![true]),
            ]
        )),
        1
    );
    assert_eq!(count(&call(other(), vec![value(1)], vec![])), 0);
    // a bound that the host did not look at counts as not met
    assert_eq!(count(&call(other(), vec![value(1)], vec![layer(value(0), true, vec![])])), 0);
}

#[test]
fn marker_bounds_alone_keep_every_borrow() {
    let l = || vec![layer(value(0), true, vec![true, true, true])];
    assert_eq!(count(&call(vec![], vec![value(1)], l())), 0);
    assert_eq!(count(&call(vec![bound(0, TraitKind::Sized)], vec![value(1)], l())), 0);
    assert_eq!(
        count(&call(
            vec![bound(0, TraitKind::Sized), bound(0, TraitKind::Destruct), bound(0, TraitKind::Any)],
            vec![value(1)],
            l()
        )),
        0
    );
    // a bound on another parameter does not count
    assert_eq!(
        count(&call(vec![bound(0, TraitKind::Sized), bound(1, TraitKind::Other)], vec![value(1), value(0)], l())),
        0
    );
    assert_eq!(
        count(&call(vec![bound(0, TraitKind::Sized), bound(0, TraitKind::Other)], vec![value(1)], l())),
        1
    );
}

#[test]
fn mixed_projection_bound_keeps_every_borrow() {
    let mut facts = call(
        vec![bound(1, TraitKind::Other), projection(1, Some(0))],
        vec![value(0), value(1)],
        vec![layer(value(0), true, vec![true, true])],
    );
    facts.call.parent_count = 1;
    facts.call.sig = vec![vec![1], vec![]];
    assert_eq!(needless_borrow_generic_arg_count(&mut None, &facts, 0, 1, Msrv { current: None }), 0);
    facts.call.parent_count = 0;
    assert_eq!(needless_borrow_generic_arg_count(&mut None, &facts, 0, 1, Msrv { current: None }), 1);
    let nested = ProjectionPredicate {
        self_ty: ProjectionSelf::Projection(Box::new(ProjectionSelf::Projection(Box::new(
            ProjectionSelf::Param(3),
        )))),
        term_param: Some(1),
    };
    assert!(is_mixed_projection_predicate(2, &nested));
    assert!(!is_mixed_projection_predicate(1, &nested));
    assert!(!is_mixed_projection_predicate(4, &nested));
    let on_other = ProjectionPredicate {
        self_ty: ProjectionSelf::Projection(Box::new(ProjectionSelf::Other)),
        term_param: Some(0),
    };
    assert!(!is_mixed_projection_predicate(1, &on_other));
    let unbound = ProjectionPredicate { self_ty: ProjectionSelf::Param(3), term_param: None };
    assert!(!is_mixed_projection_predicate(1, &unbound));
}

#[test]
fn value_that_is_missed_keeps_its_borrow() {
    let other = || vec![bound(0, TraitKind::Other)];
    let with = |change: fn(&mut Referent)| {
        let mut l = layer(value(0), false, vec![true]);
        change(&mut l);
        count(&call(other(), vec![value(1)], vec![l]))
    };
    assert_eq!(with(|_| ()), 1);
    assert_eq!(with(|l| l.has_significant_drop = true), 0);
    assert_eq!(with(|l| l.usage.used_exactly_once = Some(false)), 0);
    assert_eq!(with(|l| l.usage.used_exactly_once = None), 0);
    assert_eq!(with(|l| l.usage.bounded_borrowers = false), 0);
    assert_eq!(with(|l| l.usage.in_cycle = true), 0);
    assert_eq!(with(|l| l.usage.place_is_indirect = true), 0);
    assert_eq!(with(|l| l.usage.assigns_borrow = false), 0);
    assert_eq!(with(|l| l.usage.assignments = Some(2)), 0);
    assert_eq!(with(|l| l.usage.assignments = Some(0)), 0);
    assert_eq!(with(|l| l.usage.assignments = None), 0);
    // what is copied is never missed
    assert_eq!(
        with(|l| {
            l.is_copy = true;
            l.has_significant_drop = true;
            l.usage.assignments = None;
        }),
        1
    );
}

#[test]
fn memo_of_the_borrow_check() {
    let mut memo = None;
    assert!(referent_used_exactly_once(&mut memo, &countable(4)));
    assert_eq!(memo, Some(4));
    assert!(referent_used_exactly_once(&mut memo, &countable(4)));
    assert_eq!(memo, Some(4));
    let mut in_loop = countable(5);
    in_loop.in_cycle = true;
    assert!(!referent_used_exactly_once(&mut memo, &in_loop));
    assert_eq!(memo, Some(4));
    let mut borrowed_elsewhere = countable(6);
    borrowed_elsewhere.bounded_borrowers = false;
    assert!(!referent_used_exactly_once(&mut memo, &borrowed_elsewhere));
    assert_eq!(memo, Some(6));
    // the count leaves the memo at the last layer whose uses were counted
    let facts = call(
        vec![bound(0, TraitKind::Other)],
        vec![value(2)],
        vec![
            Referent { usage: countable(8), ..layer(value(1), false, vec![true]) },
            Referent { usage: countable(9), ..layer(value(0), true, vec![true]) },
        ],
    );
    let mut memo = Some(7);
    assert_eq!(needless_borrow_generic_arg_count(&mut memo, &facts, 0, 0, Msrv { current: None }), 2);
    assert_eq!(memo, Some(8));
    let mut memo = Some(7);
    let markers = call(vec![], vec![value(1)], vec![layer(value(0), false, vec![])]);
    assert_eq!(needless_borrow_generic_arg_count(&mut memo, &markers, 0, 0, Msrv { current: None }), 0);
    assert_eq!(memo, Some(7));
}

#[test]
fn method_taking_mut_self_asks_for_a_mutable_reference() {
    let mut_self = AssocItem { self_param: Some(ty(vec![Mutability::Mut], 100, TyKind::Param(0))) };
    let by_ref = AssocItem { self_param: Some(shared(1, 100, TyKind::Param(0))) };
    let by_value = AssocItem { self_param: Some(param(0)) };
    let assoc_fn = AssocItem { self_param: None };
    assert!(!has_ref_mut_self_method(&vec![]));
    assert!(!has_ref_mut_self_method(&vec![by_ref, by_value, assoc_fn]));
    let writer = || {
        vec![Predicate::Trait(TraitPredicate {
            self_ty: param(0),
            kind: TraitKind::Other,
            items: vec![
                AssocItem { self_param: None },
                AssocItem { self_param: Some(ty(vec![Mutability::Mut], 100, TyKind::Param(0))) },
            ],
        })]
    };
    assert!(has_ref_mut_self_method(&vec![mut_self]));
    // the value under the `&` is no mutable reference: the `&` has to stay
    assert_eq!(count(&call(writer(), vec![value(1)], vec![layer(value(0), true, vec![true])])), 0);
    assert_eq!(
        count(&call(writer(), vec![value(2)], vec![layer(value(1), true, vec![true])])),
        0
    );
    // the value under the `&` is a mutable reference
    let inner = || ty(vec![Mutability::Mut], 50, TyKind::Adt(AdtKind::Struct));
    let outer = || ty(vec![Mutability::Not, Mutability::Mut], 50, TyKind::Adt(AdtKind::Struct));
    assert_eq!(count(&call(writer(), vec![outer()], vec![layer(inner(), true, vec![true])])), 1);
    assert_eq!(count(&call(writer(), vec![outer()], vec![layer(inner(), true, vec![false])])), 0);
}

#[test]
fn arrays_are_iterated_by_value_from_1_53_on() {
    let array = || shared(0, 60, TyKind::Array);
    let facts = || {
        call(
            vec![bound(0, TraitKind::IntoIterator)],
            vec![shared(1, 60, TyKind::Array)],
            vec![layer(array(), true, vec![true])],
        )
    };
    let with = |current| needless_borrow_generic_arg_count(&mut None, &facts(), 0, 0, Msrv { current });
    let version = |minor, patch| Some(RustcVersion { major: 1, minor, patch });
    assert_eq!(with(None), 1);
    assert_eq!(with(version(53, 0)), 1);
    assert_eq!(with(version(60, 0)), 1);
    assert_eq!(with(Some(RustcVersion { major: 2, minor: 0, patch: 0 })), 1);
    assert_eq!(with(version(52, 9)), 0);
    assert_eq!(with(Some(RustcVersion { major: 0, minor: 99, patch: 0 })), 0);
    let slices = call(
        vec![bound(0, TraitKind::IntoIterator)],
        vec![shared(1, 61, TyKind::Slice)],
        vec![layer(shared(0, 61, TyKind::Slice), true, vec![true])],
    );
    assert_eq!(
        needless_borrow_generic_arg_count(&mut None, &slices, 0, 0, Msrv { current: version(40, 0) }),
        1
    );
    assert!(RustcVersion { major: 1, minor: 53, patch: 0 }.meets(RustcVersion { major: 1, minor: 53, patch: 0 }));
    assert!(!RustcVersion { major: 1, minor: 52, patch: 7 }.meets(RustcVersion { major: 1, minor: 53, patch: 0 }));
    assert!(RustcVersion { major: 1, minor: 53, patch: 1 }.meets(RustcVersion { major: 1, minor: 53, patch: 0 }));
}

fn ids(args: Option<Vec<GenericArg>>) -> Option<Vec<Option<(usize, u64)>>> {
    args.map(|args| {
        args.into_iter()
            .map(|a| match a {
                GenericArg::Type(t) => Some((t.refs.len(), t.pointee.id)),
                _ => None,
            })
            .collect()
    })
}

#[test]
fn substitution_replaces_the_parameter() {
    let args = vec![GenericArg::Lifetime, GenericArg::Type(value(1)), GenericArg::Const];
    let got = replace_types(1, &value(0), &vec![vec![1], vec![]], 0, &vec![], &vec![], args);
    assert_eq!(ids(got), Some(vec![None, Some((0, 50)), None]));
}

#[test]
fn substitution_is_refused_where_it_reaches_the_signature() {
    let args = || vec![GenericArg::Type(value(1))];
    let run = |sig: Vec<Vec<u32>>, arg_index| {
        replace_types(0, &value(0), &sig, arg_index, &vec![], &vec![], args()).is_some()
    };
    assert!(run(vec![vec![0], vec![]], 0));
    assert!(run(vec![vec![], vec![0], vec![]], 1));
    assert!(!run(vec![vec![0], vec![0]], 0));
    assert!(!run(vec![vec![0], vec![1, 0], vec![]], 0));
    assert!(!run(vec![vec![0], vec![]], 1));
    assert!(run(vec![vec![1], vec![2]], 5));
    // a parameter that is no generic argument of the call
    assert!(replace_types(3, &value(0), &vec![vec![3]], 0, &vec![], &vec![], args()).is_none());
}

#[test]
fn substitution_follows_projection_bounds() {
    // fn f<T: Iterator<Item = U>, U: Iterator<Item = V>, V>(t: T)
    let preds = vec![
        bound(0, TraitKind::Other),
        projection(0, Some(1)),
        projection(1, Some(2)),
        projection(2, None),
    ];
    let item = |n: u64| shared(0, 70 + n, TyKind::Int);
    let table = vec![
        Normalization { predicate: 1, self_ty: value(0), projected: Some(item(1)) },
        Normalization { predicate: 2, self_ty: item(1), projected: Some(item(2)) },
        Normalization { predicate: 2, self_ty: value(0), projected: Some(item(9)) },
    ];
    let args = || vec![GenericArg::Type(value(1)), GenericArg::Type(item(0)), GenericArg::Type(item(0))];
    let sig = vec![vec![0], vec![]];
    let got = replace_types(0, &value(0), &sig, 0, &preds, &table, args());
    assert_eq!(ids(got), Some(vec![Some((0, 50)), Some((0, 71)), Some((0, 72))]));
    // a projected type that is in place already is not followed
    let unchanged = vec![
        Normalization { predicate: 1, self_ty: value(0), projected: Some(item(0)) },
        Normalization { predicate: 2, self_ty: item(0), projected: Some(item(5)) },
    ];
    let got = replace_types(0, &value(0), &sig, 0, &preds, &unchanged, args());
    assert_eq!(ids(got), Some(vec![Some((0, 50)), Some((0, 70)), Some((0, 70))]));
    // a projection that cannot be normalised, or was not looked at, is not followed
    let failed = vec![Normalization { predicate: 1, self_ty: value(0), projected: None }];
    let got = replace_types(0, &value(0), &sig, 0, &preds, &failed, args());
    assert_eq!(ids(got), Some(vec![Some((0, 50)), Some((0, 70)), Some((0, 70))]));
    let got = replace_types(0, &value(0), &sig, 0, &preds, &vec![], args());
    assert_eq!(ids(got), Some(vec![Some((0, 50)), Some((0, 70)), Some((0, 70))]));
    // the first answer for a question counts
    let twice = vec![
        Normalization { predicate: 1, self_ty: value(0), projected: None },
        Normalization { predicate: 1, self_ty: value(0), projected: Some(item(1)) },
    ];
    let got = replace_types(0, &value(0), &sig, 0, &preds, &twice, args());
    assert_eq!(ids(got), Some(vec![Some((0, 50)), Some((0, 70)), Some((0, 70))]));
    // a parameter that follows must not occur in the signature at all
    let in_output = vec![vec![0], vec![1]];
    assert!(replace_types(0, &value(0), &in_output, 0, &preds, &table, args()).is_none());
    let second_at_the_argument = vec![vec![0, 2], vec![]];
    assert!(replace_types(0, &value(0), &second_at_the_argument, 0, &preds, &table, args()).is_none());
    // a bound that is tied to a parameter the call does not have
    let dangling = vec![projection(0, Some(7))];
    assert!(replace_types(0, &value(0), &sig, 0, &dangling, &vec![
        Normalization { predicate: 0, self_ty: value(0), projected: Some(item(1)) },
    ], args()).is_none());
}

#[test]
fn substitution_ends_on_bounds_that_go_in_a_circle() {
    // T::Item == U, U::Item == T
    let preds = vec![projection(0, Some(1)), projection(1, Some(0))];
    let a = || shared(0, 81, TyKind::Int);
    let b = || shared(0, 82, TyKind::Int);
    let c = || shared(0, 83, TyKind::Int);
    let table = vec![
        Normalization { predicate: 0, self_ty: a(), projected: Some(b()) },
        Normalization { predicate: 1, self_ty: b(), projected: Some(c()) },
        Normalization { predicate: 0, self_ty: c(), projected: Some(a()) },
    ];
    let args = vec![GenericArg::Type(value(1)), GenericArg::Type(value(0))];
    let got = replace_types(0, &a(), &vec![vec![0], vec![]], 0, &preds, &table, args);
    // back at the first parameter, the signature stands in the way
    assert!(got.is_none());
    let args = vec![GenericArg::Type(value(1)), GenericArg::Type(value(0))];
    let got = replace_types(0, &a(), &vec![vec![], vec![]], 0, &preds, &table, args);
    assert_eq!(ids(got), Some(vec![Some((0, 83)), Some((0, 82))]));
}

#[test]
fn allow_attribute_that_could_be_expect() {
    let attr = AttrFacts {
        in_external_macro: false,
        lint_reasons_enabled: true,
        style: AttrStyle::Outer,
        ident: Some(AttrIdent { is_allow: true, span: span(2, 7) }),
        from_proc_macro: false,
    };
    let mut check = AllowAttribute;
    let f = check.check_attribute(&attr).unwrap();
    assert_eq!(f.lint, Lint::AllowAttributes);
    assert_eq!(f.message.text(), "#[allow] attribute found");
    assert_eq!(f.help.text(), "replace it with");
    assert_eq!(f.spans, vec![span(2, 7)]);
    assert_eq!(f.edits, vec![(span(2, 7), "expect".to_string())]);
    assert_eq!(f.applicability, Applicability::MachineApplicable);
    assert!(check.check_attribute(&AttrFacts { in_external_macro: true, ..attr }).is_none());
    assert!(check.check_attribute(&AttrFacts { lint_reasons_enabled: false, ..attr }).is_none());
    assert!(check.check_attribute(&AttrFacts { style: AttrStyle::Inner, ..attr }).is_none());
    assert!(check.check_attribute(&AttrFacts { ident: None, ..attr }).is_none());
    assert!(check
        .check_attribute(&AttrFacts { ident: Some(AttrIdent { is_allow: false, span: span(2, 7) }), ..attr })
        .is_none());
    assert!(check.check_attribute(&AttrFacts { from_proc_macro: true, ..attr }).is_none());
}

#[test]
fn strict_substitution_asks_what_the_table_leaves_open() {
    let preds = vec![bound(0, TraitKind::Other), projection(0, Some(1)), projection(1, Some(2))];
    let item = |n: u64| shared(0, 70 + n, TyKind::Int);
    let args = || vec![GenericArg::Type(value(1)), GenericArg::Type(item(0)), GenericArg::Type(item(0))];
    let sig = vec![vec![0], vec![]];
    let asked = |table: &Vec<Normalization>| match substitute(true, 0, &value(0), &sig, 0, &preds, table, args()) {
        Substitution::Ask { predicate, self_ty } => Some((predicate, self_ty.pointee.id)),
        _ => None,
    };
    let mut table = Vec::new();
    assert_eq!(asked(&table), Some((1, 50)));
    table.push(Normalization { predicate: 1, self_ty: value(0), projected: Some(item(1)) });
    assert_eq!(asked(&table), Some((2, 71)));
    table.push(Normalization { predicate: 2, self_ty: item(1), projected: None });
    assert_eq!(asked(&table), None);
    match substitute(true, 0, &value(0), &sig, 0, &preds, &table, args()) {
        Substitution::Done(after) => {
            assert_eq!(ids(Some(after)), Some(vec![Some((0, 50)), Some((0, 71)), Some((0, 70))]))
        },
        _ => panic!("every question is answered"),
    }
    assert!(matches!(
        substitute(true, 0, &value(0), &vec![vec![0], vec![0]], 0, &preds, &table, args()),
        Substitution::Refused
    ));
    // without `strict`, an open question counts as unanswerable
    assert!(matches!(
        substitute(false, 0, &value(0), &sig, 0, &preds, &vec![], args()),
        Substitution::Done(_)
    ));
}

#[test]
fn questions_to_the_host_come_in_the_order_of_the_count() {
    let preds = || vec![bound(0, TraitKind::Other), projection(0, Some(1))];
    let item = |n: u64| shared(0, 70 + n, TyKind::Int);
    let mut facts = call(
        preds(),
        vec![value(2), item(0)],
        vec![layer(value(1), true, vec![]), layer(value(0), true, vec![])],
    );
    let msrv = Msrv { current: None };
    let ask = |facts: &GenericArgFacts| next_question(facts, 0, 0, msrv);
    match ask(&facts) {
        Some(Question::Normalize { predicate, self_ty }) => {
            assert_eq!(predicate, 1);
            assert!(self_ty.same(&value(1)));
        },
        other => panic!("unexpected {other:?}"),
    }
    facts.call.normalizations.push(Normalization {
        predicate: 1,
        self_ty: value(1),
        projected: Some(item(1)),
    });
    match ask(&facts) {
        Some(Question::Holds { layer, args }) => {
            assert_eq!(layer, 0);
            assert_eq!(ids(Some(args)), Some(vec![Some((1, 50)), Some((0, 71))]));
        },
        other => panic!("unexpected {other:?}"),
    }
    facts.layers[0].holds = vec![true, true];
    match ask(&facts) {
        Some(Question::Normalize { predicate, self_ty }) => {
            assert_eq!(predicate, 1);
            assert!(self_ty.same(&value(0)));
        },
        other => panic!("unexpected {other:?}"),
    }
    facts.call.normalizations.push(Normalization { predicate: 1, self_ty: value(0), projected: None });
    match ask(&facts) {
        Some(Question::Holds { layer, args }) => {
            assert_eq!(layer, 1);
            assert_eq!(ids(Some(args)), Some(vec![Some((0, 50)), Some((0, 71))]));
        },
        other => panic!("unexpected {other:?}"),
    }
    facts.layers[1].holds = vec![true, false];
    assert!(ask(&facts).is_none());
    assert_eq!(count(&facts), 1);
    // a layer that has to stay ends the questions
    let mut kept = call(preds(), vec![value(1), item(0)], vec![layer(value(0), false, vec![])]);
    kept.layers[0].has_significant_drop = true;
    assert!(ask(&kept).is_none());
    // and so do bounds that rule out every removal
    let markers = call(vec![bound(0, TraitKind::Sized)], vec![value(1)], vec![layer(value(0), true, vec![])]);
    assert!(ask(&markers).is_none());
}

#[test]
fn blocks_in_cycles() {
    // 0 -> 1 -> 2 -> 1, 2 -> 3, 4 -> 4, 5 -> 9 (no such block)
    let body = vec![vec![1], vec![2], vec![1, 3], vec![], vec![4], vec![9, 5, 9]];
    assert!(!block_in_cycle(&body, 0));
    assert!(block_in_cycle(&body, 1));
    assert!(block_in_cycle(&body, 2));
    assert!(!block_in_cycle(&body, 3));
    assert!(block_in_cycle(&body, 4));
    assert!(block_in_cycle(&body, 5));
    assert!(!block_in_cycle(&body, 6));
    assert!(!block_in_cycle(&vec![], 0));
    assert!(!block_in_cycle(&vec![vec![7]], 0));
    // a loop after the block does not put the block in a cycle
    let after = vec![vec![1], vec![2], vec![1]];
    assert!(!block_in_cycle(&after, 0));
    // a long way round
    let ring: Vec<Vec<usize>> = (0..50).map(|i| vec![(i + 1) % 50, 49]).collect();
    assert!(block_in_cycle(&ring, 0));
    assert!(block_in_cycle(&ring, 25));
    let line: Vec<Vec<usize>> = (0..50).map(|i| vec![i + 1, i + 2]).collect();
    assert!(!block_in_cycle(&line, 0));
}
