//! How far the type that a position asks for pins down the type of the
//! expression put there.
use vstd::prelude::*;
use crate::hir_ty::{spec_ty_contains_infer, ty_contains_infer, HirTy, HirTyKind};
use crate::ty::{AliasKind, Pointee, Ty, TyKind};

verus! {

/// What stays the same when a reference operation in front of a position
/// with a stated type is removed.
#[derive(Clone, Copy, Debug, PartialEq, Eq, Structural)]
pub enum TyCoercionStability {
    /// The type stays the same, whether dereferencing is written out or
    /// left to the compiler.
    Deref,
    /// Only a re-borrow of the same mutability leaves the type the same.
    Reborrow,
    /// Nothing can be said.
    Unconstrained,
}

impl TyCoercionStability {
    pub open spec fn spec_is_deref_stable(self) -> bool {
        self == TyCoercionStability::Deref
    }

    #[verifier::when_used_as_spec(spec_is_deref_stable)]
    pub fn is_deref_stable(self) -> (r: bool)
        ensures
            r == (self == TyCoercionStability::Deref),
    {
        self == TyCoercionStability::Deref
    }

    pub open spec fn spec_is_reborrow_stable(self) -> bool {
        self == TyCoercionStability::Deref || self == TyCoercionStability::Reborrow
    }

    #[verifier::when_used_as_spec(spec_is_reborrow_stable)]
    pub fn is_reborrow_stable(self) -> (r: bool)
        ensures
            r == (self == TyCoercionStability::Deref || self == TyCoercionStability::Reborrow),
    {
        self == TyCoercionStability::Deref || self == TyCoercionStability::Reborrow
    }
}

/// A resolved type in the scope of the definition that states it, with the
/// host's answer to normalising what its outermost reference points to.
#[derive(Debug)]
pub struct MirDefinedTy {
    pub ty: Ty,
    /// The referent of `ty` after normalisation, where `ty` is a reference
    /// and its referent can be normalised.
    pub normalized_referent: Option<Ty>,
}

/// The type that a position asks for, as it is defined without any type
/// inference.
#[derive(Debug)]
pub enum DefinedTy {
    /// Written in the function itself: the type of a local or of a closure.
    Hir(HirTy),
    /// Taken from a signature, a constant or a static.
    Mir(MirDefinedTy),
}

/// The written type under all the reference layers of `ty`.
pub open spec fn spec_hir_pointee(ty: HirTy) -> HirTy
    decreases ty,
{
    match ty {
        HirTy::Ref(inner) => spec_hir_pointee(*inner),
        _ => ty,
    }
}

/// The stability of a written type that is no reference, found under at
/// least one reference layer: stable under re-borrowing only where the
/// type is a trait object or leaves anything to inference, at whatever
/// depth (`[_]`, `(_, u8)`, `Vec<Box<_>>`); else stable under
/// dereferencing.
pub open spec fn spec_hir_pointee_stability(ty: HirTy) -> TyCoercionStability {
    if ty is Ref {
        TyCoercionStability::Unconstrained
    } else if spec_ty_contains_infer(ty) || spec_is_trait_object(ty) {
        TyCoercionStability::Reborrow
    } else {
        TyCoercionStability::Deref
    }
}

/// Whether the written type is a trait object.
pub open spec fn spec_is_trait_object(ty: HirTy) -> bool {
    match ty {
        HirTy::Other { kind, parts } => kind == HirTyKind::TraitObject,
        _ => false,
    }
}

/// Whether an inference variable, a placeholder or an opaque type occurs
/// anywhere in the type.
pub open spec fn spec_is_open(p: Pointee) -> bool {
    p.has_infer || p.has_placeholders || p.has_opaque_types
}

/// The stability of a resolved type that is no reference, found under at
/// least one reference layer. A type parameter is stable under
/// dereferencing in return position only. A type that is not known in
/// full (an inference variable, an error, a bound or placeholder type, a
/// trait object, an alias that is no projection) is stable under
/// re-borrowing only, and so is every type in which an inference
/// variable, a placeholder or an opaque type occurs. Outside return position the same goes for a
/// projection in which a parameter occurs and for a nominal type with a
/// parameter among its arguments. Every other type is stable under
/// dereferencing.
pub open spec fn spec_pointee_stability(p: Pointee, for_return: bool) -> TyCoercionStability {
    match p.kind {
        TyKind::Param(_) => if for_return {
            TyCoercionStability::Deref
        } else {
            TyCoercionStability::Reborrow
        },
        TyKind::Alias(AliasKind::Projection) => if spec_is_open(p) || (!for_return
            && p.has_non_region_param) {
            TyCoercionStability::Reborrow
        } else {
            TyCoercionStability::Deref
        },
        TyKind::Alias(_)
        | TyKind::Infer
        | TyKind::Error
        | TyKind::Bound
        | TyKind::Placeholder
        | TyKind::Dynamic => TyCoercionStability::Reborrow,
        TyKind::Adt(_) => if spec_is_open(p) || (!for_return && p.args_have_non_region_param) {
            TyCoercionStability::Reborrow
        } else {
            TyCoercionStability::Deref
        },
        _ => if spec_is_open(p) {
            TyCoercionStability::Reborrow
        } else {
            TyCoercionStability::Deref
        },
    }
}

impl TyCoercionStability {
    pub open spec fn spec_for_hir_ty(ty: HirTy) -> TyCoercionStability {
        match ty {
            HirTy::Ref(inner) => spec_hir_pointee_stability(spec_hir_pointee(*inner)),
            _ => TyCoercionStability::Unconstrained,
        }
    }

    pub open spec fn spec_for_mir_ty(ty: MirDefinedTy, for_return: bool) -> TyCoercionStability {
        if ty.ty.refs@.len() == 0 {
            TyCoercionStability::Unconstrained
        } else {
            match ty.normalized_referent {
                Some(referent) => spec_pointee_stability(referent.pointee, for_return),
                None => spec_pointee_stability(ty.ty.pointee, for_return),
            }
        }
    }

    pub open spec fn spec_for_defined_ty(ty: DefinedTy, for_return: bool) -> TyCoercionStability {
        match ty {
            DefinedTy::Hir(ty) => Self::spec_for_hir_ty(ty),
            DefinedTy::Mir(ty) => Self::spec_for_mir_ty(ty, for_return),
        }
    }

    /// The stability of coercions to the type that a position asks for:
    /// `Unconstrained` unless that type is a reference, else what the type
    /// under all its reference layers allows.
    pub fn for_defined_ty(ty: &DefinedTy, for_return: bool) -> (r: TyCoercionStability)
        ensures
            r == Self::spec_for_defined_ty(*ty, for_return),
    {
        match ty {
            DefinedTy::Hir(ty) => Self::for_hir_ty(ty),
            DefinedTy::Mir(ty) => Self::for_mir_ty(ty, for_return),
        }
    }

    /// The stability of coercions to a written type.
    ///
    /// With `let y: &Box<_> = x.deref();` and `let y: &Box<_> = &x;` the
    /// two `y` may get different types, so `&Box<_>` is only stable under
    /// re-borrowing, and so are `&[_]` and `&(_, u32)`; `&Box<u32>` is
    /// stable under dereferencing too.
    pub fn for_hir_ty(ty: &HirTy) -> (r: TyCoercionStability)
        ensures
            r == Self::spec_for_hir_ty(*ty),
    {
        match ty {
            HirTy::Ref(inner) => Self::for_hir_pointee(inner),
            _ => TyCoercionStability::Unconstrained,
        }
    }

    /// Walks through the reference layers of `ty` and judges what is under
    /// them.
    fn for_hir_pointee(ty: &HirTy) -> (r: TyCoercionStability)
        ensures
            r == spec_hir_pointee_stability(spec_hir_pointee(*ty)),
        decreases *ty,
    {
        match ty {
            HirTy::Ref(inner) => Self::for_hir_pointee(inner),
            HirTy::Other { kind: HirTyKind::TraitObject, .. } => TyCoercionStability::Reborrow,
            _ => if ty_contains_infer(ty) {
                TyCoercionStability::Reborrow
            } else {
                TyCoercionStability::Deref
            },
        }
    }

    /// The stability of coercions to a resolved type. An alias that the
    /// host could not resolve is taken as stable under re-borrowing only.
    pub fn for_mir_ty(ty: &MirDefinedTy, for_return: bool) -> (r: TyCoercionStability)
        ensures
            r == Self::spec_for_mir_ty(*ty, for_return),
    {
        if !ty.ty.is_ref() {
            return TyCoercionStability::Unconstrained;
        }
        match &ty.normalized_referent {
            Some(referent) => Self::for_pointee(&referent.pointee, for_return),
            None => Self::for_pointee(&ty.ty.pointee, for_return),
        }
    }

    /// Judges a resolved type that is no reference.
    fn for_pointee(p: &Pointee, for_return: bool) -> (r: TyCoercionStability)
        ensures
            r == spec_pointee_stability(*p, for_return),
    {
        let open = p.has_infer || p.has_placeholders || p.has_opaque_types;
        match p.kind {
            TyKind::Param(_) => if for_return {
                TyCoercionStability::Deref
            } else {
                TyCoercionStability::Reborrow
            },
            TyKind::Alias(AliasKind::Projection) => if open || (!for_return
                && p.has_non_region_param) {
                TyCoercionStability::Reborrow
            } else {
                TyCoercionStability::Deref
            },
            TyKind::Alias(_)
            | TyKind::Infer
            | TyKind::Error
            | TyKind::Bound
            | TyKind::Placeholder
            | TyKind::Dynamic => TyCoercionStability::Reborrow,
            TyKind::Adt(_) => if open || (!for_return && p.args_have_non_region_param) {
                TyCoercionStability::Reborrow
            } else {
                TyCoercionStability::Deref
            },
            _ => if open {
                TyCoercionStability::Reborrow
            } else {
                TyCoercionStability::Deref
            },
        }
    }
}

/// Every type that a position can ask for gets exactly one of the three
/// stabilities, and the three are ordered: what is stable under
/// dereferencing is stable under re-borrowing, and a type that is no
/// reference constrains nothing.
pub proof fn lemma_classification_is_total(ty: DefinedTy, for_return: bool)
    ensures
        ({
            let s = TyCoercionStability::spec_for_defined_ty(ty, for_return);
            &&& (s == TyCoercionStability::Deref || s == TyCoercionStability::Reborrow || s
                == TyCoercionStability::Unconstrained)
            &&& s.spec_is_deref_stable() ==> s.spec_is_reborrow_stable()
            &&& (ty matches DefinedTy::Hir(t) && !(t is Ref)) ==> s
                == TyCoercionStability::Unconstrained
            &&& (ty matches DefinedTy::Mir(t) && t.ty.refs@.len() == 0) ==> s
                == TyCoercionStability::Unconstrained
            &&& (ty matches DefinedTy::Mir(t) && t.ty.refs@.len() > 0) ==> s
                != TyCoercionStability::Unconstrained
            &&& (ty matches DefinedTy::Hir(t) && t is Ref) ==> s
                != TyCoercionStability::Unconstrained
        }),
{
    match ty {
        DefinedTy::Hir(t) => {
            if let HirTy::Ref(inner) = t {
                lemma_hir_pointee_is_no_ref(*inner);
            }
        },
        DefinedTy::Mir(t) => {},
    }
}

/// A written reference that leaves anything to inference, at whatever
/// depth, is never stable under dereferencing: `&[_]`, `&(_, u8)` and
/// `&Vec<Box<_>>` are stable under re-borrowing only.
pub proof fn lemma_inferred_written_type_is_not_deref_stable(ty: HirTy)
    requires
        ty is Ref,
        spec_ty_contains_infer(ty),
    ensures
        TyCoercionStability::spec_for_hir_ty(ty) == TyCoercionStability::Reborrow,
{
    lemma_hir_pointee_keeps_inference(ty);
    lemma_hir_pointee_is_no_ref(ty);
}

/// Reference layers neither add nor hide what is left to inference.
pub proof fn lemma_hir_pointee_keeps_inference(ty: HirTy)
    ensures
        spec_ty_contains_infer(spec_hir_pointee(ty)) == spec_ty_contains_infer(ty),
    decreases ty,
{
    if let HirTy::Ref(inner) = ty {
        lemma_hir_pointee_keeps_inference(*inner);
    }
}

/// A resolved type in which an inference variable, a placeholder or an
/// opaque type occurs is never stable under dereferencing, whatever its outermost form, unless
/// it is a type parameter, in which nothing occurs.
pub proof fn lemma_open_resolved_type_is_not_deref_stable(p: Pointee, for_return: bool)
    requires
        spec_is_open(p),
        !(p.kind is Param),
    ensures
        spec_pointee_stability(p, for_return) == TyCoercionStability::Reborrow,
{
}

/// What is under all the reference layers of a written type is no reference.
pub proof fn lemma_hir_pointee_is_no_ref(ty: HirTy)
    ensures
        !(spec_hir_pointee(ty) is Ref),
    decreases ty,
{
    if let HirTy::Ref(inner) = ty {
        lemma_hir_pointee_is_no_ref(*inner);
    }
}

} // verus!
