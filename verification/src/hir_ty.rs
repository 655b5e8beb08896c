//! The engine's picture of a type as the programmer wrote it.
use vstd::prelude::*;

verus! {

broadcast use vstd::std_specs::vec::axiom_vec_decreases_to_view;

/// The outermost form of a written type that is no reference.
#[derive(Clone, Copy, Debug, PartialEq, Eq, Structural)]
pub enum HirTyKind {
    /// A path to a type, with or without generic arguments.
    Path,
    Slice,
    Array,
    Ptr,
    BareFn,
    Never,
    Tup,
    OpaqueDef,
    TraitObject,
    Typeof,
    Infer,
    Error,
}

/// One thing that a walk over a written type meets below a node: a generic
/// argument, or a type nested in it.
#[derive(Debug)]
pub enum HirArg {
    Lifetime,
    Const,
    /// An argument left to inference: `_`.
    Infer,
    Type(HirTy),
}

/// A type as written in the source.
#[derive(Debug)]
pub enum HirTy {
    /// `&T` or `&mut T`.
    Ref(Box<HirTy>),
    /// Any other type, with what a walk meets directly below it: the self
    /// type, the generic arguments of all segments and the associated type
    /// bindings of a path; the element of a slice or an array and, where it
    /// is left to inference, the length; the members of a tuple; what a
    /// pointer points to; the inputs and the output of a function pointer;
    /// the generic arguments of the bounds of a trait object.
    Other { kind: HirTyKind, parts: Vec<HirArg> },
}

impl HirTyKind {
    pub open spec fn spec_is_inferred(self) -> bool {
        self == HirTyKind::OpaqueDef || self == HirTyKind::Infer || self == HirTyKind::Typeof
            || self == HirTyKind::Error
    }

    /// Whether a type of this form stands for a type that is not written
    /// out.
    #[verifier::when_used_as_spec(spec_is_inferred)]
    pub fn is_inferred(self) -> (r: bool)
        ensures
            r == self.spec_is_inferred(),
    {
        match self {
            HirTyKind::OpaqueDef | HirTyKind::Infer | HirTyKind::Typeof | HirTyKind::Error => true,
            _ => false,
        }
    }
}

/// Whether `ty`, or anything a walk over it reaches, is left to inference.
pub open spec fn spec_ty_contains_infer(ty: HirTy) -> bool
    decreases ty,
{
    match ty {
        HirTy::Ref(inner) => spec_ty_contains_infer(*inner),
        HirTy::Other { kind, parts } => kind.spec_is_inferred() || spec_args_contain_infer(parts@),
    }
}

/// Whether one of `args` is left to inference, or is a type of which
/// [`spec_ty_contains_infer`] holds.
pub open spec fn spec_args_contain_infer(args: Seq<HirArg>) -> bool
    decreases args,
{
    if args.len() == 0 {
        false
    } else {
        spec_arg_contains_infer(args.last()) || spec_args_contain_infer(args.drop_last())
    }
}

/// Whether `arg` is left to inference, or is a type of which
/// [`spec_ty_contains_infer`] holds.
pub open spec fn spec_arg_contains_infer(arg: HirArg) -> bool
    decreases arg,
{
    match arg {
        HirArg::Infer => true,
        HirArg::Type(ty) => spec_ty_contains_infer(ty),
        _ => false,
    }
}

/// `spec_args_contain_infer` says that some member of `args` is left to
/// inference.
pub proof fn lemma_args_contain_infer(args: Seq<HirArg>)
    ensures
        spec_args_contain_infer(args) <==> exists|i: int|
            0 <= i < args.len() && spec_arg_contains_infer(#[trigger] args[i]),
    decreases args.len(),
{
    if args.len() > 0 {
        let front = args.drop_last();
        lemma_args_contain_infer(front);
        if spec_args_contain_infer(args) {
            if spec_arg_contains_infer(args.last()) {
                assert(spec_arg_contains_infer(args[args.len() - 1]));
            } else {
                let i = choose|i: int|
                    0 <= i < front.len() && spec_arg_contains_infer(#[trigger] front[i]);
                assert(spec_arg_contains_infer(args[i]));
            }
        }
        if exists|i: int| 0 <= i < args.len() && spec_arg_contains_infer(#[trigger] args[i]) {
            let i = choose|i: int|
                0 <= i < args.len() && spec_arg_contains_infer(#[trigger] args[i]);
            if i < args.len() - 1 {
                assert(spec_arg_contains_infer(front[i]));
            }
        }
    }
}

/// Checks whether a written type is inferred at some point, as `_`,
/// `Box<_>` and `[_]` are.
pub fn ty_contains_infer(ty: &HirTy) -> (r: bool)
    ensures
        r == spec_ty_contains_infer(*ty),
    decreases *ty,
{
    match ty {
        HirTy::Ref(inner) => ty_contains_infer(inner),
        HirTy::Other { kind, parts } => kind.is_inferred() || args_contain_infer(parts),
    }
}

/// Checks whether one of the arguments is inferred at some point.
pub fn args_contain_infer(args: &Vec<HirArg>) -> (r: bool)
    ensures
        r == spec_args_contain_infer(args@),
    decreases *args,
{
    let mut i: usize = 0;
    while i < args.len()
        invariant
            i <= args@.len(),
            forall|j: int| 0 <= j < i ==> !spec_arg_contains_infer(#[trigger] args@[j]),
        decreases args@.len() - i,
    {
        let hit = match &args[i] {
            HirArg::Infer => true,
            HirArg::Type(ty) => ty_contains_infer(ty),
            _ => false,
        };
        if hit {
            proof {
                lemma_args_contain_infer(args@);
            }
            return true;
        }
        i += 1;
    }
    proof {
        lemma_args_contain_infer(args@);
    }
    false
}

} // verus!
