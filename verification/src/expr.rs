//! What the host tells the engine about one expression: its shape, its
//! types, its surroundings and its source text.
use vstd::prelude::*;
use crate::base::{Mutability, Snippet, SpanInfo};
use crate::generics::GenericArgFacts;
use crate::stability::DefinedTy;
use crate::ty::{Adjust, Adjustment, Ty};

verus! {

/// Operator precedence of a postfix expression: a call, an index, a field.
/// On the scale of precedences, closures, jumps and ranges lie below 0,
/// assignments and binary operators between 0 and [`PREC_PREFIX`], and what
/// needs no parentheses anywhere above [`PREC_POSTFIX`].
pub const PREC_POSTFIX: i8 = 60;

/// Operator precedence of a prefix expression: `&x`, `*x`, `-x`.
pub const PREC_PREFIX: i8 = 50;

/// What a call resolves to, as far as the engine asks.
#[derive(Clone, Copy, Debug, PartialEq, Eq, Structural)]
pub struct Callee {
    /// Whether it is the method `Deref::deref`.
    pub is_deref_method: bool,
    /// Whether it is a method of the trait `DerefMut`.
    pub is_deref_mut_method: bool,
}

/// Where a `match` expression came from.
#[derive(Clone, Copy, Debug, PartialEq, Eq, Structural)]
pub enum MatchSource {
    Normal,
    ForLoopDesugar,
    TryDesugar,
    AwaitDesugar,
    FormatArgs,
}

/// The shape of an expression.
#[derive(Debug)]
pub enum ExprKind {
    /// `receiver.method(..)`: the number of arguments after the receiver,
    /// what the method resolves to, and the type of the receiver.
    MethodCall { extra_args: usize, callee: Option<Callee>, receiver: Ty },
    /// `callee(..)`: whether the callee is written as a path, what that
    /// path resolves to, and the types of the arguments.
    Call { callee_is_path: bool, callee: Option<Callee>, args: Vec<Ty> },
    /// A unary operator, `*` where `deref` is set, on an operand of the
    /// given type.
    Unary { deref: bool, operand: Ty },
    /// `&operand`, `&mut operand`, or the raw forms.
    AddrOf { raw: bool, mutability: Mutability, operand: Ty },
    Field,
    Index,
    Block,
    ConstBlock,
    If,
    Loop,
    Match(MatchSource),
    Other,
}

/// The shape of the expression around another one.
#[derive(Clone, Copy, Debug, PartialEq, Eq, Structural)]
pub enum ParentKind {
    /// A call, with the node of its callee.
    Call { callee: u64 },
    /// A method call, with the node of its receiver.
    MethodCall { receiver: u64 },
    /// An index expression, with the node of what is indexed.
    Index { base: u64 },
    Match(MatchSource),
    Field,
    Unary { deref: bool },
    Other,
}

/// The expression directly around another one.
#[derive(Clone, Copy, Debug)]
pub struct ParentExpr {
    pub hir_id: u64,
    pub span: SpanInfo,
    pub kind: ParentKind,
    /// The operator precedence of the expression.
    pub precedence: i8,
}

/// A path as written in an expression.
#[derive(Debug)]
pub enum QPath {
    /// A resolved path; for each segment, whether it has generic arguments.
    Resolved { segment_args: Vec<bool> },
    /// `<T>::name`; whether `name` has generic arguments.
    TypeRelative { has_args: bool },
    LangItem,
}

/// The kinds of definition that a callee path can resolve to.
#[derive(Clone, Copy, Debug, PartialEq, Eq, Structural)]
pub enum DefKind {
    Fn,
    Ctor,
    AssocFn,
    Other,
}

/// A callee that is written as a path.
#[derive(Debug)]
pub struct PathCallee {
    pub path: QPath,
    /// What the path resolves to, where it resolves to a definition.
    pub res: Option<DefKind>,
}

/// What is known of a method that a call resolves to.
#[derive(Clone, Copy, Debug, PartialEq, Eq, Structural)]
pub struct MethodFacts {
    /// Whether the method belongs to a trait.
    pub in_trait: bool,
    /// Whether the method takes `self` by reference.
    pub self_by_ref: bool,
    /// Whether that trait is implemented for what the receiver refers to.
    pub implemented_for_referent: bool,
    /// Whether that trait is implemented for the type of the receiver.
    pub implemented_for_receiver: bool,
}

/// The node that consumes the value of an expression.
#[derive(Debug)]
pub enum UseNode {
    /// The initialiser of a local.
    Local,
    ConstStatic,
    Return,
    /// The value of a field in a struct expression.
    Field,
    /// An argument of a call; `callee` where the callee is a path.
    FnArg { index: usize, callee: Option<PathCallee> },
    /// An argument of a method call, the receiver being number 0.
    MethodArg { index: usize, has_generic_args: bool, method: Option<MethodFacts> },
    /// The callee of a call.
    Callee,
    /// The base of a field access, with the name of the field.
    FieldAccess(u32),
    AddrOf,
    Other,
}

/// How the value of an expression is used.
#[derive(Debug)]
pub struct UseCtxt {
    pub node: UseNode,
    /// The coercions applied to the value on its way to the use.
    pub adjustments: Vec<Adjustment>,
    /// Whether the type must agree with that of another code path.
    pub is_ty_unified: bool,
    /// Whether the value is moved before it is used.
    pub moved_before_use: bool,
    /// The type that the use asks for, where it states one.
    pub defined_ty: Option<DefinedTy>,
    /// The generic environment of the call, where the use is an argument of
    /// a call to a function that the host can name.
    pub generic: Option<GenericArgFacts>,
}

/// The use of a local binding.
#[derive(Debug)]
pub struct LocalUse {
    /// The node of the binding.
    pub local: u64,
    /// The coercions applied to this use.
    pub adjustments: Vec<Adjust>,
    /// The text of the use, read in the context of the expression around
    /// it.
    pub snippet: Snippet,
}

/// Everything the engine is told when it visits an expression.
#[derive(Debug)]
pub struct ExprFacts {
    pub hir_id: u64,
    pub span: SpanInfo,
    pub kind: ExprKind,
    /// The type of the expression.
    pub ty: Ty,
    /// The type of the expression after its own coercions.
    pub adjusted_ty: Ty,
    /// The operator precedence of the expression.
    pub precedence: i8,
    /// The text of the expression, read in the context of the chain in
    /// progress, or in its own where there is none.
    pub snippet: Snippet,
    pub parent: Option<ParentExpr>,
    /// How the value is used, where the host can tell.
    pub use_cx: Option<UseCtxt>,
    /// Whether reports of explicit `deref` calls are switched off here.
    pub deref_method_lint_allowed: bool,
    /// Set where the expression is a path to a local binding.
    pub local: Option<LocalUse>,
}

impl ExprKind {
    pub open spec fn spec_is_block_like(&self) -> bool {
        self is Block || self is ConstBlock || self is If || self is Loop || self is Match
    }

    /// Whether the expression is a block, a branch or a loop, after which
    /// automatic dereferencing to a sized type does not work.
    #[verifier::when_used_as_spec(spec_is_block_like)]
    pub fn is_block_like(&self) -> (r: bool)
        ensures
            r == self.spec_is_block_like(),
    {
        match self {
            ExprKind::Block
            | ExprKind::ConstBlock
            | ExprKind::If
            | ExprKind::Loop
            | ExprKind::Match(_) => true,
            _ => false,
        }
    }

    pub open spec fn spec_is_field(&self) -> bool {
        self is Field
    }

    /// Whether the expression is a field access.
    #[verifier::when_used_as_spec(spec_is_field)]
    pub fn is_field(&self) -> (r: bool)
        ensures
            r == self.spec_is_field(),
    {
        match self {
            ExprKind::Field => true,
            _ => false,
        }
    }
}

} // verus!
