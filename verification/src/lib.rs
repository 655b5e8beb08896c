//! A lint engine for needless reference operations.
//!
//! The engine watches one expression at a time, in the order a pre-order walk
//! of a function body gives them, and follows chains of `&`, `*` and calls of
//! `deref` / `deref_mut`. The host compiler answers every question about
//! types, coercions and source text beforehand: each visit hands the engine a
//! record of plain facts, and the engine hands back the findings that are
//! due. A second, independent tracker follows `ref` bindings of values that
//! are references already.
//!
//! A host drives a [`Dereferencing`] with three calls: `check_expr` for each
//! expression, `check_pat` for each pattern and `check_body_post` at the end
//! of each body. Two of the facts depend on what the engine has seen so far.
//! The text of an expression is read in the syntax context of the chain in
//! progress, which `chain_context` tells. And for a borrowed argument of a
//! generic function, the host finds out with [`generics::next_question`]
//! what the normaliser and the trait solver have to be asked before the
//! borrows can be counted.
pub mod allow_attributes;
pub mod base;
pub mod chain;
pub mod expr;
pub mod finding;
pub mod generics;
pub mod graph;
pub mod hir_ty;
pub mod laws;
pub mod pass;
pub mod ref_op;
pub mod ref_pat;
pub mod stability;
pub mod start;
pub mod substitution;
pub mod table;
pub mod text;
pub mod ty;

pub use base::{Applicability, Mutability, Snippet, SpanInfo};
pub use pass::Dereferencing;
pub use rustc_span::{BytePos, Span};
pub use finding::{Finding, Help, Lint, Message};
pub use hir_ty::{HirArg, HirTy, HirTyKind};
pub use stability::{DefinedTy, MirDefinedTy, TyCoercionStability};
pub use ty::{Adjust, Adjustment, AdtKind, AliasKind, Pointee, Ty, TyKind};
