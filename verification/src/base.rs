//! Values shared by every part of the engine: mutability, applicability of a
//! suggestion, source locations and source text.
use vstd::prelude::*;

verus! {

/// `rustc_span::Span`, a source location. The engine never looks inside
/// one: it receives locations with the facts of a visit and hands them back
/// in its findings. Nothing is claimed of the type.
#[verifier::external_type_specification]
#[verifier::external_body]
pub struct ExSpan(rustc_span::Span);

/// Whether a borrow, a reference type or a dereference method is the shared
/// or the mutable form.
#[derive(Clone, Copy, Debug, PartialEq, Eq, Structural)]
pub enum Mutability {
    Not,
    Mut,
}

impl Mutability {
    pub fn is_mut(self) -> (r: bool)
        ensures
            r == (self == Mutability::Mut),
    {
        self == Mutability::Mut
    }
}

/// How far a tool may trust a suggested edit.
#[derive(Clone, Copy, Debug, PartialEq, Eq, Structural)]
pub enum Applicability {
    /// The edit can be applied as it is.
    MachineApplicable,
    /// The edit may change what the program means and needs a look.
    MaybeIncorrect,
    /// The edit holds text that stands for source that could not be read.
    HasPlaceholders,
    /// Nothing is known.
    Unspecified,
}

impl Applicability {
    /// What becomes of `self` once a snippet has been read whose own reading
    /// left a machine-applicable suggestion at `read`.
    pub open spec fn spec_after(self, read: Applicability) -> Applicability {
        match read {
            Applicability::MaybeIncorrect => if self == Applicability::Unspecified {
                self
            } else {
                Applicability::MaybeIncorrect
            },
            Applicability::HasPlaceholders => if self == Applicability::MachineApplicable {
                Applicability::HasPlaceholders
            } else {
                self
            },
            _ => self,
        }
    }

    /// Lowers `self` by what reading one snippet did: text out of a macro
    /// makes every known level `MaybeIncorrect`, text that could not be read
    /// turns `MachineApplicable` into `HasPlaceholders`.
    pub fn after(self, read: Applicability) -> (r: Applicability)
        ensures
            r == self.spec_after(read),
    {
        match read {
            Applicability::MaybeIncorrect => if self == Applicability::Unspecified {
                self
            } else {
                Applicability::MaybeIncorrect
            },
            Applicability::HasPlaceholders => if self == Applicability::MachineApplicable {
                Applicability::HasPlaceholders
            } else {
                self
            },
            _ => self,
        }
    }
}

/// A source location together with what the host knows of its origin.
#[derive(Clone, Copy, Debug)]
pub struct SpanInfo {
    pub span: rustc_span::Span,
    /// Whether the location lies in code that a macro produced.
    pub from_expansion: bool,
    /// The syntax context of the location: equal numbers, same context.
    pub ctxt: u32,
}

/// The source text of an expression as the host read it.
#[derive(Debug)]
pub struct Snippet {
    /// The text, or `..` where the source could not be read.
    pub text: String,
    /// Whether the text is a macro call standing for the expression.
    pub is_macro_call: bool,
    /// What reading the text leaves of a machine-applicable suggestion.
    pub applicability: Applicability,
}

} // verus!
