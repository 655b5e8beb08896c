//! What the engine reports: the lint, where it applies, what to say and how
//! to rewrite the source.
use vstd::prelude::*;
use crate::base::Applicability;

verus! {

/// The lints that the engine can raise.
#[derive(Clone, Copy, Debug, PartialEq, Eq, Structural)]
pub enum Lint {
    /// A call of `deref()` or `deref_mut()` written out.
    ExplicitDerefMethods,
    /// A borrow that the compiler dereferences again at once.
    NeedlessBorrow,
    /// A `ref` binding that binds a reference.
    RefBindingToReference,
    /// A `*` that automatic dereferencing would have supplied.
    ExplicitAutoDeref,
    /// An `#[allow]` where `#[expect]` would tell when it is no longer
    /// needed.
    AllowAttributes,
}

/// The sentence that goes with a finding.
#[derive(Clone, Copy, Debug, PartialEq, Eq, Structural)]
pub enum Message {
    ExplicitDerefCall,
    ExplicitDerefMutCall,
    DerefedByCompiler,
    BorrowedByCompiler,
    ImplementsRequiredTraits,
    DoneByAutoDeref,
    ReferenceToReference,
    AllowAttributeFound,
}

impl Message {
    pub open spec fn spec_text(self) -> Seq<char> {
        match self {
            Message::ExplicitDerefCall => "explicit `deref` method call"@,
            Message::ExplicitDerefMutCall => "explicit `deref_mut` method call"@,
            Message::DerefedByCompiler =>
                "this expression creates a reference which is immediately dereferenced by the compiler"@,
            Message::BorrowedByCompiler =>
                "this expression borrows a value the compiler would automatically borrow"@,
            Message::ImplementsRequiredTraits =>
                "the borrowed expression implements the required traits"@,
            Message::DoneByAutoDeref => "deref which would be done by auto-deref"@,
            Message::ReferenceToReference => "this pattern creates a reference to a reference"@,
            Message::AllowAttributeFound => "#[allow] attribute found"@,
        }
    }

    /// The sentence in words.
    pub fn text(self) -> (r: &'static str)
        ensures
            r@ == self.spec_text(),
    {
        match self {
            Message::ExplicitDerefCall => "explicit `deref` method call",
            Message::ExplicitDerefMutCall => "explicit `deref_mut` method call",
            Message::DerefedByCompiler =>
                "this expression creates a reference which is immediately dereferenced by the compiler",
            Message::BorrowedByCompiler =>
                "this expression borrows a value the compiler would automatically borrow",
            Message::ImplementsRequiredTraits =>
                "the borrowed expression implements the required traits",
            Message::DoneByAutoDeref => "deref which would be done by auto-deref",
            Message::ReferenceToReference => "this pattern creates a reference to a reference",
            Message::AllowAttributeFound => "#[allow] attribute found",
        }
    }
}

/// The words that introduce the suggested edit.
#[derive(Clone, Copy, Debug, PartialEq, Eq, Structural)]
pub enum Help {
    Try,
    ChangeThisTo,
    ReplaceItWith,
}

impl Help {
    pub open spec fn spec_text(self) -> Seq<char> {
        match self {
            Help::Try => "try"@,
            Help::ChangeThisTo => "change this to"@,
            Help::ReplaceItWith => "replace it with"@,
        }
    }

    /// The introduction in words.
    pub fn text(self) -> (r: &'static str)
        ensures
            r@ == self.spec_text(),
    {
        match self {
            Help::Try => "try",
            Help::ChangeThisTo => "change this to",
            Help::ReplaceItWith => "replace it with",
        }
    }
}

/// One finding, ready for the host to turn into a diagnostic.
#[derive(Debug)]
pub struct Finding {
    pub lint: Lint,
    /// The node whose lint level decides whether the finding is shown; the
    /// node being visited where there is none.
    pub hir_id: Option<u64>,
    /// The places the finding points at.
    pub spans: Vec<rustc_span::Span>,
    pub message: Message,
    pub help: Help,
    /// The edits that together make up the suggestion.
    pub edits: Vec<(rustc_span::Span, String)>,
    pub applicability: Applicability,
}

/// A finding as a mathematical value.
pub struct FindingView {
    pub lint: Lint,
    pub hir_id: Option<u64>,
    pub spans: Seq<rustc_span::Span>,
    pub message: Message,
    pub help: Help,
    pub edits: Seq<(rustc_span::Span, Seq<char>)>,
    pub applicability: Applicability,
}

impl View for Finding {
    type V = FindingView;

    open spec fn view(&self) -> FindingView {
        FindingView {
            lint: self.lint,
            hir_id: self.hir_id,
            spans: self.spans@,
            message: self.message,
            help: self.help,
            edits: self.edits@.map_values(|e: (rustc_span::Span, String)| (e.0, e.1@)),
            applicability: self.applicability,
        }
    }
}

impl Finding {
    /// Whether the finding points at `span` alone and suggests replacing
    /// just that place by `text`.
    pub open spec fn replaces(&self, span: rustc_span::Span, text: Seq<char>) -> bool {
        &&& self.spans@ == seq![span]
        &&& self.edits@.len() == 1
        &&& self.edits@[0].0 == span
        &&& self.edits@[0].1@ == text
    }

    /// Builds the finding that suggests replacing `span` by `text`.
    pub fn replacing(
        lint: Lint,
        hir_id: Option<u64>,
        span: rustc_span::Span,
        message: Message,
        help: Help,
        text: String,
        applicability: Applicability,
    ) -> (f: Finding)
        ensures
            f.lint == lint,
            f.hir_id == hir_id,
            f.message == message,
            f.help == help,
            f.applicability == applicability,
            f.replaces(span, text@),
    {
        let mut spans = Vec::new();
        spans.push(span);
        let mut edits = Vec::new();
        edits.push((span, text));
        Finding { lint, hir_id, spans, message, help, edits, applicability }
    }
}

} // verus!
