//! `#[allow]` attributes that could be `#[expect]`.
use vstd::prelude::*;
use vstd::string::*;
use crate::base::Applicability;
use crate::finding::{Finding, Help, Lint, Message};

verus! {

/// Whether an attribute applies to the item after it or to the item
/// around it.
#[derive(Clone, Copy, Debug, PartialEq, Eq, Structural)]
pub enum AttrStyle {
    Outer,
    Inner,
}

/// The name of an attribute.
#[derive(Clone, Copy, Debug)]
pub struct AttrIdent {
    /// Whether the name is `allow`.
    pub is_allow: bool,
    pub span: rustc_span::Span,
}

/// Everything the check is told about an attribute.
#[derive(Clone, Copy, Debug)]
pub struct AttrFacts {
    /// Whether the attribute comes out of a macro of another crate.
    pub in_external_macro: bool,
    /// Whether the linted crate can use `#[expect]`.
    pub lint_reasons_enabled: bool,
    pub style: AttrStyle,
    /// The name, where the attribute has a single one.
    pub ident: Option<AttrIdent>,
    /// Whether a procedural macro wrote the attribute.
    pub from_proc_macro: bool,
}

/// The check for `#[allow]` attributes.
#[derive(Clone, Copy, Debug, Default)]
pub struct AllowAttribute;

impl AttrFacts {
    /// Whether the attribute is an outer `#[allow]` written by hand in a
    /// crate that can use `#[expect]`. Inner attributes are left alone:
    /// they switch lints for a whole crate or module.
    pub open spec fn spec_is_replaceable(&self) -> bool {
        &&& !self.in_external_macro
        &&& self.lint_reasons_enabled
        &&& self.style == AttrStyle::Outer
        &&& self.ident matches Some(ident)
        &&& ident.is_allow
        &&& !self.from_proc_macro
    }
}

impl AllowAttribute {
    /// Visits an attribute: an outer `#[allow]` that could be `#[expect]`
    /// is reported, with the edit that puts `expect` in place of its name.
    pub fn check_attribute(&mut self, attr: &AttrFacts) -> (finding: Option<Finding>)
        ensures
            attr.spec_is_replaceable() <==> finding is Some,
            finding matches Some(f) ==> {
                &&& f.lint == Lint::AllowAttributes
                &&& f.hir_id is None
                &&& f.message == Message::AllowAttributeFound
                &&& f.help == Help::ReplaceItWith
                &&& f.applicability == Applicability::MachineApplicable
                &&& f.replaces(attr.ident->0.span, "expect"@)
            },
    {
        if attr.in_external_macro || !attr.lint_reasons_enabled || attr.style != AttrStyle::Outer {
            return None;
        }
        match attr.ident {
            Some(ident) => {
                if !ident.is_allow || attr.from_proc_macro {
                    return None;
                }
                Some(
                    Finding::replacing(
                        Lint::AllowAttributes,
                        None,
                        ident.span,
                        Message::AllowAttributeFound,
                        Help::ReplaceItWith,
                        String::from_str("expect"),
                        Applicability::MachineApplicable,
                    ),
                )
            },
            None => None,
        }
    }
}

} // verus!
