//! What the rewrite reports in place of generated code.

use crate::parse::{error_tokens, syn_error_tokens};
use vstd::prelude::*;

verus! {

/// A compile-time error report.
#[derive(Clone, Debug, PartialEq, Eq)]
pub struct Diagnostic {
    /// What went wrong.
    pub message: String,
    /// The syntax that the report points at: the tokens of an item, or the
    /// whole source text where that could not be read as an item.
    pub subject: String,
}

/// What a [`Diagnostic`] is in contracts.
pub struct DiagnosticView {
    pub message: Seq<char>,
    pub subject: Seq<char>,
}

impl View for Diagnostic {
    type V = DiagnosticView;

    open spec fn view(&self) -> DiagnosticView {
        DiagnosticView { message: self.message@, subject: self.subject@ }
    }
}

/// The message for an item that is not a function definition.
pub open spec fn shape_message() -> Seq<char> {
    "the annotation must be attached to a function definition"@
}

impl Diagnostic {
    /// The report for an item that is not a function definition.
    pub fn shape_mismatch(subject: String) -> (diagnostic: Diagnostic)
        ensures
            diagnostic@ == (DiagnosticView { message: shape_message(), subject: subject@ }),
    {
        Diagnostic {
            message: "the annotation must be attached to a function definition".to_string(),
            subject,
        }
    }

    /// The tokens that report this diagnostic when the compiler reads them.
    pub fn to_compile_error(&self) -> (tokens: String)
        ensures
            tokens@ == syn_error_tokens(self@.message),
    {
        error_tokens(self.message.as_str())
    }
}

} // verus!
