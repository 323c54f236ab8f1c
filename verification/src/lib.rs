//! Rewrites a fallible request handler, written as a plain function, into a
//! unit type that implements trillium's `Handler`.
//!
//! The rewrite works on source text. [`handler`] has `syn` read the text as
//! one item; [`validate::validate`] accepts the item only if it is a function
//! definition; [`emit::emit`] produces the declarations that take the
//! function's place; and [`unit::GeneratedUnit::render`] writes them out.
//! [`laws`] states what holds of every invocation.

pub mod diagnostic;
pub mod emit;
pub mod expand;
pub mod laws;
pub mod parse;
pub mod syntax;
pub mod text;
pub mod unit;
pub mod validate;

use crate::diagnostic::{Diagnostic, DiagnosticView};
use crate::expand::{expand, expansion_of, expansion_view};
use crate::parse::{syn_error_tokens, syn_item};
use crate::unit::{unit_source, DeclarationView, GeneratedUnit};
use vstd::prelude::*;

verus! {

/// The text that stands for the result of an invocation: the source of the
/// generated unit, or the tokens that report the diagnostic.
pub open spec fn output(expanded: Result<Seq<DeclarationView>, DiagnosticView>) -> Seq<char> {
    match expanded {
        Ok(declarations) => unit_source(declarations),
        Err(diagnostic) => syn_error_tokens(diagnostic.message),
    }
}

/// Writes out the result of an invocation.
pub fn render(result: &Result<GeneratedUnit, Diagnostic>) -> (text: String)
    ensures
        text@ == output(expansion_view(*result)),
{
    match result {
        Ok(unit) => unit.render(),
        Err(diagnostic) => diagnostic.to_compile_error(),
    }
}

/// The attribute on a fallible handler: takes the annotated item as source
/// text and returns the source text that replaces it.
///
/// For a function definition that is the generated unit. For any other item
/// it is the report that the annotation must be attached to a function
/// definition, and for a text that is no item it is the parser's report. The
/// arguments of the attribute are not looked at.
pub fn handler(_args: &str, input: &str) -> (text: String)
    ensures
        text@ == output(expansion_of(syn_item(input@), input@)),
{
    let result = expand(input);
    render(&result)
}

} // verus!
