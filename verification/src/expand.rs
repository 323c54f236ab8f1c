//! One invocation, end to end: validate the item, then emit.

use crate::diagnostic::{Diagnostic, DiagnosticView};
use crate::emit::{emit, emitted};
use crate::parse::{parse_item, parsed_view, syn_item};
use crate::syntax::{Item, ItemView};
use crate::unit::{DeclarationView, GeneratedUnit};
use crate::validate::{validate, validated};
use vstd::prelude::*;
use vstd::string::StringExecFns;

verus! {

/// What one invocation produces: a generated unit or a report, never both.
pub open spec fn expansion_view(result: Result<GeneratedUnit, Diagnostic>) -> Result<
    Seq<DeclarationView>,
    DiagnosticView,
> {
    match result {
        Ok(unit) => Ok(unit@),
        Err(diagnostic) => Err(diagnostic@),
    }
}

/// What the rewrite makes of an item: the declarations for a function
/// definition, the validator's report for anything else.
pub open spec fn expansion(item: ItemView) -> Result<Seq<DeclarationView>, DiagnosticView> {
    match validated(item) {
        Ok(function) => Ok(emitted(function)),
        Err(diagnostic) => Err(diagnostic),
    }
}

/// What the rewrite makes of a source text, given what the parser made of
/// it: the expansion of the item, or for a text that is no item a report
/// with the parser's message that points at the whole text.
pub open spec fn expansion_of(parsed: Result<ItemView, Seq<char>>, source: Seq<char>) -> Result<
    Seq<DeclarationView>,
    DiagnosticView,
> {
    match parsed {
        Ok(item) => expansion(item),
        Err(message) => Err(DiagnosticView { message, subject: source }),
    }
}

/// Whether the parser read a function definition.
pub open spec fn holds_function(parsed: Result<ItemView, Seq<char>>) -> bool {
    match parsed {
        Ok(item) => item is Function,
        Err(_) => false,
    }
}

/// Rewrites one item: validates it and, if it is a function definition,
/// emits the declarations that replace it. Nothing is emitted for an item
/// that validation rejects.
pub fn expand_item(item: Item) -> (result: Result<GeneratedUnit, Diagnostic>)
    ensures
        expansion_view(result) == expansion(item@),
        result is Ok <==> item@ is Function,
{
    match validate(item) {
        Ok(function) => Ok(emit(function)),
        Err(diagnostic) => Err(diagnostic),
    }
}

/// Rewrites what the parser made of `source`.
pub fn expand_parsed(parsed: Result<Item, String>, source: &str) -> (result: Result<
    GeneratedUnit,
    Diagnostic,
>)
    ensures
        expansion_view(result) == expansion_of(parsed_view(parsed), source@),
        result is Ok <==> holds_function(parsed_view(parsed)),
{
    match parsed {
        Ok(item) => expand_item(item),
        Err(message) => Err(Diagnostic { message, subject: String::from_str(source) }),
    }
}

/// Rewrites the item that `source` holds.
pub fn expand(source: &str) -> (result: Result<GeneratedUnit, Diagnostic>)
    ensures
        expansion_view(result) == expansion_of(syn_item(source@), source@),
        result is Ok <==> holds_function(syn_item(source@)),
{
    expand_parsed(parse_item(source), source)
}

} // verus!
