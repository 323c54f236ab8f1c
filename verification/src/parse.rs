//! Reading source text with `syn`, and writing a report as `syn` writes it.
//!
//! Nothing here is proved: the two functions call into `syn`, and their
//! contracts only give names to what `syn` returns. A name stands for a
//! function of the text alone. That is so because `proc-macro2` is built
//! without its `proc-macro` feature, as the manifest of this crate asks:
//! lexing and printing are then `proc-macro2`'s own in every process, inside
//! a macro expansion as well as outside of one.

use crate::syntax::{Attribute, Function, Item, ItemView};
use quote::ToTokens;
use vstd::prelude::*;

verus! {

/// What `syn::parse_str::<syn::Item>` makes of a source text, copied out of
/// `syn`'s types as [`parse_item`] does it: the item, or the message of the
/// `syn::Error` for a text that is not exactly one item.
pub uninterp spec fn syn_item(source: Seq<char>) -> Result<ItemView, Seq<char>>;

/// The tokens that `syn::Error::to_compile_error` writes for an error with
/// the given message, printed by `to_string`.
pub uninterp spec fn syn_error_tokens(message: Seq<char>) -> Seq<char>;

/// What a parse result is in contracts.
pub open spec fn parsed_view(parsed: Result<Item, String>) -> Result<ItemView, Seq<char>> {
    match parsed {
        Ok(item) => Ok(item@),
        Err(message) => Err(message@),
    }
}

/// Calls `syn::parse_str::<syn::Item>` on `source` and copies the result out
/// of `syn`'s types. A `syn::Item::Fn` becomes [`Item::Function`], with its
/// visibility, signature, block and each attribute as printed tokens
/// (`ToTokens::to_token_stream`, then `to_string`), its name by
/// `Ident::to_string`, and each attribute's name by `Attribute::path` and
/// `Path::get_ident`. Every other variant, those that `syn` may add later
/// included, becomes [`Item::Other`] with the item's printed tokens. A
/// `syn::Error` becomes its message, by `to_string`.
///
/// The contract claims only that all of this is a function of `source`, and
/// calls it [`syn_item`]. There is no `requires`: the lexer rejects a text by
/// returning an error, and `syn` keeps a literal that it cannot interpret as
/// `Lit::Verbatim`.
#[verifier::external_body]
pub(crate) fn parse_item(source: &str) -> (parsed: Result<Item, String>)
    ensures
        parsed_view(parsed) == syn_item(source@),
{
    match syn::parse_str::<syn::Item>(source) {
        Ok(syn::Item::Fn(f)) => Ok(Item::Function(Function {
            attributes: f.attrs.iter().map(|a| Attribute {
                name: a.path().get_ident().map(ToString::to_string),
                tokens: a.to_token_stream().to_string(),
            }).collect(),
            visibility: f.vis.to_token_stream().to_string(),
            identifier: f.sig.ident.to_string(),
            signature: f.sig.to_token_stream().to_string(),
            body: f.block.to_token_stream().to_string(),
        })),
        Ok(other) => Ok(Item::Other(other.to_token_stream().to_string())),
        Err(error) => Err(error.to_string()),
    }
}

/// Calls `syn::Error::new` with the call-site span and `message`, then
/// `to_compile_error` and `to_string`: the tokens that make the compiler
/// stop with the message. The contract claims only that the text is a
/// function of `message`, and calls it [`syn_error_tokens`].
#[verifier::external_body]
pub(crate) fn error_tokens(message: &str) -> (tokens: String)
    ensures
        tokens@ == syn_error_tokens(message@),
{
    syn::Error::new(proc_macro2::Span::call_site(), message).to_compile_error().to_string()
}

} // verus!
