//! The code emitter: from a validated function to the declarations that
//! replace it.

use crate::unit::{
    Declaration, DeclarationView, GeneratedUnit, HandlerImpl, HandlerImplView, InherentImpl,
    InherentImplView, TypeDeclaration, TypeDeclarationView,
};
use crate::validate::{AnnotatedFunction, AnnotatedFunctionView};
use vstd::prelude::*;

verus! {

/// The unit type for a function: its documentation, its visibility, its name.
pub open spec fn type_declaration(function: AnnotatedFunctionView) -> TypeDeclarationView {
    TypeDeclarationView {
        docs: function.docs,
        visibility: function.visibility,
        identifier: function.identifier,
    }
}

/// The inherent implementation for a function: on the type of the function's
/// name, the function itself with its attributes other than documentation.
pub open spec fn inherent_impl(function: AnnotatedFunctionView) -> InherentImplView {
    InherentImplView {
        self_type: function.identifier,
        attributes: function.attributes,
        signature: function.signature,
        body: function.body,
    }
}

/// The handler implementation for a function: for the type of the function's
/// name.
pub open spec fn handler_impl(function: AnnotatedFunctionView) -> HandlerImplView {
    HandlerImplView { self_type: function.identifier }
}

/// The declarations for a function: the type, the inherent implementation
/// and the handler implementation, in this order.
pub open spec fn emitted(function: AnnotatedFunctionView) -> Seq<DeclarationView> {
    seq![
        DeclarationView::Type(type_declaration(function)),
        DeclarationView::Inherent(inherent_impl(function)),
        DeclarationView::Handler(handler_impl(function)),
    ]
}

/// Produces the declarations that replace `function`.
pub fn emit(function: AnnotatedFunction) -> (unit: GeneratedUnit)
    ensures
        unit@ == emitted(function@),
        unit@.len() == 3,
        unit@[0] is Type,
        unit@[1] is Inherent,
        unit@[2] is Handler,
{
    let unit_name = function.identifier.clone();
    let method_owner = function.identifier.clone();
    let mut declarations: Vec<Declaration> = Vec::new();
    declarations.push(
        Declaration::Type(
            TypeDeclaration {
                docs: function.docs,
                visibility: function.visibility,
                identifier: unit_name,
            },
        ),
    );
    declarations.push(
        Declaration::Inherent(
            InherentImpl {
                self_type: method_owner,
                attributes: function.attributes,
                signature: function.signature,
                body: function.body,
            },
        ),
    );
    declarations.push(Declaration::Handler(HandlerImpl { self_type: function.identifier }));
    let unit = GeneratedUnit { declarations };
    assert(unit@ =~= emitted(function@));
    unit
}

} // verus!
