//! The shape validator: accepts an item only if it is a function definition,
//! and sorts the function's attributes into documentation and the rest.

use crate::diagnostic::{shape_message, Diagnostic, DiagnosticView};
use crate::syntax::{attribute_views, Attribute, AttributeView, Function, FunctionView, Item, ItemView};
use vstd::prelude::*;

verus! {

/// A function definition that passed validation.
#[derive(Clone, Debug, PartialEq, Eq)]
pub struct AnnotatedFunction {
    pub visibility: String,
    pub identifier: String,
    pub signature: String,
    pub body: String,
    /// The documentation attributes, in the order in which they were written.
    pub docs: Vec<Attribute>,
    /// All other attributes, in the order in which they were written.
    pub attributes: Vec<Attribute>,
}

/// What an [`AnnotatedFunction`] is in contracts.
pub struct AnnotatedFunctionView {
    pub visibility: Seq<char>,
    pub identifier: Seq<char>,
    pub signature: Seq<char>,
    pub body: Seq<char>,
    pub docs: Seq<AttributeView>,
    pub attributes: Seq<AttributeView>,
}

impl View for AnnotatedFunction {
    type V = AnnotatedFunctionView;

    open spec fn view(&self) -> AnnotatedFunctionView {
        AnnotatedFunctionView {
            visibility: self.visibility@,
            identifier: self.identifier@,
            signature: self.signature@,
            body: self.body@,
            docs: attribute_views(self.docs@),
            attributes: attribute_views(self.attributes@),
        }
    }
}

impl AnnotatedFunctionView {
    /// Whether the attributes are sorted: each of `docs` is documentation,
    /// and none of `attributes` is.
    pub open spec fn sorted(self) -> bool {
        &&& forall|i: int| 0 <= i < self.docs.len() ==> (#[trigger] self.docs[i]).is_doc()
        &&& forall|i: int|
            0 <= i < self.attributes.len() ==> !(#[trigger] self.attributes[i]).is_doc()
    }
}

/// The documentation attributes among `attributes`, in order.
pub open spec fn documentation(attributes: Seq<AttributeView>) -> Seq<AttributeView> {
    attributes.filter(|attribute: AttributeView| attribute.is_doc())
}

/// The attributes among `attributes` that are not documentation, in order.
pub open spec fn non_documentation(attributes: Seq<AttributeView>) -> Seq<AttributeView> {
    attributes.filter(|attribute: AttributeView| !attribute.is_doc())
}

/// The parts of a function definition, with its attributes sorted.
pub open spec fn annotated(function: FunctionView) -> AnnotatedFunctionView {
    AnnotatedFunctionView {
        visibility: function.visibility,
        identifier: function.identifier,
        signature: function.signature,
        body: function.body,
        docs: documentation(function.attributes),
        attributes: non_documentation(function.attributes),
    }
}

/// The attributes of an annotated function are sorted.
pub proof fn lemma_annotated_is_sorted(function: FunctionView)
    ensures
        annotated(function).sorted(),
{
    broadcast use vstd::seq_lib::group_filter_ensures;

}

/// What validation makes of an item: the annotated function for a function
/// definition, and for anything else a report that points at the item.
pub open spec fn validated(item: ItemView) -> Result<AnnotatedFunctionView, DiagnosticView> {
    match item {
        ItemView::Function(function) => Ok(annotated(function)),
        ItemView::Other(tokens) => Err(
            DiagnosticView { message: shape_message(), subject: tokens },
        ),
    }
}

/// What a validation result is in contracts.
pub open spec fn validation_view(result: Result<AnnotatedFunction, Diagnostic>) -> Result<
    AnnotatedFunctionView,
    DiagnosticView,
> {
    match result {
        Ok(function) => Ok(function@),
        Err(diagnostic) => Err(diagnostic@),
    }
}

/// Sorts attributes into documentation (first) and the rest (second). Each
/// half keeps the order of the input, and every attribute lands in exactly
/// one of them, unchanged.
pub fn split_attributes(attributes: &Vec<Attribute>) -> (split: (Vec<Attribute>, Vec<Attribute>))
    ensures
        attribute_views(split.0@) == documentation(attribute_views(attributes@)),
        attribute_views(split.1@) == non_documentation(attribute_views(attributes@)),
{
    let mut docs: Vec<Attribute> = Vec::new();
    let mut others: Vec<Attribute> = Vec::new();
    let ghost all = attribute_views(attributes@);
    let mut seen: usize = 0;
    proof {
        reveal(Seq::filter);
        assert(all.take(0) =~= Seq::<AttributeView>::empty());
        assert(attribute_views(docs@) =~= documentation(all.take(0)));
        assert(attribute_views(others@) =~= non_documentation(all.take(0)));
    }
    while seen < attributes.len()
        invariant
            seen <= attributes.len(),
            all == attribute_views(attributes@),
            attribute_views(docs@) == documentation(all.take(seen as int)),
            attribute_views(others@) == non_documentation(all.take(seen as int)),
        decreases attributes.len() - seen,
    {
        let attribute = attributes[seen].clone();
        proof {
            reveal(Seq::filter);
            assert(all.take(seen + 1).drop_last() =~= all.take(seen as int));
            assert(all.take(seen + 1).last() == attribute@);
        }
        if attribute.is_doc() {
            docs.push(attribute);
            assert(attribute_views(docs@) =~= documentation(all.take(seen + 1)));
        } else {
            others.push(attribute);
            assert(attribute_views(others@) =~= non_documentation(all.take(seen + 1)));
        }
        seen += 1;
    }
    assert(all.take(attributes.len() as int) =~= all);
    (docs, others)
}

/// Checks that `item` is a function definition and takes it apart.
///
/// A function definition is always accepted; its visibility, name,
/// signature and body are kept as they are. Any other item is rejected with
/// the one fixed message, and the report points at the item.
pub fn validate(item: Item) -> (result: Result<AnnotatedFunction, Diagnostic>)
    ensures
        validation_view(result) == validated(item@),
        result is Ok <==> item@ is Function,
        result is Ok ==> result->Ok_0@.sorted(),
{
    proof {
        if item@ is Function {
            lemma_annotated_is_sorted(item@->Function_0);
        }
    }
    match item {
        Item::Function(function) => {
            let (docs, attributes) = split_attributes(&function.attributes);
            Ok(
                AnnotatedFunction {
                    visibility: function.visibility,
                    identifier: function.identifier,
                    signature: function.signature,
                    body: function.body,
                    docs,
                    attributes,
                },
            )
        },
        Item::Other(tokens) => Err(Diagnostic::shape_mismatch(tokens)),
    }
}

} // verus!
