//! The syntax that the rewrite reads: an item, and the parts of a function
//! definition, each kept as the tokens it was written with.

use vstd::prelude::*;

verus! {

/// One attribute of an item, such as `#[inline]` or `#[doc = "..."]`.
#[derive(Debug, PartialEq, Eq)]
pub struct Attribute {
    /// The attribute's path where that path is a single identifier, such as
    /// `inline`; `None` for a longer path such as `tokio::main`.
    pub name: Option<String>,
    /// The whole attribute as written, from `#` to `]`.
    pub tokens: String,
}

/// What an [`Attribute`] is in contracts.
pub struct AttributeView {
    pub name: Option<Seq<char>>,
    pub tokens: Seq<char>,
}

/// The view of an optional string.
pub open spec fn optional_text(text: Option<String>) -> Option<Seq<char>> {
    match text {
        Some(s) => Some(s@),
        None => None,
    }
}

impl View for Attribute {
    type V = AttributeView;

    open spec fn view(&self) -> AttributeView {
        AttributeView { name: optional_text(self.name), tokens: self.tokens@ }
    }
}

impl AttributeView {
    /// A documentation attribute is one whose path is the identifier `doc`.
    pub open spec fn is_doc(self) -> bool {
        self.name == Some("doc"@)
    }
}

impl Clone for Attribute {
    fn clone(&self) -> (copy: Attribute)
        ensures
            copy@ == self@,
    {
        let name = match &self.name {
            Some(name) => Some(name.clone()),
            None => None,
        };
        Attribute { name, tokens: self.tokens.clone() }
    }
}

impl Attribute {
    /// Whether this is a documentation attribute.
    pub fn is_doc(&self) -> (doc: bool)
        ensures
            doc == self@.is_doc(),
    {
        match &self.name {
            Some(name) => *name == "doc".to_string(),
            None => false,
        }
    }
}

/// What a vector of attributes is in contracts: the view of each, in order.
pub open spec fn attribute_views(attributes: Seq<Attribute>) -> Seq<AttributeView> {
    attributes.map_values(|attribute: Attribute| attribute@)
}

/// A function definition, taken apart.
#[derive(Clone, Debug, PartialEq, Eq)]
pub struct Function {
    /// Every attribute of the function, documentation included, in the order
    /// in which they were written.
    pub attributes: Vec<Attribute>,
    /// The visibility as written; empty where none was written.
    pub visibility: String,
    /// The function's name.
    pub identifier: String,
    /// The signature, from the first qualifier or `fn` to the return type.
    pub signature: String,
    /// The body, braces included.
    pub body: String,
}

/// What a [`Function`] is in contracts.
pub struct FunctionView {
    pub attributes: Seq<AttributeView>,
    pub visibility: Seq<char>,
    pub identifier: Seq<char>,
    pub signature: Seq<char>,
    pub body: Seq<char>,
}

impl View for Function {
    type V = FunctionView;

    open spec fn view(&self) -> FunctionView {
        FunctionView {
            attributes: attribute_views(self.attributes@),
            visibility: self.visibility@,
            identifier: self.identifier@,
            signature: self.signature@,
            body: self.body@,
        }
    }
}

/// An item of source code, as far as the rewrite tells items apart.
#[derive(Clone, Debug, PartialEq, Eq)]
pub enum Item {
    /// A function definition with a body.
    Function(Function),
    /// Any other item (a constant, a type alias, a module, a struct, ...),
    /// kept as its tokens.
    Other(String),
}

/// What an [`Item`] is in contracts.
pub enum ItemView {
    Function(FunctionView),
    Other(Seq<char>),
}

impl View for Item {
    type V = ItemView;

    open spec fn view(&self) -> ItemView {
        match self {
            Item::Function(function) => ItemView::Function(function@),
            Item::Other(tokens) => ItemView::Other(tokens@),
        }
    }
}

} // verus!
