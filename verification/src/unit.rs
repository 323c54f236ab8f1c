//! The generated unit: the declarations that take the place of the function,
//! and the source text that each of them stands for.

use crate::syntax::{attribute_views, Attribute, AttributeView};
use crate::text::{join, push_text, spaced, texts};
use vstd::prelude::*;
use vstd::string::StringExecFns;

verus! {

/// The unit type that carries the function's name.
///
/// Written out as the documentation attributes, then
/// `#[allow(non_camel_case_types)]`, then the visibility, `struct`, the name
/// and `;`.
#[derive(Clone, Debug, PartialEq, Eq)]
pub struct TypeDeclaration {
    pub docs: Vec<Attribute>,
    pub visibility: String,
    pub identifier: String,
}

/// The inherent implementation: one method, which is the function as it was
/// written.
///
/// Written out as `impl`, the type's name and, in braces, the attributes, the
/// signature and the body, which brings its own braces.
#[derive(Clone, Debug, PartialEq, Eq)]
pub struct InherentImpl {
    pub self_type: String,
    pub attributes: Vec<Attribute>,
    pub signature: String,
    pub body: String,
}

/// The implementation of `trillium::Handler` for the type. Everything in it
/// but the type's name is fixed.
#[derive(Clone, Debug, PartialEq, Eq)]
pub struct HandlerImpl {
    pub self_type: String,
}

/// One generated declaration.
#[derive(Clone, Debug, PartialEq, Eq)]
pub enum Declaration {
    Type(TypeDeclaration),
    Inherent(InherentImpl),
    Handler(HandlerImpl),
}

/// What the rewrite puts in the place of the function: declarations, in the
/// order in which they are written out.
#[derive(Clone, Debug, PartialEq, Eq)]
pub struct GeneratedUnit {
    pub declarations: Vec<Declaration>,
}

/// What a [`TypeDeclaration`] is in contracts.
pub struct TypeDeclarationView {
    pub docs: Seq<AttributeView>,
    pub visibility: Seq<char>,
    pub identifier: Seq<char>,
}

/// What an [`InherentImpl`] is in contracts.
pub struct InherentImplView {
    pub self_type: Seq<char>,
    pub attributes: Seq<AttributeView>,
    pub signature: Seq<char>,
    pub body: Seq<char>,
}

/// What a [`HandlerImpl`] is in contracts.
pub struct HandlerImplView {
    pub self_type: Seq<char>,
}

/// What a [`Declaration`] is in contracts.
pub enum DeclarationView {
    Type(TypeDeclarationView),
    Inherent(InherentImplView),
    Handler(HandlerImplView),
}

impl View for TypeDeclaration {
    type V = TypeDeclarationView;

    open spec fn view(&self) -> TypeDeclarationView {
        TypeDeclarationView {
            docs: attribute_views(self.docs@),
            visibility: self.visibility@,
            identifier: self.identifier@,
        }
    }
}

impl View for InherentImpl {
    type V = InherentImplView;

    open spec fn view(&self) -> InherentImplView {
        InherentImplView {
            self_type: self.self_type@,
            attributes: attribute_views(self.attributes@),
            signature: self.signature@,
            body: self.body@,
        }
    }
}

impl View for HandlerImpl {
    type V = HandlerImplView;

    open spec fn view(&self) -> HandlerImplView {
        HandlerImplView { self_type: self.self_type@ }
    }
}

impl View for Declaration {
    type V = DeclarationView;

    open spec fn view(&self) -> DeclarationView {
        match self {
            Declaration::Type(declaration) => DeclarationView::Type(declaration@),
            Declaration::Inherent(declaration) => DeclarationView::Inherent(declaration@),
            Declaration::Handler(declaration) => DeclarationView::Handler(declaration@),
        }
    }
}

impl View for GeneratedUnit {
    type V = Seq<DeclarationView>;

    open spec fn view(&self) -> Seq<DeclarationView> {
        self.declarations@.map_values(|declaration: Declaration| declaration@)
    }
}

/// The tokens of each attribute, in order.
pub open spec fn attribute_tokens(attributes: Seq<AttributeView>) -> Seq<Seq<char>> {
    attributes.map_values(|attribute: AttributeView| attribute.tokens)
}

/// The call of the inherent method on the connection, awaited:
/// `Self::name(&mut conn).await`.
pub open spec fn scrutinee(name: Seq<char>) -> Seq<Seq<char>> {
    seq!["Self"@, "::"@, name, "("@, "&"@, "mut"@, "conn"@, ")"@, "."@, "await"@]
}

/// The arm for success, which hands the connection back: `Ok(_) => conn,`.
pub open spec fn success_arm() -> Seq<Seq<char>> {
    seq!["Ok"@, "("@, "_"@, ")"@, "=>"@, "conn"@, ","@]
}

/// The arm for failure, which lets the error handle the connection:
/// `Err(e) => e.run(conn).await`.
pub open spec fn error_arm() -> Seq<Seq<char>> {
    seq![
        "Err"@,
        "("@,
        "e"@,
        ")"@,
        "=>"@,
        "e"@,
        "."@,
        "run"@,
        "("@,
        "conn"@,
        ")"@,
        "."@,
        "await"@,
    ]
}

/// The body of the generated `run`: a `match` on the awaited call of the
/// inherent method, with one arm for success and one for failure.
pub open spec fn dispatch(name: Seq<char>) -> Seq<Seq<char>> {
    seq!["match"@] + scrutinee(name) + seq!["{"@] + success_arm() + error_arm() + seq!["}"@]
}

/// What stands before the body of the generated `run`:
/// `#[trillium::async_trait] impl trillium::Handler for name {
/// async fn run(&self, mut conn: trillium::Conn) -> trillium::Conn {`.
pub open spec fn handler_header(name: Seq<char>) -> Seq<Seq<char>> {
    seq![
        "#"@,
        "["@,
        "trillium"@,
        "::"@,
        "async_trait"@,
        "]"@,
        "impl"@,
        "trillium"@,
        "::"@,
        "Handler"@,
        "for"@,
        name,
        "{"@,
        "async"@,
        "fn"@,
        "run"@,
        "("@,
        "&"@,
        "self"@,
        ","@,
        "mut"@,
        "conn"@,
        ":"@,
        "trillium"@,
        "::"@,
        "Conn"@,
        ")"@,
        "->"@,
        "trillium"@,
        "::"@,
        "Conn"@,
        "{"@,
    ]
}

impl TypeDeclarationView {
    /// The declaration, fragment by fragment.
    pub open spec fn fragments(self) -> Seq<Seq<char>> {
        attribute_tokens(self.docs) + seq![
            "#"@,
            "["@,
            "allow"@,
            "("@,
            "non_camel_case_types"@,
            ")"@,
            "]"@,
            self.visibility,
            "struct"@,
            self.identifier,
            ";"@,
        ]
    }
}

impl InherentImplView {
    /// The implementation, fragment by fragment.
    pub open spec fn fragments(self) -> Seq<Seq<char>> {
        seq!["impl"@, self.self_type, "{"@] + attribute_tokens(self.attributes) + seq![
            self.signature,
            self.body,
            "}"@,
        ]
    }
}

impl HandlerImplView {
    /// The implementation, fragment by fragment.
    pub open spec fn fragments(self) -> Seq<Seq<char>> {
        handler_header(self.self_type) + dispatch(self.self_type) + seq!["}"@, "}"@]
    }
}

impl DeclarationView {
    /// The declaration, fragment by fragment.
    pub open spec fn fragments(self) -> Seq<Seq<char>> {
        match self {
            DeclarationView::Type(declaration) => declaration.fragments(),
            DeclarationView::Inherent(declaration) => declaration.fragments(),
            DeclarationView::Handler(declaration) => declaration.fragments(),
        }
    }

    /// The declaration as source text.
    pub open spec fn source(self) -> Seq<char> {
        spaced(self.fragments())
    }
}

/// The source text of a sequence of declarations: one after the other.
pub open spec fn unit_source(declarations: Seq<DeclarationView>) -> Seq<char>
    decreases declarations.len(),
{
    if declarations.len() == 0 {
        Seq::empty()
    } else {
        unit_source(declarations.drop_last()) + declarations.last().source()
    }
}

/// Adds the tokens of each attribute, in order, to the end of `parts`.
pub fn push_attributes(parts: &mut Vec<String>, attributes: &Vec<Attribute>)
    ensures
        texts(final(parts)@) == texts(old(parts)@) + attribute_tokens(
            attribute_views(attributes@),
        ),
{
    let ghost tokens = attribute_tokens(attribute_views(attributes@));
    let mut done: usize = 0;
    assert(texts(parts@) =~= texts(old(parts)@) + tokens.take(0));
    while done < attributes.len()
        invariant
            done <= attributes.len(),
            tokens == attribute_tokens(attribute_views(attributes@)),
            texts(parts@) == texts(old(parts)@) + tokens.take(done as int),
        decreases attributes.len() - done,
    {
        push_text(parts, attributes[done].tokens.as_str());
        assert(texts(parts@) =~= texts(old(parts)@) + tokens.take(done + 1));
        done += 1;
    }
    assert(tokens.take(attributes.len() as int) =~= tokens);
}

impl TypeDeclaration {
    /// The declaration, fragment by fragment.
    pub fn fragments(&self) -> (parts: Vec<String>)
        ensures
            texts(parts@) == self@.fragments(),
    {
        let mut parts: Vec<String> = Vec::new();
        assert(texts(parts@) =~= Seq::<Seq<char>>::empty());
        push_attributes(&mut parts, &self.docs);
        push_text(&mut parts, "#");
        push_text(&mut parts, "[");
        push_text(&mut parts, "allow");
        push_text(&mut parts, "(");
        push_text(&mut parts, "non_camel_case_types");
        push_text(&mut parts, ")");
        push_text(&mut parts, "]");
        push_text(&mut parts, self.visibility.as_str());
        push_text(&mut parts, "struct");
        push_text(&mut parts, self.identifier.as_str());
        push_text(&mut parts, ";");
        assert(texts(parts@) =~= self@.fragments());
        parts
    }
}

impl InherentImpl {
    /// The implementation, fragment by fragment.
    pub fn fragments(&self) -> (parts: Vec<String>)
        ensures
            texts(parts@) == self@.fragments(),
    {
        let mut parts: Vec<String> = Vec::new();
        assert(texts(parts@) =~= Seq::<Seq<char>>::empty());
        push_text(&mut parts, "impl");
        push_text(&mut parts, self.self_type.as_str());
        push_text(&mut parts, "{");
        push_attributes(&mut parts, &self.attributes);
        push_text(&mut parts, self.signature.as_str());
        push_text(&mut parts, self.body.as_str());
        push_text(&mut parts, "}");
        assert(texts(parts@) =~= self@.fragments());
        parts
    }
}

/// Adds the head of the handler implementation for the type `name`.
fn push_handler_header(parts: &mut Vec<String>, name: &str)
    ensures
        texts(final(parts)@) == texts(old(parts)@) + handler_header(name@),
{
    push_text(parts, "#");
    push_text(parts, "[");
    push_text(parts, "trillium");
    push_text(parts, "::");
    push_text(parts, "async_trait");
    push_text(parts, "]");
    push_text(parts, "impl");
    push_text(parts, "trillium");
    push_text(parts, "::");
    push_text(parts, "Handler");
    push_text(parts, "for");
    push_text(parts, name);
    push_text(parts, "{");
    push_text(parts, "async");
    push_text(parts, "fn");
    push_text(parts, "run");
    push_text(parts, "(");
    push_text(parts, "&");
    push_text(parts, "self");
    push_text(parts, ",");
    push_text(parts, "mut");
    push_text(parts, "conn");
    push_text(parts, ":");
    push_text(parts, "trillium");
    push_text(parts, "::");
    push_text(parts, "Conn");
    push_text(parts, ")");
    push_text(parts, "->");
    push_text(parts, "trillium");
    push_text(parts, "::");
    push_text(parts, "Conn");
    push_text(parts, "{");
    assert(texts(parts@) =~= texts(old(parts)@) + handler_header(name@));
}

/// Adds the awaited call of the inherent method `name`.
fn push_scrutinee(parts: &mut Vec<String>, name: &str)
    ensures
        texts(final(parts)@) == texts(old(parts)@) + scrutinee(name@),
{
    push_text(parts, "Self");
    push_text(parts, "::");
    push_text(parts, name);
    push_text(parts, "(");
    push_text(parts, "&");
    push_text(parts, "mut");
    push_text(parts, "conn");
    push_text(parts, ")");
    push_text(parts, ".");
    push_text(parts, "await");
    assert(texts(parts@) =~= texts(old(parts)@) + scrutinee(name@));
}

/// Adds the arm for success.
fn push_success_arm(parts: &mut Vec<String>)
    ensures
        texts(final(parts)@) == texts(old(parts)@) + success_arm(),
{
    push_text(parts, "Ok");
    push_text(parts, "(");
    push_text(parts, "_");
    push_text(parts, ")");
    push_text(parts, "=>");
    push_text(parts, "conn");
    push_text(parts, ",");
    assert(texts(parts@) =~= texts(old(parts)@) + success_arm());
}

/// Adds the arm for failure.
fn push_error_arm(parts: &mut Vec<String>)
    ensures
        texts(final(parts)@) == texts(old(parts)@) + error_arm(),
{
    push_text(parts, "Err");
    push_text(parts, "(");
    push_text(parts, "e");
    push_text(parts, ")");
    push_text(parts, "=>");
    push_text(parts, "e");
    push_text(parts, ".");
    push_text(parts, "run");
    push_text(parts, "(");
    push_text(parts, "conn");
    push_text(parts, ")");
    push_text(parts, ".");
    push_text(parts, "await");
    assert(texts(parts@) =~= texts(old(parts)@) + error_arm());
}

impl HandlerImpl {
    /// The implementation, fragment by fragment.
    pub fn fragments(&self) -> (parts: Vec<String>)
        ensures
            texts(parts@) == self@.fragments(),
    {
        let mut parts: Vec<String> = Vec::new();
        assert(texts(parts@) =~= Seq::<Seq<char>>::empty());
        let name = self.self_type.as_str();
        push_handler_header(&mut parts, name);
        push_text(&mut parts, "match");
        push_scrutinee(&mut parts, name);
        push_text(&mut parts, "{");
        push_success_arm(&mut parts);
        push_error_arm(&mut parts);
        push_text(&mut parts, "}");
        push_text(&mut parts, "}");
        push_text(&mut parts, "}");
        assert(texts(parts@) =~= self@.fragments());
        parts
    }
}

impl Declaration {
    /// The declaration, fragment by fragment.
    pub fn fragments(&self) -> (parts: Vec<String>)
        ensures
            texts(parts@) == self@.fragments(),
    {
        match self {
            Declaration::Type(declaration) => declaration.fragments(),
            Declaration::Inherent(declaration) => declaration.fragments(),
            Declaration::Handler(declaration) => declaration.fragments(),
        }
    }

    /// The declaration as source text.
    pub fn render(&self) -> (text: String)
        ensures
            text@ == self@.source(),
    {
        let parts = self.fragments();
        join(&parts)
    }
}

impl GeneratedUnit {
    /// The whole unit as source text: its declarations in order.
    pub fn render(&self) -> (text: String)
        ensures
            text@ == unit_source(self@),
    {
        let mut text = String::new();
        let mut done: usize = 0;
        while done < self.declarations.len()
            invariant
                done <= self.declarations.len(),
                text@ == unit_source(self@.take(done as int)),
            decreases self.declarations.len() - done,
        {
            let declaration = self.declarations[done].render();
            text.append(declaration.as_str());
            assert(self@.take(done + 1).drop_last() =~= self@.take(done as int));
            done += 1;
        }
        assert(self@.take(self.declarations.len() as int) =~= self@);
        text
    }
}

} // verus!
