//! What holds of every invocation, proved from the definitions of the
//! validator and the emitter.

use crate::diagnostic::{shape_message, DiagnosticView};
use crate::emit::emitted;
use crate::expand::expansion;
use crate::syntax::{AttributeView, FunctionView, ItemView};
use crate::unit::{
    attribute_tokens, dispatch, error_arm, scrutinee, unit_source, DeclarationView,
    HandlerImplView,
};
use crate::validate::{annotated, documentation, non_documentation};
use vstd::prelude::*;

verus! {

/// The declarations that the rewrite generates for a function definition.
pub open spec fn generated(function: FunctionView) -> Seq<DeclarationView> {
    emitted(annotated(function))
}

/// Whether `pattern` stands in `tokens`, token for token, from position `at`.
pub open spec fn occurs_at(tokens: Seq<Seq<char>>, pattern: Seq<Seq<char>>, at: int) -> bool {
    &&& 0 <= at
    &&& at + pattern.len() <= tokens.len()
    &&& tokens.subrange(at, at + pattern.len()) == pattern
}

/// Whether `pattern` stands in `tokens` at one position and at no other.
pub open spec fn occurs_once(tokens: Seq<Seq<char>>, pattern: Seq<Seq<char>>) -> bool {
    exists|at: int|
        {
            &&& #[trigger] occurs_at(tokens, pattern, at)
            &&& forall|other: int| #[trigger] occurs_at(tokens, pattern, other) ==> other == at
        }
}

/// How a call of the inherent method `name` begins: `Self::name(`.
pub open spec fn inherent_call(name: Seq<char>) -> Seq<Seq<char>> {
    seq!["Self"@, "::"@, name, "("@]
}

/// How the call of the error's own handler begins: `e.run(`.
pub open spec fn error_handler_call() -> Seq<Seq<char>> {
    seq!["e"@, "."@, "run"@, "("@]
}

/// A function definition always yields a generated unit and no diagnostic.
/// The unit holds exactly three declarations: the type, the inherent
/// implementation and the handler implementation, in this order, and its
/// source text is the three of them written one after the other.
pub proof fn law_function_yields_three_declarations(function: FunctionView)
    ensures
        expansion(ItemView::Function(function)) == Ok::<Seq<DeclarationView>, DiagnosticView>(
            generated(function),
        ),
        generated(function).len() == 3,
        generated(function)[0] is Type,
        generated(function)[1] is Inherent,
        generated(function)[2] is Handler,
        unit_source(generated(function)) == generated(function)[0].source() + generated(
            function,
        )[1].source() + generated(function)[2].source(),
{
    let unit = generated(function);
    reveal_with_fuel(unit_source, 4);
    assert(unit.drop_last().drop_last().drop_last() =~= Seq::<DeclarationView>::empty());
    assert(unit.drop_last().drop_last().last() == unit[0]);
    assert(unit.drop_last().last() == unit[1]);
    assert(unit.last() == unit[2]);
}

/// Every item yields either a generated unit or a diagnostic: the unit if
/// and only if the item is a function definition.
pub proof fn law_one_outcome_per_item(item: ItemView)
    ensures
        expansion(item) is Ok <==> item is Function,
        expansion(item) is Err <==> item is Other,
{
}

/// An item that is not a function definition always yields a diagnostic and
/// no generated unit: the one fixed message, pointing at the item.
pub proof fn law_other_item_yields_diagnostic(tokens: Seq<char>)
    ensures
        expansion(ItemView::Other(tokens)) == Err::<Seq<DeclarationView>, DiagnosticView>(
            DiagnosticView { message: shape_message(), subject: tokens },
        ),
{
}

/// The documentation attributes of a function definition are attached to the
/// generated type and to nothing else. The type carries all of them and no
/// other attribute of the function, unmodified and in the order in which
/// they were written, and they are written out before the type's own tokens.
/// No attribute of the inherent method is a documentation attribute, and the
/// handler implementation is made from the function's name alone.
pub proof fn law_documentation_goes_to_the_type_only(function: FunctionView)
    ensures
        ({
            let unit = generated(function);
            let docs = unit[0]->Type_0.docs;
            &&& docs == documentation(function.attributes)
            &&& forall|i: int|
                0 <= i < function.attributes.len() && function.attributes[i].is_doc()
                    ==> docs.contains(#[trigger] function.attributes[i])
            &&& forall|i: int| 0 <= i < docs.len() ==> (#[trigger] docs[i]).is_doc()
            &&& unit[0].fragments().subrange(0, docs.len() as int) == attribute_tokens(docs)
            &&& forall|i: int|
                0 <= i < unit[1]->Inherent_0.attributes.len() ==> !(
                #[trigger] unit[1]->Inherent_0.attributes[i]).is_doc()
            &&& unit[2] == DeclarationView::Handler(
                HandlerImplView { self_type: function.identifier },
            )
        }),
{
    broadcast use vstd::seq_lib::group_filter_ensures;

    let unit = generated(function);
    let docs = unit[0]->Type_0.docs;
    assert(unit[0].fragments().subrange(0, docs.len() as int) =~= attribute_tokens(docs));
}

/// The attributes of a function definition that are not documentation are
/// attached to the inherent method and to nothing else. The method carries
/// all of them and no documentation, unmodified and in the order in which
/// they were written, and they are written out after `impl`, the type's name
/// and the opening brace. Every attribute of the generated type is a
/// documentation attribute, and the handler implementation is made from the
/// function's name alone.
pub proof fn law_other_attributes_go_to_the_method_only(function: FunctionView)
    ensures
        ({
            let unit = generated(function);
            let attributes = unit[1]->Inherent_0.attributes;
            &&& attributes == non_documentation(function.attributes)
            &&& forall|i: int|
                0 <= i < function.attributes.len() && !function.attributes[i].is_doc()
                    ==> attributes.contains(#[trigger] function.attributes[i])
            &&& forall|i: int| 0 <= i < attributes.len() ==> !(#[trigger] attributes[i]).is_doc()
            &&& unit[1].fragments().subrange(3, 3int + attributes.len()) == attribute_tokens(
                attributes,
            )
            &&& forall|i: int|
                0 <= i < unit[0]->Type_0.docs.len() ==> (#[trigger] unit[0]->Type_0.docs[i]).is_doc()
            &&& unit[2] == DeclarationView::Handler(
                HandlerImplView { self_type: function.identifier },
            )
        }),
{
    broadcast use vstd::seq_lib::group_filter_ensures;

    let unit = generated(function);
    let attributes = unit[1]->Inherent_0.attributes;
    assert(unit[1].fragments().subrange(3, 3int + attributes.len()) =~= attribute_tokens(
        attributes,
    ));
}

/// Every attribute of a function definition is forwarded exactly once: the
/// documentation and the other attributes together are as many as the
/// function has.
pub proof fn law_every_attribute_is_forwarded_once(attributes: Seq<AttributeView>)
    ensures
        documentation(attributes).len() + non_documentation(attributes).len()
            == attributes.len(),
    decreases attributes.len(),
{
    reveal(Seq::filter);
    if attributes.len() > 0 {
        law_every_attribute_is_forwarded_once(attributes.drop_last());
    }
}

/// The positions in `attributes`, in increasing order, of the attributes
/// that are documentation (for `wanted`) or that are not (for `!wanted`).
pub open spec fn positions(attributes: Seq<AttributeView>, wanted: bool) -> Seq<int>
    decreases attributes.len(),
{
    if attributes.len() == 0 {
        Seq::empty()
    } else {
        let before = positions(attributes.drop_last(), wanted);
        if attributes.last().is_doc() == wanted {
            before.push(attributes.len() - 1)
        } else {
            before
        }
    }
}

/// What is forwarded of a function's attributes, to the type (for `wanted`)
/// or to the method (for `!wanted`).
pub open spec fn forwarded(attributes: Seq<AttributeView>, wanted: bool) -> Seq<AttributeView> {
    if wanted {
        documentation(attributes)
    } else {
        non_documentation(attributes)
    }
}

/// Forwarded attributes keep the order in which they were written: the
/// attributes forwarded to the type, and those forwarded to the method, are
/// the attributes at increasing positions of the function's own list.
pub proof fn law_forwarded_attributes_keep_their_order(
    attributes: Seq<AttributeView>,
    wanted: bool,
)
    ensures
        positions(attributes, wanted).len() == forwarded(attributes, wanted).len(),
        forall|i: int|
            0 <= i < positions(attributes, wanted).len() ==> {
                &&& 0 <= (#[trigger] positions(attributes, wanted)[i]) < attributes.len()
                &&& attributes[positions(attributes, wanted)[i]] == forwarded(
                    attributes,
                    wanted,
                )[i]
            },
        forall|i: int, j: int|
            0 <= i < j < positions(attributes, wanted).len() ==> (#[trigger] positions(
                attributes,
                wanted,
            )[i]) < (#[trigger] positions(attributes, wanted)[j]),
    decreases attributes.len(),
{
    reveal(Seq::filter);
    if attributes.len() > 0 {
        law_forwarded_attributes_keep_their_order(attributes.drop_last(), wanted);
    }
}

/// The generated type has the name and the visibility of the function; both
/// implementations are for the type of that name; and the inherent method
/// has the signature and the body of the function.
pub proof fn law_type_keeps_name_and_visibility(function: FunctionView)
    ensures
        ({
            let unit = generated(function);
            &&& unit[0]->Type_0.identifier == function.identifier
            &&& unit[0]->Type_0.visibility == function.visibility
            &&& unit[1]->Inherent_0.self_type == function.identifier
            &&& unit[2]->Handler_0.self_type == function.identifier
            &&& unit[1]->Inherent_0.signature == function.signature
            &&& unit[1]->Inherent_0.body == function.body
        }),
{
}

/// The parts of the function are written out as they were read: visibility
/// and name in the type, after its attributes and the lint allowance;
/// signature and body in the inherent implementation, after its attributes,
/// the body directly behind the signature and nothing after it but the
/// brace that closes the implementation.
pub proof fn law_parts_are_written_out_verbatim(function: FunctionView)
    ensures
        ({
            let unit = generated(function);
            let docs: int = documentation(function.attributes).len() as int;
            let others: int = non_documentation(function.attributes).len() as int;
            &&& unit[0].fragments().len() == docs + 11
            &&& unit[0].fragments()[docs + 7] == function.visibility
            &&& unit[0].fragments()[docs + 8] == "struct"@
            &&& unit[0].fragments()[docs + 9] == function.identifier
            &&& unit[1].fragments().len() == others + 6
            &&& unit[1].fragments()[0] == "impl"@
            &&& unit[1].fragments()[1] == function.identifier
            &&& unit[1].fragments()[2] == "{"@
            &&& unit[1].fragments()[others + 3] == function.signature
            &&& unit[1].fragments()[others + 4] == function.body
            &&& unit[1].fragments()[others + 5] == "}"@
            &&& unit[1].fragments() == seq!["impl"@, function.identifier, "{"@]
                + attribute_tokens(non_documentation(function.attributes)) + seq![
                function.signature,
                function.body,
                "}"@,
            ]
        }),
{
}

/// What the fixed tokens of the dispatch hold, character by character.
proof fn lemma_dispatch_tokens()
    ensures
        "match"@ =~= seq!['m', 'a', 't', 'c', 'h'],
        "Self"@ =~= seq!['S', 'e', 'l', 'f'],
        "::"@ =~= seq![':', ':'],
        "("@ =~= seq!['('],
        "&"@ =~= seq!['&'],
        "mut"@ =~= seq!['m', 'u', 't'],
        "conn"@ =~= seq!['c', 'o', 'n', 'n'],
        ")"@ =~= seq![')'],
        "."@ =~= seq!['.'],
        "await"@ =~= seq!['a', 'w', 'a', 'i', 't'],
        "{"@ =~= seq!['{'],
        "Ok"@ =~= seq!['O', 'k'],
        "_"@ =~= seq!['_'],
        "=>"@ =~= seq!['=', '>'],
        ","@ =~= seq![','],
        "Err"@ =~= seq!['E', 'r', 'r'],
        "e"@ =~= seq!['e'],
        "run"@ =~= seq!['r', 'u', 'n'],
        "}"@ =~= seq!['}'],
{
    reveal_strlit("match");
    reveal_strlit("Self");
    reveal_strlit("::");
    reveal_strlit("(");
    reveal_strlit("&");
    reveal_strlit("mut");
    reveal_strlit("conn");
    reveal_strlit(")");
    reveal_strlit(".");
    reveal_strlit("await");
    reveal_strlit("{");
    reveal_strlit("Ok");
    reveal_strlit("_");
    reveal_strlit("=>");
    reveal_strlit(",");
    reveal_strlit("Err");
    reveal_strlit("e");
    reveal_strlit("run");
    reveal_strlit("}");
}

/// The body of the generated `run` is the dispatch on the function's name.
/// It calls the inherent method exactly once, and that call is the scrutinee
/// of its `match`; it calls the error's own handler exactly once, and that
/// call stands in the arm for failure.
pub proof fn law_dispatch_calls_each_once(function: FunctionView)
    ensures
        ({
            let name = function.identifier;
            let body = dispatch(name);
            &&& generated(function)[2].fragments().subrange(32, 65) == body
            &&& generated(function)[2].fragments().len() == 67
            &&& body.subrange(1, 11) == scrutinee(name)
            &&& body.subrange(19, 32) == error_arm()
            &&& occurs_once(body, inherent_call(name))
            &&& occurs_at(body, inherent_call(name), 1)
            &&& occurs_at(scrutinee(name), inherent_call(name), 0)
            &&& occurs_once(body, error_handler_call())
            &&& occurs_at(body, error_handler_call(), 24)
            &&& occurs_at(error_arm(), error_handler_call(), 5)
        }),
{
    lemma_dispatch_tokens();
    let name = function.identifier;
    let tokens = dispatch(name);
    let call = inherent_call(name);
    let delegation = error_handler_call();
    assert(tokens.len() == 33);
    assert(generated(function)[2].fragments().subrange(32, 65) =~= tokens);
    assert(tokens.subrange(1, 11) =~= scrutinee(name));
    assert(tokens.subrange(19, 32) =~= error_arm());
    assert(tokens.subrange(1, 5) =~= call);
    assert(scrutinee(name).subrange(0, 4) =~= call);
    assert(tokens.subrange(24, 28) =~= delegation);
    assert(error_arm().subrange(5, 9) =~= delegation);
    assert(occurs_at(tokens, call, 1));
    assert(occurs_at(tokens, delegation, 24));
    assert forall|other: int| #[trigger] occurs_at(tokens, call, other) implies other == 1 by {
        let window = tokens.subrange(other, other + 4);
        assert(window[0] == tokens[other]);
        assert(window[1] == tokens[other + 1]);
        assert(tokens[other] == "Self"@);
        assert(tokens[other + 1] == "::"@);
    }
    assert forall|other: int| #[trigger]
        occurs_at(tokens, delegation, other) implies other == 24 by {
        let window = tokens.subrange(other, other + 4);
        assert(window[0] == tokens[other]);
        assert(window[1] == tokens[other + 1]);
        assert(tokens[other] == "e"@);
        assert(tokens[other + 1] == "."@);
    }
}

} // verus!
