//! The emitted text, read back with `syn`.

use syn::visit::Visit;
use syn::{Expr, ExprCall, ExprMethodCall, ImplItem, ImplItemFn, Item, ItemImpl, Pat, Stmt};
use trillium_error::diagnostic::Diagnostic;
use trillium_error::handler;

const DOCUMENTED: &str = r#"
/// Says hello.
#[inline]
#[doc = "Twice."]
pub(crate) async fn hello(conn: &mut Conn) -> Result<(), AppError> {
    conn.set_status(200);
    Ok(())
}
"#;

fn printed<T: quote::ToTokens>(node: &T) -> String {
    node.to_token_stream().to_string()
}

fn items(source: &str) -> Vec<Item> {
    syn::parse_file(&handler("", source)).expect("the emitted text is Rust").items
}

fn implementation(item: &Item) -> &ItemImpl {
    match item {
        Item::Impl(implementation) => implementation,
        other => panic!("expected an implementation, found {}", printed(other)),
    }
}

fn only_method(implementation: &ItemImpl) -> &ImplItemFn {
    assert_eq!(implementation.items.len(), 1);
    match &implementation.items[0] {
        ImplItem::Fn(method) => method,
        other => panic!("expected a method, found {}", printed(other)),
    }
}

struct Calls {
    inherent: usize,
    delegated: usize,
    other: usize,
}

impl<'ast> Visit<'ast> for Calls {
    fn visit_expr_call(&mut self, call: &'ast ExprCall) {
        if printed(&call.func) == "Self :: hello" {
            self.inherent += 1;
        } else {
            self.other += 1;
        }
        syn::visit::visit_expr_call(self, call);
    }

    fn visit_expr_method_call(&mut self, call: &'ast ExprMethodCall) {
        if printed(&call.receiver) == "e" && call.method == "run" {
            self.delegated += 1;
        } else {
            self.other += 1;
        }
        syn::visit::visit_expr_method_call(self, call);
    }
}

fn calls_in(expression: &Expr) -> Calls {
    let mut calls = Calls { inherent: 0, delegated: 0, other: 0 };
    calls.visit_expr(expression);
    calls
}

#[test]
fn the_emitted_text_holds_a_type_then_two_implementations() {
    let items = items(DOCUMENTED);
    assert_eq!(items.len(), 3);
    assert!(matches!(items[0], Item::Struct(_)));
    assert!(implementation(&items[1]).trait_.is_none());
    let (_, interface, _) =
        implementation(&items[2]).trait_.as_ref().expect("an implementation of a trait");
    assert_eq!(printed(interface), "trillium :: Handler");
    assert_eq!(printed(&implementation(&items[1]).self_ty), "hello");
    assert_eq!(printed(&implementation(&items[2]).self_ty), "hello");
}

#[test]
fn the_emitted_type_is_a_unit_struct_with_the_documentation() {
    let items = items(DOCUMENTED);
    let declared = match &items[0] {
        Item::Struct(declared) => declared,
        other => panic!("expected a struct, found {}", printed(other)),
    };
    assert_eq!(declared.ident, "hello");
    assert_eq!(printed(&declared.vis), "pub (crate)");
    assert!(matches!(declared.fields, syn::Fields::Unit));
    assert!(declared.generics.params.is_empty());
    let attributes: Vec<String> = declared.attrs.iter().map(printed).collect();
    assert_eq!(
        attributes,
        vec![
            "# [doc = \" Says hello.\"]",
            "# [doc = \"Twice.\"]",
            "# [allow (non_camel_case_types)]",
        ]
    );
}

#[test]
fn the_emitted_method_is_the_function_with_its_other_attributes() {
    let items = items(DOCUMENTED);
    let owner = implementation(&items[1]);
    assert!(owner.attrs.is_empty());
    let method = only_method(owner);
    assert_eq!(method.sig.ident, "hello");
    assert_eq!(
        printed(&method.sig),
        "async fn hello (conn : & mut Conn) -> Result < () , AppError >"
    );
    let attributes: Vec<String> = method.attrs.iter().map(printed).collect();
    assert_eq!(attributes, vec!["# [inline]"]);
    assert_eq!(printed(&method.block), "{ conn . set_status (200) ; Ok (()) }");
    assert_eq!(method.block.stmts.len(), 2);
}

#[test]
fn the_emitted_handler_has_the_one_operation_of_the_interface() {
    let items = items(DOCUMENTED);
    let handler = implementation(&items[2]);
    let attributes: Vec<String> = handler.attrs.iter().map(printed).collect();
    assert_eq!(attributes, vec!["# [trillium :: async_trait]"]);
    let run = only_method(handler);
    assert!(run.attrs.is_empty());
    assert_eq!(
        printed(&run.sig),
        "async fn run (& self , mut conn : trillium :: Conn) -> trillium :: Conn"
    );
}

#[test]
fn the_dispatch_awaits_the_method_and_hands_errors_to_themselves() {
    let items = items(DOCUMENTED);
    let run = only_method(implementation(&items[2]));
    assert_eq!(run.block.stmts.len(), 1);
    let dispatch = match &run.block.stmts[0] {
        Stmt::Expr(Expr::Match(dispatch), None) => dispatch,
        other => panic!("expected a match, found {}", printed(other)),
    };
    match &*dispatch.expr {
        Expr::Await(awaited) => match &*awaited.base {
            Expr::Call(call) => {
                assert_eq!(printed(&call.func), "Self :: hello");
                assert_eq!(call.args.len(), 1);
                assert_eq!(printed(&call.args[0]), "& mut conn");
            }
            other => panic!("expected a call, found {}", printed(other)),
        },
        other => panic!("expected an awaited call, found {}", printed(other)),
    }
    assert_eq!(dispatch.arms.len(), 2);
    assert!(dispatch.arms.iter().all(|arm| arm.guard.is_none()));
    match &dispatch.arms[0].pat {
        Pat::TupleStruct(pattern) => {
            assert_eq!(printed(&pattern.path), "Ok");
            assert_eq!(printed(&pattern.elems), "_");
        }
        other => panic!("expected a pattern for success, found {}", printed(other)),
    }
    assert_eq!(printed(&dispatch.arms[0].body), "conn");
    match &dispatch.arms[1].pat {
        Pat::TupleStruct(pattern) => {
            assert_eq!(printed(&pattern.path), "Err");
            assert_eq!(printed(&pattern.elems), "e");
        }
        other => panic!("expected a pattern for failure, found {}", printed(other)),
    }
    match &*dispatch.arms[1].body {
        Expr::Await(awaited) => match &*awaited.base {
            Expr::MethodCall(call) => {
                assert_eq!(printed(&call.receiver), "e");
                assert_eq!(call.method, "run");
                assert_eq!(call.args.len(), 1);
                assert_eq!(printed(&call.args[0]), "conn");
            }
            other => panic!("expected a call of a method, found {}", printed(other)),
        },
        other => panic!("expected an awaited call, found {}", printed(other)),
    }
}

#[test]
fn the_dispatch_holds_one_call_of_each_kind() {
    let items = items(DOCUMENTED);
    let run = only_method(implementation(&items[2]));
    let body = match &run.block.stmts[0] {
        Stmt::Expr(body, None) => body,
        other => panic!("expected an expression, found {}", printed(other)),
    };
    let dispatch = match body {
        Expr::Match(dispatch) => dispatch,
        other => panic!("expected a match, found {}", printed(other)),
    };
    let whole = calls_in(body);
    assert_eq!((whole.inherent, whole.delegated, whole.other), (1, 1, 0));
    let scrutinee = calls_in(&dispatch.expr);
    assert_eq!((scrutinee.inherent, scrutinee.delegated, scrutinee.other), (1, 0, 0));
    let success = calls_in(&dispatch.arms[0].body);
    assert_eq!((success.inherent, success.delegated, success.other), (0, 0, 0));
    let failure = calls_in(&dispatch.arms[1].body);
    assert_eq!((failure.inherent, failure.delegated, failure.other), (0, 1, 0));
}

#[test]
fn a_report_is_an_invocation_that_carries_the_message() {
    for message in [
        "the annotation must be attached to a function definition",
        "",
        "a \"quoted\" word",
        "back\\slash and\nnew line and \t tab",
        "not ascii: \u{e9}\u{4e16}\u{1f600}",
        "{ unbalanced ) ] braces",
    ] {
        let diagnostic =
            Diagnostic { message: message.to_string(), subject: "struct Foo ;".to_string() };
        let written = diagnostic.to_compile_error();
        let invocation: syn::Macro = syn::parse_str(&written).expect("a macro invocation");
        assert_eq!(printed(&invocation.path), ":: core :: compile_error");
        assert!(matches!(invocation.delimiter, syn::MacroDelimiter::Brace(_)));
        let carried: syn::LitStr = syn::parse2(invocation.tokens).expect("one string literal");
        assert_eq!(carried.value(), message);
        assert_ne!(written, message);
    }
}

#[test]
fn the_report_does_not_depend_on_what_it_points_at() {
    let here = Diagnostic { message: "m".to_string(), subject: "struct Foo ;".to_string() };
    let there = Diagnostic { message: "m".to_string(), subject: "enum E { }".to_string() };
    assert_eq!(here.to_compile_error(), there.to_compile_error());
    assert_eq!(here.to_compile_error(), ":: core :: compile_error ! { \"m\" }");
}

#[test]
fn greet_reads_back_as_type_method_and_delegating_handler() {
    let items =
        items("async fn greet(conn: &mut Conn) -> Outcome<(), AppError> { Outcome::Ok(()) }");
    assert_eq!(items.len(), 3);
    match &items[0] {
        Item::Struct(declared) => {
            assert_eq!(declared.ident, "greet");
            assert!(matches!(declared.vis, syn::Visibility::Inherited));
            assert!(matches!(declared.fields, syn::Fields::Unit));
        }
        other => panic!("expected a struct, found {}", printed(other)),
    }
    let method = only_method(implementation(&items[1]));
    assert_eq!(printed(&implementation(&items[1]).self_ty), "greet");
    assert_eq!(method.sig.ident, "greet");
    assert!(method.sig.asyncness.is_some());
    assert_eq!(printed(&method.sig.output), "-> Outcome < () , AppError >");
    assert_eq!(printed(&method.block), "{ Outcome :: Ok (()) }");
    let run = only_method(implementation(&items[2]));
    let dispatch = match &run.block.stmts[0] {
        Stmt::Expr(Expr::Match(dispatch), None) => dispatch,
        other => panic!("expected a match, found {}", printed(other)),
    };
    assert_eq!(printed(&dispatch.expr), "Self :: greet (& mut conn) . await");
    assert_eq!(printed(&dispatch.arms[0].pat), "Ok (_)");
    assert_eq!(printed(&dispatch.arms[0].body), "conn");
    assert_eq!(printed(&dispatch.arms[1].pat), "Err (e)");
    assert_eq!(printed(&dispatch.arms[1].body), "e . run (conn) . await");
}

#[test]
fn whatever_function_is_rewritten_the_emitted_text_is_rust() {
    for source in [
        "fn f() {}",
        "pub fn f() -> Result<(), E> { Ok(()) }",
        "pub(in crate::routes) async unsafe fn f<'a, T: Send>(conn: &'a mut T) -> Result<(), E> where T: Sync { todo!() }",
        "/// One.\n/// Two.\n#[inline(always)]\n#[cfg(feature = \"x\")]\npub(crate) async fn documented(conn: &mut Conn) -> Result<(), E> { let s = \"} { \\\" ) (\"; Err(E::from(s)) }",
        "async fn r#match(conn: &mut Conn) -> Result<(), E> { Ok(()) }",
    ] {
        let items = items(source);
        assert_eq!(items.len(), 3, "{}", source);
        assert!(matches!(items[0], Item::Struct(_)), "{}", source);
        assert!(implementation(&items[1]).trait_.is_none(), "{}", source);
        assert!(implementation(&items[2]).trait_.is_some(), "{}", source);
        let written: syn::ItemFn = syn::parse_str(source).expect("a function definition");
        let method = only_method(implementation(&items[1]));
        assert_eq!(printed(&method.sig), printed(&written.sig), "{}", source);
        assert_eq!(printed(&method.block), printed(&written.block), "{}", source);
        assert_eq!(method.block.stmts.len(), written.block.stmts.len(), "{}", source);
    }
}
