use functionless_closures::js::{absent_node, JsKind, JsNode, Op, Span, VarDeclKind};
use functionless_closures::js_util::{empty_span, mk_inner, mk_leaf, mk_node};
use functionless_closures::lexical_scope::{Hoist, LexicalScope};

fn at(ctxt: u32) -> Span {
    Span { lo: 1, hi: 2, ctxt, line: 1, col: 0 }
}

fn ident(name: &str, ctxt: u32) -> JsNode {
    mk_leaf(JsKind::Ident, at(ctxt), name.to_string(), false, 0)
}

fn binding(name: &str, ctxt: u32) -> JsNode {
    mk_leaf(JsKind::BindingIdent, at(ctxt), name.to_string(), false, 0)
}

fn inner(kind: JsKind, children: Vec<JsNode>) -> JsNode {
    mk_inner(kind, empty_span(), children)
}

fn var_decl(kind: VarDeclKind, decls: Vec<JsNode>) -> JsNode {
    mk_node(JsKind::VarDecl, empty_span(), Op::Var(kind), String::new(), false, false, 0, decls)
}

fn name(s: &str) -> String {
    s.to_string()
}

#[test]
fn new_scope_has_no_names() {
    let ls = LexicalScope::new();
    assert_eq!(ls.lookup(&name("a"), Hoist::Block), None);
    assert_eq!(ls.lookup(&name("a"), Hoist::Function), None);
}

#[test]
fn block_binding_is_visible_in_block_and_function() {
    let mut ls = LexicalScope::new();
    ls.bind_ident(&ident("a", 7), Hoist::Block);
    assert_eq!(ls.lookup(&name("a"), Hoist::Block), Some(7));
    assert_eq!(ls.lookup(&name("a"), Hoist::Function), Some(7));
}

#[test]
fn function_binding_is_not_yet_in_the_block() {
    let mut ls = LexicalScope::new();
    ls.bind_ident(&ident("f", 3), Hoist::Function);
    assert_eq!(ls.lookup(&name("f"), Hoist::Function), Some(3));
    assert_eq!(ls.lookup(&name("f"), Hoist::Block), None);
}

#[test]
fn rebinding_overwrites_the_id() {
    let mut ls = LexicalScope::new();
    ls.bind_ident(&ident("a", 1), Hoist::Block);
    ls.bind_ident(&ident("a", 2), Hoist::Block);
    assert_eq!(ls.lookup(&name("a"), Hoist::Block), Some(2));
}

#[test]
fn function_scope_sees_hoisted_names_of_its_parent() {
    let mut ls = LexicalScope::new();
    ls.bind_ident(&ident("foo", 4), Hoist::Function);
    ls.push(Hoist::Function);
    assert_eq!(ls.lookup(&name("foo"), Hoist::Block), Some(4));
    ls.bind_ident(&ident("j", 5), Hoist::Block);
    let popped = ls.pop();
    let _ = popped;
    assert_eq!(ls.lookup(&name("j"), Hoist::Block), None);
    assert_eq!(ls.lookup(&name("foo"), Hoist::Function), Some(4));
}

#[test]
fn block_scope_inherits_both() {
    let mut ls = LexicalScope::new();
    ls.bind_ident(&ident("i", 1), Hoist::Block);
    ls.bind_ident(&ident("h", 2), Hoist::Function);
    ls.push(Hoist::Block);
    assert_eq!(ls.lookup(&name("i"), Hoist::Block), Some(1));
    assert_eq!(ls.lookup(&name("h"), Hoist::Block), None);
    assert_eq!(ls.lookup(&name("h"), Hoist::Function), Some(2));
}

#[test]
fn get_names_and_update_name() {
    let mut ls = LexicalScope::new();
    ls.update_name(name("x"), 9, Hoist::Function);
    assert_eq!(ls.get_names(Hoist::Function).get("x").copied(), Some(9));
    assert!(ls.get_names(Hoist::Block).get("x").is_none());
    let function_names = ls.get_names(Hoist::Function).clone();
    *ls.get_names_mut(Hoist::Block) = function_names;
    assert_eq!(ls.lookup(&name("x"), Hoist::Block), Some(9));
}

#[test]
fn unique_id_is_the_syntax_context() {
    let mut ls = LexicalScope::new();
    assert_eq!(ls.get_unique_id(&ident("q", 42)), 42);
}

#[test]
fn patterns_bind_every_name() {
    let mut ls = LexicalScope::new();
    // [p, , {q, r: s}, t = 1]
    let obj = inner(
        JsKind::ObjectPat,
        vec![
            inner(JsKind::ObjAssignProp, vec![ident("q", 1), absent_node()]),
            inner(JsKind::ObjKeyValueProp, vec![ident("r", 0), binding("s", 1)]),
        ],
    );
    let assign = inner(JsKind::AssignPat, vec![binding("t", 1), ident("one", 0)]);
    let pat = inner(JsKind::ArrayPat, vec![binding("p", 1), absent_node(), obj, assign]);
    ls.bind_pat(&pat, Hoist::Block);
    for n in ["p", "q", "s", "t"] {
        assert_eq!(ls.lookup(&name(n), Hoist::Block), Some(1), "{n}");
    }
    assert_eq!(ls.lookup(&name("r"), Hoist::Block), None);
    assert_eq!(ls.lookup(&name("one"), Hoist::Block), None);
}

#[test]
fn var_without_init_is_hoisted_to_the_function() {
    let mut ls = LexicalScope::new();
    let decl = var_decl(
        VarDeclKind::Var,
        vec![inner(JsKind::VarDeclarator, vec![binding("v", 1), absent_node()]), inner(JsKind::VarDeclarator, vec![binding("w", 2), ident("init", 0)])],
    );
    ls.bind_var_decl(&decl);
    assert_eq!(ls.lookup(&name("v"), Hoist::Block), None);
    assert_eq!(ls.lookup(&name("v"), Hoist::Function), Some(1));
    assert_eq!(ls.lookup(&name("w"), Hoist::Block), Some(2));
}

#[test]
fn let_without_init_comes_into_the_block() {
    let mut ls = LexicalScope::new();
    let decl = var_decl(VarDeclKind::Let, vec![inner(JsKind::VarDeclarator, vec![binding("l", 3), absent_node()])]);
    ls.bind_var_decl(&decl);
    assert_eq!(ls.lookup(&name("l"), Hoist::Block), Some(3));
}

#[test]
fn params_are_bound_in_the_block() {
    let mut ls = LexicalScope::new();
    ls.bind_function_params(&vec![binding("a", 1), binding("b", 2)]);
    assert_eq!(ls.lookup(&name("a"), Hoist::Block), Some(1));
    assert_eq!(ls.lookup(&name("b"), Hoist::Block), Some(2));
}

#[test]
fn hoisting_finds_functions_and_bare_vars() {
    let mut ls = LexicalScope::new();
    let func = inner(JsKind::Function, vec![inner(JsKind::List, vec![]), inner(JsKind::Block, vec![])]);
    let stmts = vec![
        var_decl(VarDeclKind::Var, vec![inner(JsKind::VarDeclarator, vec![binding("x", 1), absent_node()])]),
        var_decl(VarDeclKind::Var, vec![inner(JsKind::VarDeclarator, vec![binding("y", 1), ident("v", 0)])]),
        var_decl(VarDeclKind::Let, vec![inner(JsKind::VarDeclarator, vec![binding("z", 1), absent_node()])]),
        inner(JsKind::FnDecl, vec![ident("foo", 1), func]),
    ];
    ls.bind_hoisted_functions_and_vars(&stmts);
    assert_eq!(ls.lookup(&name("x"), Hoist::Function), Some(1));
    assert_eq!(ls.lookup(&name("foo"), Hoist::Function), Some(1));
    assert_eq!(ls.lookup(&name("y"), Hoist::Function), None);
    assert_eq!(ls.lookup(&name("z"), Hoist::Function), None);
    assert_eq!(ls.lookup(&name("foo"), Hoist::Block), None);
}

#[test]
fn rest_patterns_bind_nothing() {
    let mut ls = LexicalScope::new();
    // [a, ...r]
    let arr = inner(JsKind::ArrayPat, vec![binding("a", 1), inner(JsKind::RestPat, vec![binding("r", 2)])]);
    ls.bind_pat(&arr, Hoist::Block);
    assert_eq!(ls.lookup(&name("a"), Hoist::Block), Some(1));
    assert_eq!(ls.lookup(&name("r"), Hoist::Block), None);
    assert_eq!(ls.lookup(&name("r"), Hoist::Function), None);
    // {b, ...o}
    let obj = inner(
        JsKind::ObjectPat,
        vec![inner(JsKind::ObjAssignProp, vec![ident("b", 3), absent_node()]), inner(JsKind::ObjRestProp, vec![binding("o", 4)])],
    );
    ls.bind_pat(&obj, Hoist::Function);
    assert_eq!(ls.lookup(&name("b"), Hoist::Function), Some(3));
    assert_eq!(ls.lookup(&name("o"), Hoist::Function), None);
}
