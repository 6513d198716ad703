use functionless_closures::ast::{node_kind_id, node_kind_name, Node};
use functionless_closures::closure_decorator::ClosureDecorator;
use functionless_closures::decorate::{is_directive_node, prepend_stmts};
use functionless_closures::js::{absent_node, clone_node, JsKind, JsNode, Op, Span, VarDeclKind};
use functionless_closures::js_util::{
    array_expr, empty_span, mk_inner, mk_leaf, mk_node, number_i32, number_u32, quote_ident, ref_expr, string_expr,
};
use functionless_closures::parse::{new_error_node, new_node, reversed};
use functionless_closures::prepend::prepend;
use functionless_closures::span::{concat_span, get_lit_span, get_prop_name_span};
use functionless_closures::validate::{is_decoratable, is_supported, is_well_formed};
use functionless_closures::virtual_machine::VirtualMachine;

fn span_at(lo: u32, hi: u32, ctxt: u32, line: u32, col: u32) -> Span {
    Span { lo, hi, ctxt, line, col }
}

fn ident(name: &str, ctxt: u32) -> JsNode {
    mk_leaf(JsKind::Ident, span_at(1, 2, ctxt, 1, 0), name.to_string(), false, 0)
}

fn binding(name: &str, ctxt: u32) -> JsNode {
    mk_leaf(JsKind::BindingIdent, span_at(1, 2, ctxt, 1, 0), name.to_string(), false, 0)
}

fn list(children: Vec<JsNode>) -> JsNode {
    mk_inner(JsKind::List, empty_span(), children)
}

fn inner(kind: JsKind, children: Vec<JsNode>) -> JsNode {
    mk_inner(kind, span_at(1, 2, 0, 1, 0), children)
}

/// The integer held by an array element `[Int]`.
fn elem_int(elem: &JsNode) -> i64 {
    assert_eq!(elem.kind, JsKind::ExprOrSpread);
    assert_eq!(elem.children[0].kind, JsKind::Int);
    elem.children[0].num
}

/// Whether `n` holds, at any depth, a Functionless node of the kind `id`.
fn holds_node(n: &JsNode, id: i64) -> bool {
    if n.kind == JsKind::Array && !n.children.is_empty() {
        let first = &n.children[0];
        if first.kind == JsKind::ExprOrSpread && first.children[0].kind == JsKind::Int && first.children[0].num == id {
            return true;
        }
    }
    n.children.iter().any(|c| holds_node(c, id))
}

/// Whether two nodes have the same kind, text, number and children.
fn same_tree(a: &JsNode, b: &JsNode) -> bool {
    a.kind == b.kind
        && a.text == b.text
        && a.num == b.num
        && a.flag == b.flag
        && a.children.len() == b.children.len()
        && a.children.iter().zip(b.children.iter()).all(|(x, y)| same_tree(x, y))
}

fn decorator() -> ClosureDecorator {
    ClosureDecorator::new(quote_ident("_global"), quote_ident("_stash"), quote_ident("_util"))
}

#[test]
fn prepend_puts_the_element_first() {
    let mut v = vec![1, 2, 3];
    prepend(&mut v, 0);
    assert_eq!(v, vec![0, 1, 2, 3]);
    let mut e: Vec<u8> = vec![];
    prepend(&mut e, 7);
    assert_eq!(e, vec![7]);
}

#[test]
fn node_kind_numbers() {
    assert_eq!(node_kind_id(Node::Error), 0);
    assert_eq!(node_kind_id(Node::Argument), 1);
    assert_eq!(node_kind_name(Node::Error), "Err");
    assert_eq!(node_kind_name(Node::Identifier), "Identifier");
}

#[test]
fn new_node_lays_out_kind_position_and_arguments() {
    let n = new_node(Node::Identifier, &span_at(10, 11, 0, 3, 7), vec![string_expr("x")]);
    assert_eq!(n.kind, JsKind::Array);
    assert_eq!(n.children.len(), 3);
    assert_eq!(elem_int(&n.children[0]), node_kind_id(Node::Identifier) as i64);
    let pos = &n.children[1].children[0];
    assert_eq!(pos.kind, JsKind::Array);
    assert_eq!(elem_int(&pos.children[0]), 3);
    assert_eq!(elem_int(&pos.children[1]), 7);
    let arg = &n.children[2].children[0];
    assert_eq!(arg.kind, JsKind::Str);
    assert_eq!(arg.text, "x");
}

#[test]
fn new_node_without_a_place_is_at_line_one() {
    let n = new_node(Node::NullLiteralExpr, &span_at(0, 0, 0, 9, 9), vec![]);
    assert_eq!(n.children.len(), 2);
    let pos = &n.children[1].children[0];
    assert_eq!(elem_int(&pos.children[0]), 1);
    assert_eq!(elem_int(&pos.children[1]), 0);
}

#[test]
fn error_node_holds_its_message() {
    let n = new_error_node("bad", &empty_span());
    assert_eq!(elem_int(&n.children[0]), node_kind_id(Node::Error) as i64);
    assert_eq!(n.children[2].children[0].text, "bad");
}

#[test]
fn numbers_and_arrays() {
    assert_eq!(number_u32(4_000_000_000).num, 4_000_000_000);
    assert_eq!(number_i32(-1).num, -1);
    let a = array_expr(vec![number_u32(1), number_u32(2)]);
    assert_eq!(a.children.len(), 2);
    assert_eq!(elem_int(&a.children[0]), 1);
    assert_eq!(elem_int(&a.children[1]), 2);
}

#[test]
fn reference_node_points_at_the_expression() {
    let r = ref_expr(ident("x", 0));
    assert_eq!(elem_int(&r.children[0]), node_kind_id(Node::ReferenceExpr) as i64);
    assert_eq!(r.children[2].children[0].text, "");
    let pointer = &r.children[3].children[0];
    assert_eq!(pointer.kind, JsKind::Arrow);
    assert_eq!(pointer.children[1].text, "x");
    assert_eq!(elem_int(&r.children[4]), -1);
}

#[test]
fn concat_span_covers_both() {
    let s = concat_span(&span_at(3, 5, 1, 1, 3), &span_at(8, 12, 2, 1, 8));
    assert_eq!(s.lo, 3);
    assert_eq!(s.hi, 12);
}

#[test]
fn reversed_reverses() {
    let r = reversed(vec![number_u32(1), number_u32(2), number_u32(3)]);
    let nums: Vec<i64> = r.iter().map(|n| n.num).collect();
    assert_eq!(nums, vec![3, 2, 1]);
}

#[test]
fn vm_bind_then_lookup() {
    let mut vm = VirtualMachine::new();
    assert!(!vm.lookup_id(("x".to_string(), 1)));
    vm.bind_id(("x".to_string(), 1));
    assert!(vm.lookup_id(("x".to_string(), 1)));
    assert!(!vm.lookup_id(("x".to_string(), 2)));
    assert!(vm.is_id_visible(&ident("x", 1)));
}

#[test]
fn vm_enter_bind_exit_restores() {
    let mut vm = VirtualMachine::new();
    vm.bind_id(("a".to_string(), 0));
    vm.enter();
    assert!(vm.lookup_id(("a".to_string(), 0)));
    vm.bind_id(("b".to_string(), 0));
    assert!(vm.lookup_id(("b".to_string(), 0)));
    let _ = vm.exit();
    assert!(!vm.lookup_id(("b".to_string(), 0)));
    assert!(vm.lookup_id(("a".to_string(), 0)));
    assert_eq!(vm.stack.len(), 1);
}

#[test]
fn vm_binds_patterns_of_a_var_decl() {
    let mut vm = VirtualMachine::new();
    // let [p, { q }] = v;
    let obj = inner(JsKind::ObjectPat, vec![inner(JsKind::ObjAssignProp, vec![ident("q", 0), absent_node()])]);
    let pat = inner(JsKind::ArrayPat, vec![binding("p", 0), obj]);
    let decl = inner(JsKind::VarDeclarator, vec![pat, ident("v", 0)]);
    let var = mk_node(JsKind::VarDecl, empty_span(), Op::Var(VarDeclKind::Let), String::new(), false, false, 0, vec![decl]);
    vm.bind_var_decl(&var);
    assert!(vm.lookup_id(("p".to_string(), 0)));
    assert!(vm.lookup_id(("q".to_string(), 0)));
    assert!(!vm.lookup_id(("v".to_string(), 0)));
}

fn directive(text: &str) -> JsNode {
    inner(JsKind::ExprStmt, vec![mk_leaf(JsKind::Str, empty_span(), text.to_string(), false, 0)])
}

#[test]
fn prepend_stmts_keeps_directives_first() {
    let mut stmts = vec![directive("use strict"), inner(JsKind::Empty, vec![])];
    prepend_stmts(&mut stmts, vec![inner(JsKind::Debugger, vec![])]);
    let kinds: Vec<JsKind> = stmts.iter().map(|s| s.kind).collect();
    assert_eq!(kinds, vec![JsKind::ExprStmt, JsKind::Debugger, JsKind::Empty]);
    assert!(is_directive_node(&stmts[0]));
    assert!(!is_directive_node(&stmts[1]));
}

#[test]
fn prepend_stmts_without_directives_goes_first() {
    let mut stmts = vec![inner(JsKind::Empty, vec![])];
    prepend_stmts(&mut stmts, vec![inner(JsKind::Debugger, vec![]), inner(JsKind::Debugger, vec![])]);
    let kinds: Vec<JsKind> = stmts.iter().map(|s| s.kind).collect();
    assert_eq!(kinds, vec![JsKind::Debugger, JsKind::Debugger, JsKind::Empty]);
}

#[test]
fn next_id_counts_and_wraps() {
    let mut d = decorator();
    assert_eq!(d.next_id(), 1);
    assert_eq!(d.next_id(), 2);
    d.ids = u32::MAX;
    assert_eq!(d.next_id(), 0);
    assert_eq!(d.ids, 0);
}

/// `const f = (a) => a + x;`
fn arrow_module() -> Vec<JsNode> {
    let body = mk_node(
        JsKind::Bin,
        span_at(20, 25, 0, 1, 20),
        Op::Bin(functionless_closures::js::BinaryOp::Add),
        String::new(),
        false,
        false,
        0,
        vec![ident("a", 2), ident("x", 1)],
    );
    let arrow = mk_inner(JsKind::Arrow, span_at(10, 25, 0, 1, 10), vec![list(vec![binding("a", 2)]), body]);
    let decl = inner(JsKind::VarDeclarator, vec![binding("f", 1), arrow]);
    vec![mk_node(JsKind::VarDecl, empty_span(), Op::Var(VarDeclKind::Const), String::new(), false, false, 0, vec![decl])]
}

#[test]
fn module_gets_header_and_registered_arrow() {
    let mut d = decorator();
    let mut items = arrow_module();
    d.visit_mut_module_items(&mut items);
    assert_eq!(items.len(), 4);
    // let _stash;
    assert_eq!(items[0].kind, JsKind::VarDecl);
    assert_eq!(items[0].op, Op::Var(VarDeclKind::Let));
    assert_eq!(items[0].children[0].children[0].text, "_stash");
    assert_eq!(items[0].children[0].children[1].kind, JsKind::Absent);
    // const _global = ...; const _util = require("util");
    assert_eq!(items[1].op, Op::Var(VarDeclKind::Const));
    assert_eq!(items[1].children[0].children[0].text, "_global");
    assert_eq!(items[2].children[0].children[0].text, "_util");
    let require = &items[2].children[0].children[1];
    assert_eq!(require.kind, JsKind::Call);
    assert_eq!(require.children[0].text, "require");
    // the arrow is registered: (_stash = "REGISTER", _stash = f, _stash[..] = ast, _stash)
    let init = &items[3].children[0].children[1];
    assert_eq!(init.kind, JsKind::SeqExpr);
    assert_eq!(init.children.len(), 4);
    assert_eq!(init.children[0].children[1].text, "REGISTER");
    assert_eq!(init.children[1].children[1].kind, JsKind::Arrow);
    assert_eq!(init.children[3].text, "_stash");
    let ast = &init.children[2].children[1];
    assert_eq!(elem_int(&ast.children[0]), node_kind_id(Node::ArrowFunctionExpr) as i64);
    // `x` is free in the arrow: it is a reference; `a` is its parameter.
    assert!(holds_node(ast, node_kind_id(Node::ReferenceExpr) as i64));
    assert!(holds_node(ast, node_kind_id(Node::ParameterDecl) as i64));
    assert_eq!(d.ids, 1);
    assert_eq!(d.vm.stack.len(), 1);
}

#[test]
fn bound_name_is_no_reference() {
    let mut d = decorator();
    let mut items = arrow_module();
    d.vm.bind_id(("x".to_string(), 1));
    d.visit_mut_module_items(&mut items);
    let init = &items[3].children[0].children[1];
    let ast = &init.children[2].children[1];
    assert!(!holds_node(ast, node_kind_id(Node::ReferenceExpr) as i64));
    assert_eq!(d.ids, 0);
}

#[test]
fn module_header_goes_after_directives() {
    let mut d = decorator();
    let mut items = vec![directive("use strict")];
    items.extend(arrow_module());
    d.visit_mut_module_items(&mut items);
    assert_eq!(items.len(), 5);
    assert!(is_directive_node(&items[0]));
    assert_eq!(items[1].children[0].children[0].text, "_stash");
}

#[test]
fn well_formed_counts_children() {
    let ok = inner(JsKind::ExprStmt, vec![ident("a", 0)]);
    assert!(is_well_formed(&ok));
    let bad = inner(JsKind::ExprStmt, vec![ident("a", 0), ident("b", 0)]);
    assert!(!is_well_formed(&bad));
    let deep = inner(JsKind::Block, vec![ok, bad]);
    assert!(!is_well_formed(&deep));
}

#[test]
fn parser_refuses_typescript_declarations_in_closures() {
    let opaque = mk_leaf(JsKind::OpaqueDecl, empty_span(), String::new(), false, 3);
    assert!(!is_supported(&opaque));
    let body = inner(JsKind::Block, vec![opaque]);
    let arrow = mk_inner(JsKind::Arrow, span_at(1, 9, 0, 1, 1), vec![list(vec![]), body]);
    assert!(!is_supported(&arrow));
    assert!(!is_decoratable(&arrow));
    let fine = mk_inner(JsKind::Arrow, span_at(1, 9, 0, 1, 1), vec![list(vec![]), ident("y", 0)]);
    assert!(is_supported(&fine));
    assert!(is_decoratable(&fine));
}

#[test]
fn decorate_module_refuses_and_leaves_input() {
    let opaque = mk_leaf(JsKind::OpaqueDecl, empty_span(), String::new(), false, 3);
    let arrow = mk_inner(JsKind::Arrow, span_at(1, 9, 0, 1, 1), vec![list(vec![]), inner(JsKind::Block, vec![opaque])]);
    let mut items = vec![inner(JsKind::ExprStmt, vec![arrow])];
    let mut d = decorator();
    assert!(!d.decorate_module(&mut items));
    assert_eq!(items.len(), 1);
    assert_eq!(items[0].children[0].kind, JsKind::Arrow);
    assert_eq!(d.ids, 0);
}

#[test]
fn decorate_module_accepts_a_plain_module() {
    let mut items = arrow_module();
    let mut d = decorator();
    assert!(d.decorate_module(&mut items));
    assert_eq!(items.len(), 4);
    assert_eq!(d.ids, 1);
}

#[test]
fn decorate_script_registers_function_declarations() {
    // function g() { return z; }
    let body = inner(JsKind::Block, vec![inner(JsKind::Return, vec![ident("z", 0)])]);
    let func = mk_inner(JsKind::Function, span_at(1, 30, 0, 1, 0), vec![list(vec![]), body]);
    let decl = inner(JsKind::FnDecl, vec![ident("g", 1), func]);
    let mut stmts = vec![directive("use strict"), decl];
    let mut d = decorator();
    assert!(d.decorate_script(&mut stmts));
    assert_eq!(stmts.len(), 3);
    assert!(is_directive_node(&stmts[0]));
    // the registration of `g` comes right after the directive
    assert_eq!(stmts[1].kind, JsKind::ExprStmt);
    assert_eq!(stmts[1].children[0].kind, JsKind::SeqExpr);
    assert_eq!(stmts[1].children[0].children[0].children[1].text, "REGISTER_REF");
    assert_eq!(stmts[2].kind, JsKind::FnDecl);
    assert_eq!(d.ids, 1);
}

#[test]
fn literal_and_key_spans() {
    let lit = mk_leaf(JsKind::Str, span_at(4, 9, 0, 2, 3), "s".to_string(), false, 0);
    assert_eq!(get_lit_span(&lit).lo, 4);
    assert_eq!(get_prop_name_span(&ident("k", 0)).hi, 2);
}

#[test]
fn module_items_bind_imports_and_declarations() {
    let import = inner(JsKind::ImportDecl, vec![inner(JsKind::ImportDefault, vec![ident("dflt", 3)])]);
    let func = mk_inner(JsKind::Function, span_at(1, 30, 0, 1, 0), vec![list(vec![]), inner(JsKind::Block, vec![])]);
    let decl = inner(JsKind::FnDecl, vec![ident("g", 4), func]);
    let mut vm = VirtualMachine::new();
    vm.bind_module_items(&vec![import, decl]);
    assert!(vm.lookup_id(("dflt".to_string(), 3)));
    assert!(vm.lookup_id(("g".to_string(), 4)));
}

#[test]
fn expression_arrow_is_registered_in_place() {
    let mut d = decorator();
    let mut e = mk_inner(JsKind::Arrow, span_at(1, 9, 0, 1, 1), vec![list(vec![]), ident("y", 0)]);
    d.visit_mut_expr(&mut e);
    assert_eq!(e.kind, JsKind::SeqExpr);
    assert_eq!(e.children[1].children[1].kind, JsKind::Arrow);
    assert_eq!(d.ids, 1);
}

#[test]
fn class_gets_a_static_block_of_registrations() {
    // class C { m() {} }
    let func = mk_inner(JsKind::Function, span_at(11, 16, 0, 1, 11), vec![list(vec![]), inner(JsKind::Block, vec![])]);
    let method = mk_node(
        JsKind::ClassMethod,
        span_at(10, 16, 0, 1, 10),
        Op::Method(functionless_closures::js::MethodKind::Method),
        String::new(),
        false,
        false,
        0,
        vec![ident("m", 0), func],
    );
    let class = inner(JsKind::Class, vec![list(vec![method]), absent_node()]);
    let mut decl = inner(JsKind::ClassDecl, vec![ident("C", 1), class]);
    let mut d = decorator();
    d.visit_mut_class_decl(&mut decl);
    let members = &decl.children[1].children[0].children;
    assert_eq!(members.len(), 2);
    assert_eq!(members[0].kind, JsKind::StaticBlock);
    // one registration for the method, one for the class
    assert_eq!(members[0].children[0].children.len(), 2);
    assert_eq!(members[1].kind, JsKind::ClassMethod);
    assert_eq!(d.vm.stack.len(), 1);
}

#[test]
fn object_method_becomes_a_registered_function() {
    let func = mk_inner(JsKind::Function, span_at(3, 9, 0, 1, 3), vec![list(vec![]), inner(JsKind::Block, vec![])]);
    let mut prop = inner(JsKind::PropMethod, vec![ident("m", 0), func]);
    let mut d = decorator();
    d.visit_mut_prop(&mut prop);
    assert_eq!(prop.kind, JsKind::PropKeyValue);
    assert_eq!(prop.children[0].text, "m");
    let value = &prop.children[1];
    assert_eq!(value.kind, JsKind::SeqExpr);
    assert_eq!(value.children[1].children[1].kind, JsKind::FnExpr);
}

#[test]
fn module_without_closures_only_gets_the_header() {
    // let x = a + 1;
    let sum = mk_node(
        JsKind::Bin,
        span_at(8, 13, 0, 1, 8),
        Op::Bin(functionless_closures::js::BinaryOp::Add),
        String::new(),
        false,
        false,
        0,
        vec![ident("a", 0), mk_leaf(JsKind::Int, empty_span(), String::new(), false, 1)],
    );
    let decl = inner(JsKind::VarDeclarator, vec![binding("x", 0), sum]);
    let var = mk_node(JsKind::VarDecl, empty_span(), Op::Var(VarDeclKind::Let), String::new(), false, false, 0, vec![decl]);
    let mut items = vec![directive("use strict"), var];
    let mut d = decorator();
    assert!(d.decorate_module(&mut items));
    assert_eq!(items.len(), 5);
    assert!(is_directive_node(&items[0]));
    let kept = &items[4];
    assert_eq!(kept.kind, JsKind::VarDecl);
    assert_eq!(kept.children[0].children[1].kind, JsKind::Bin);
    assert_eq!(kept.children[0].children[1].children[0].text, "a");
    assert_eq!(d.ids, 0);
}

#[test]
fn vm_clone_is_independent() {
    let mut vm = VirtualMachine::new();
    vm.bind_id(("a".to_string(), 0));
    let mut copy = vm.clone();
    copy.bind_id(("b".to_string(), 0));
    assert!(copy.lookup_id(("a".to_string(), 0)));
    assert!(copy.lookup_id(("b".to_string(), 0)));
    assert!(!vm.lookup_id(("b".to_string(), 0)));
}

#[test]
fn empty_return_returns_undefined() {
    let mut d = decorator();
    let stmt = inner(JsKind::Return, vec![absent_node()]);
    let r = d.parse_stmt(&stmt);
    assert_eq!(elem_int(&r.children[0]), node_kind_id(Node::ReturnStmt) as i64);
    assert_eq!(r.children.len(), 3);
    let arg = &r.children[2].children[0];
    assert_eq!(elem_int(&arg.children[0]), node_kind_id(Node::UndefinedLiteralExpr) as i64);
    assert_eq!(arg.children.len(), 2);
}

#[test]
fn labelled_statement_keeps_only_its_body() {
    let mut d = decorator();
    let stmt = inner(JsKind::Labeled, vec![ident("outer", 0), inner(JsKind::Block, vec![])]);
    let r = d.parse_stmt(&stmt);
    assert_eq!(elem_int(&r.children[0]), node_kind_id(Node::LabelledStmt) as i64);
    assert_eq!(r.children.len(), 3);
    let body = &r.children[2].children[0];
    assert_eq!(elem_int(&body.children[0]), node_kind_id(Node::BlockStmt) as i64);
}

#[test]
fn bind_keeps_receiver_as_self_and_yields_the_stash() {
    let d = decorator();
    let r = d.wrap_bind(ident("f", 0), ident("obj", 0), vec![ident("a", 0)]);
    assert_eq!(r.kind, JsKind::SeqExpr);
    assert_eq!(r.children.len(), 5);
    assert_eq!(r.children[0].children[1].text, "BIND");
    let record = &r.children[1].children[1];
    assert_eq!(record.kind, JsKind::Object);
    assert_eq!(record.children[0].children[0].text, "args");
    assert_eq!(record.children[1].children[0].text, "self");
    assert_eq!(record.children[1].children[1].text, "obj");
    assert_eq!(record.children[2].children[0].text, "func");
    // f: stash.func.bind(stash.self, ...stash.args)
    let bound = &r.children[2].children[1].children[0].children[1];
    assert_eq!(bound.kind, JsKind::Call);
    assert_eq!(bound.children[1].children[0].children[0].children[1].text, "self");
    assert_eq!(r.children[4].kind, JsKind::Ident);
    assert_eq!(r.children[4].text, "_stash");
}

#[test]
fn proxy_is_recorded_when_util_says_it_is_one() {
    let d = decorator();
    let r = d.wrap_proxy(ident("Proxy", 0), vec![ident("t", 0), ident("h", 0)]);
    assert_eq!(r.kind, JsKind::SeqExpr);
    assert_eq!(r.children.len(), 5);
    assert_eq!(r.children[0].children[1].text, "PROXY");
    let guard = &r.children[3];
    assert_eq!(guard.kind, JsKind::Bin);
    // global.util.types.isProxy(stash.proxy)
    let is_proxy = &guard.children[0];
    assert_eq!(is_proxy.kind, JsKind::Call);
    assert_eq!(is_proxy.children[0].children[1].text, "isProxy");
    assert_eq!(is_proxy.children[0].children[0].children[1].text, "types");
    // (global.proxies = global.proxies ?? new global.WeakMap).set(..)
    let set = &guard.children[1];
    assert_eq!(set.children[0].children[1].text, "set");
    let table = &set.children[0].children[0];
    assert_eq!(table.kind, JsKind::Assign);
    assert_eq!(table.children[0].children[1].text, "proxies");
    assert_eq!(table.children[1].children[1].kind, JsKind::New);
    assert_eq!(table.children[1].children[1].children[0].children[1].text, "WeakMap");
    // the value is the proxy itself
    assert_eq!(r.children[4].kind, JsKind::Member);
    assert_eq!(r.children[4].children[1].text, "proxy");
}

#[test]
fn global_this_comes_from_return_this() {
    let d = decorator();
    let decl = d.create_global_this();
    assert_eq!(decl.op, Op::Var(VarDeclKind::Const));
    assert_eq!(decl.children[0].children[0].text, "_global");
    let call = &decl.children[0].children[1];
    let ctor = &call.children[0];
    assert_eq!(ctor.children[0].children[1].text, "constructor");
    assert_eq!(ctor.children[1].children[0].children[0].text, "return this");
}

#[test]
fn registration_stores_the_ast_itself() {
    let d = decorator();
    let ast = array_expr(vec![number_i32(7)]);
    let r = d.register_ref_ast_seq(ident("f", 0), clone_node(&ast));
    assert_eq!(r.children.len(), 2);
    assert_eq!(r.children[0].children[1].text, "REGISTER_REF");
    assert_eq!(r.children[1].children[0].children[0].text, "f");
    assert!(same_tree(&r.children[1].children[1], &ast));
    let s = d.register_ast_seq(ident("g", 0), clone_node(&ast));
    assert_eq!(s.children.len(), 4);
    assert!(same_tree(&s.children[2].children[1], &ast));
}

#[test]
fn removing_the_front_undoes_prepend() {
    let before = vec![4, 5, 6];
    let mut v = before.clone();
    prepend(&mut v, 9);
    let front = v.remove(0);
    assert_eq!(front, 9);
    assert_eq!(v, before);
}

#[test]
fn arrow_inside_jsx_is_registered() {
    let mut d = decorator();
    let arrow = mk_inner(JsKind::Arrow, span_at(5, 12, 0, 1, 5), vec![list(vec![]), ident("y", 0)]);
    let mut e = inner(JsKind::JsxElement, vec![arrow]);
    d.visit_mut_expr(&mut e);
    assert_eq!(e.kind, JsKind::JsxElement);
    assert_eq!(e.children.len(), 1);
    assert_eq!(e.children[0].kind, JsKind::SeqExpr);
    assert_eq!(e.children[0].children[0].children[1].text, "REGISTER");
    // `y` is free in the arrow: its reference takes an id
    assert_eq!(d.ids, 1);
}

#[test]
fn namespace_body_is_walked_as_a_module() {
    let mut d = decorator();
    let block = inner(JsKind::TsModuleBlock, arrow_module());
    let ns = mk_inner(JsKind::OpaqueDecl, empty_span(), vec![block]);
    let mut items = vec![ns];
    d.visit_mut_module_items(&mut items);
    // the module gets its header, and so does the namespace's body
    assert_eq!(items.len(), 4);
    assert_eq!(items[0].children[0].children[0].text, "_stash");
    let body = &items[3].children[0].children;
    assert_eq!(body.len(), 4);
    assert_eq!(body[0].children[0].children[0].text, "_stash");
    assert_eq!(body[1].children[0].children[0].text, "_global");
    assert_eq!(body[2].children[0].children[0].text, "_util");
    let init = &body[3].children[0].children[1];
    assert_eq!(init.kind, JsKind::SeqExpr);
    assert_eq!(init.children[0].children[1].text, "REGISTER");
}
