use functionless_closures::js::{absent_node, BinaryOp, JsKind, JsNode, Op, Span, VarDeclKind};
use functionless_closures::js_util::{empty_span, mk_inner, mk_leaf, mk_node, quote_ident};
use functionless_closures::to_functionless_ast::{parse_closure, try_parse_closure, FunctionlessASTParser};

fn at() -> Span {
    Span { lo: 1, hi: 2, ctxt: 0, line: 1, col: 0 }
}

fn leaf(kind: JsKind, text: &str) -> JsNode {
    mk_leaf(kind, at(), text.to_string(), false, 0)
}

fn inner(kind: JsKind, children: Vec<JsNode>) -> JsNode {
    mk_inner(kind, at(), children)
}

fn with_op(kind: JsKind, op: Op, children: Vec<JsNode>) -> JsNode {
    mk_node(kind, at(), op, String::new(), false, false, 0, children)
}

fn import() -> JsNode {
    quote_ident("functionless")
}

/// The kind of a node `functionless.Kind(..)`.
fn kind_of(n: &JsNode) -> &str {
    assert_eq!(n.kind, JsKind::Call);
    let member = &n.children[0];
    assert_eq!(member.kind, JsKind::Member);
    assert_eq!(member.children[0].text, "functionless");
    &member.children[1].text
}

/// The arguments of a node `functionless.Kind(..)`.
fn args_of(n: &JsNode) -> Vec<&JsNode> {
    n.children[1].children.iter().map(|e| &e.children[0]).collect()
}

/// The elements of an array literal.
fn elems_of(n: &JsNode) -> Vec<&JsNode> {
    assert_eq!(n.kind, JsKind::Array);
    n.children.iter().map(|e| &e.children[0]).collect()
}

/// The name an `Identifier(StringLiteralExpr("name"))` node holds.
fn ident_name(n: &JsNode) -> &str {
    assert_eq!(kind_of(n), "Identifier");
    let s = args_of(n)[0];
    assert_eq!(kind_of(s), "StringLiteralExpr");
    &args_of(s)[0].text
}

#[test]
fn arrow_is_described_by_its_parameters() {
    // (a, [b]) => a
    let params = mk_inner(JsKind::List, empty_span(), vec![leaf(JsKind::BindingIdent, "a"), inner(JsKind::ArrayPat, vec![leaf(JsKind::BindingIdent, "b")])]);
    let arrow = inner(JsKind::Arrow, vec![params, leaf(JsKind::Ident, "a")]);
    let r = parse_closure(import(), &arrow);
    assert_eq!(kind_of(&r), "ArrowFunctionExpr");
    let ps = elems_of(args_of(&r)[0]);
    assert_eq!(ps.len(), 2);
    assert_eq!(ident_name(ps[0]), "a");
    assert_eq!(kind_of(ps[1]), "ArrayBinding");
    let b = args_of(ps[1])[0];
    assert_eq!(kind_of(b), "BindingElem");
    assert_eq!(ident_name(args_of(b)[0]), "b");
    assert!(!args_of(b)[1].flag);
}

#[test]
fn binary_expression_names_its_operator() {
    let e = with_op(JsKind::Bin, Op::Bin(BinaryOp::Sub), vec![leaf(JsKind::Ident, "x"), leaf(JsKind::Ident, "y")]);
    let r = parse_closure(import(), &e);
    assert_eq!(kind_of(&r), "BinaryExpr");
    let a = args_of(&r);
    assert_eq!(ident_name(a[0]), "x");
    assert_eq!(a[1].text, "-");
    assert_eq!(ident_name(a[2]), "y");
}

#[test]
fn sequence_folds_into_commas() {
    let e = inner(JsKind::SeqExpr, vec![leaf(JsKind::Ident, "a"), leaf(JsKind::Ident, "b"), leaf(JsKind::Ident, "c")]);
    let r = parse_closure(import(), &e);
    assert_eq!(kind_of(&r), "BinaryExpr");
    let outer = args_of(&r);
    assert_eq!(outer[1].text, ",");
    assert_eq!(ident_name(outer[2]), "c");
    let first = args_of(outer[0]);
    assert_eq!(ident_name(first[0]), "a");
    assert_eq!(ident_name(first[2]), "b");
}

#[test]
fn short_sequence_cannot_be_described() {
    let e = inner(JsKind::SeqExpr, vec![leaf(JsKind::Ident, "a")]);
    assert!(try_parse_closure(import(), &e).is_none());
}

#[test]
fn assignment_property_cannot_be_described() {
    let prop = inner(JsKind::PropAssign, vec![leaf(JsKind::Ident, "a"), leaf(JsKind::Ident, "b")]);
    let obj = inner(JsKind::Object, vec![prop]);
    assert!(try_parse_closure(import(), &obj).is_none());
    let kv = inner(JsKind::PropKeyValue, vec![leaf(JsKind::Ident, "a"), leaf(JsKind::Ident, "b")]);
    let r = try_parse_closure(import(), &inner(JsKind::Object, vec![kv])).unwrap();
    assert_eq!(kind_of(&r), "ObjectLiteralExpr");
    assert_eq!(kind_of(args_of(&r)[0]), "PropAssignExpr");
}

#[test]
fn template_interleaves_pieces_and_expressions() {
    // `a${x}b`
    let exprs = mk_inner(JsKind::List, empty_span(), vec![leaf(JsKind::Ident, "x")]);
    let quasis = mk_inner(JsKind::List, empty_span(), vec![leaf(JsKind::TplElement, "a"), leaf(JsKind::TplElement, "b")]);
    let tpl = inner(JsKind::Tpl, vec![exprs, quasis]);
    let r = parse_closure(import(), &tpl);
    assert_eq!(kind_of(&r), "TemplateExpr");
    let parts = elems_of(args_of(&r)[0]);
    assert_eq!(parts.len(), 3);
    assert_eq!(kind_of(parts[0]), "StringLiteralExpr");
    assert_eq!(args_of(parts[0])[0].text, "a");
    assert_eq!(ident_name(parts[1]), "x");
    assert_eq!(args_of(parts[2])[0].text, "b");
}

#[test]
fn call_arguments_are_only_counted() {
    let args = mk_inner(JsKind::List, empty_span(), vec![inner(JsKind::ExprOrSpread, vec![leaf(JsKind::Ident, "p")]), inner(JsKind::ExprOrSpread, vec![leaf(JsKind::Ident, "q")])]);
    let call = inner(JsKind::Call, vec![leaf(JsKind::Ident, "f"), args]);
    let r = parse_closure(import(), &call);
    assert_eq!(kind_of(&r), "CallExpr");
    let a = args_of(&r);
    assert_eq!(ident_name(a[0]), "f");
    let listed = elems_of(a[1]);
    assert_eq!(listed.len(), 2);
    assert_eq!(kind_of(listed[0]), "Argument");
    assert!(args_of(listed[0]).is_empty());
}

#[test]
fn var_declaration_lists_identifier_names() {
    let d1 = inner(JsKind::VarDeclarator, vec![leaf(JsKind::BindingIdent, "u"), absent_node()]);
    let d2 = inner(JsKind::VarDeclarator, vec![inner(JsKind::ArrayPat, vec![]), leaf(JsKind::Ident, "v")]);
    let var = mk_node(JsKind::VarDecl, at(), Op::Var(VarDeclKind::Let), String::new(), false, false, 0, vec![d1, d2]);
    let parser = FunctionlessASTParser::new(import());
    let r = parser.parse_decl(&var);
    assert_eq!(kind_of(&r), "VariableStmt");
    let list = args_of(&r)[0];
    assert_eq!(kind_of(list), "VariableDeclList");
    let names = args_of(list);
    assert_eq!(names.len(), 1);
    assert_eq!(ident_name(names[0]), "u");
}

#[test]
fn typescript_declaration_cannot_be_described() {
    let parser = FunctionlessASTParser::new(import());
    let opaque = mk_leaf(JsKind::OpaqueDecl, empty_span(), String::new(), false, 1);
    assert!(parser.try_decl(&opaque).is_none());
    assert!(parser.try_stmt(&inner(JsKind::Block, vec![opaque])).is_none());
}

#[test]
fn do_while_is_described_as_while() {
    let body = inner(JsKind::Block, vec![]);
    let stmt = inner(JsKind::DoWhile, vec![leaf(JsKind::Ident, "c"), body]);
    let parser = FunctionlessASTParser::new(import());
    let r = parser.parse_stmt(&stmt);
    assert_eq!(kind_of(&r), "WhileStmt");
    assert_eq!(kind_of(args_of(&r)[1]), "BlockStmt");
}

#[test]
fn class_members_leave_holes() {
    let empty = mk_leaf(JsKind::EmptyMember, at(), String::new(), false, 0);
    let prop = mk_node(JsKind::ClassProp, at(), Op::NoOp, String::new(), true, false, 0, vec![leaf(JsKind::Ident, "k"), absent_node()]);
    let members = mk_inner(JsKind::List, empty_span(), vec![empty, prop]);
    let class = inner(JsKind::Class, vec![members, absent_node()]);
    let expr = inner(JsKind::ClassExpr, vec![absent_node(), class]);
    let r = parse_closure(import(), &expr);
    assert_eq!(kind_of(&r), "ClassExpr");
    let a = args_of(&r);
    assert_eq!(a[0].text, "undefined");
    assert_eq!(a[1].text, "undefined");
    let m = a[2];
    assert_eq!(m.children.len(), 2);
    assert_eq!(m.children[0].kind, JsKind::Absent);
    let decl = &m.children[1].children[0];
    assert_eq!(kind_of(decl), "PropDecl");
    assert!(args_of(decl)[1].flag);
}

#[test]
fn method_without_body_cannot_be_described() {
    let params = mk_inner(JsKind::List, empty_span(), vec![]);
    let function = inner(JsKind::Function, vec![params, absent_node()]);
    let method = inner(JsKind::ClassMethod, vec![leaf(JsKind::Ident, "m"), function]);
    let members = mk_inner(JsKind::List, empty_span(), vec![method]);
    let class = inner(JsKind::Class, vec![members, absent_node()]);
    let expr = inner(JsKind::ClassExpr, vec![absent_node(), class]);
    assert!(try_parse_closure(import(), &expr).is_none());
}

#[test]
fn wrap_closure_call_lists_free_variables() {
    let closure = leaf(JsKind::Ident, "f");
    let call = functionless_closures::wrap_closure::wrap_closure_call(closure, &vec!["a".to_string(), "b".to_string()]);
    assert_eq!(call.kind, JsKind::Call);
    let callee = &call.children[0];
    assert_eq!(callee.children[0].text, "global");
    assert_eq!(callee.children[1].text, "wrapClosure");
    let args = &call.children[1].children;
    assert_eq!(args[0].children[0].text, "f");
    let metadata = &args[1].children[0].children[1];
    assert_eq!(metadata.kind, JsKind::Object);
    assert_eq!(metadata.children[0].kind, JsKind::PropShorthand);
    assert_eq!(metadata.children[0].children[0].text, "__filename");
    let free = &metadata.children[1];
    assert_eq!(free.children[0].text, "free");
    let names: Vec<&str> = free.children[1]
        .children
        .iter()
        .map(|e| e.children[0].children[0].children[1].text.as_str())
        .collect();
    assert_eq!(names, vec!["a", "b"]);
    let w = functionless_closures::wrap_closure::WrapClosure::new();
    assert_eq!(w.stack.lookup(&"a".to_string(), functionless_closures::lexical_scope::Hoist::Block), None);
}
