use functionless_closures::ast::Node;
use functionless_closures::class_like::ClassLike;
use functionless_closures::js::{absent_node, JsKind, JsNode, MethodKind, Op, Span};
use functionless_closures::js_util::{empty_span, mk_inner, mk_leaf, mk_node};
use functionless_closures::method_like::MethodLike;

fn at(lo: u32) -> Span {
    Span { lo, hi: lo + 1, ctxt: 0, line: 1, col: lo }
}

fn class(members: Vec<JsNode>) -> JsNode {
    mk_inner(JsKind::Class, empty_span(), vec![mk_inner(JsKind::List, empty_span(), members), absent_node()])
}

fn function() -> JsNode {
    mk_inner(JsKind::Function, empty_span(), vec![mk_inner(JsKind::List, empty_span(), vec![]), mk_inner(JsKind::Block, empty_span(), vec![])])
}

#[test]
fn class_declaration_has_its_name() {
    let decl = mk_inner(JsKind::ClassDecl, at(0), vec![mk_leaf(JsKind::Ident, at(6), "Foo".to_string(), false, 0), class(vec![])]);
    assert_eq!(ClassLike::kind(&decl), Node::ClassDecl);
    assert_eq!(decl.name().unwrap().text, "Foo");
    assert_eq!(decl.class().kind, JsKind::Class);
}

#[test]
fn anonymous_class_expression_has_no_name() {
    let mut expr = mk_inner(JsKind::ClassExpr, at(0), vec![absent_node(), class(vec![])]);
    assert_eq!(ClassLike::kind(&expr), Node::ClassExpr);
    assert!(expr.name().is_none());
    expr.class_mut().children[0].children.push(mk_leaf(JsKind::EmptyMember, empty_span(), String::new(), false, 0));
    assert_eq!(expr.class().children[0].children.len(), 1);
}

#[test]
fn class_method_reports_kind_span_and_static() {
    let key = mk_leaf(JsKind::Ident, at(3), "get_x".to_string(), false, 0);
    let m = mk_node(JsKind::ClassMethod, at(2), Op::Method(MethodKind::Getter), String::new(), true, false, 0, vec![key, function()]);
    assert_eq!(MethodLike::kind(&m), MethodKind::Getter);
    assert!(m.is_static());
    assert_eq!(m.span().unwrap().lo, 2);
    assert_eq!(m.key().text, "get_x");
    assert_eq!(m.function().kind, JsKind::Function);
}

#[test]
fn object_method_is_a_plain_method() {
    let key = mk_leaf(JsKind::Ident, at(3), "m".to_string(), false, 0);
    let m = mk_inner(JsKind::PropMethod, at(2), vec![key, function()]);
    assert_eq!(MethodLike::kind(&m), MethodKind::Method);
    assert!(!m.is_static());
    assert!(m.span().is_none());
}
