//! The source spans of syntax nodes.
use vstd::prelude::*;

use crate::js::{child, group_js_node, JsKind, JsNode, JsTree, Span};

verus! {

broadcast use group_js_node;

/// The span of an expression: a class or function expression is spanned by
/// its class or function, every other expression by its own span.
pub open spec fn expr_span(t: JsTree) -> Span {
    match t.kind {
        JsKind::ClassExpr | JsKind::FnExpr => child(t, 1).span,
        _ => t.span,
    }
}

/// The span of a declaration: a class or function declaration is spanned by
/// its class or function, every other declaration by its own span.
pub open spec fn decl_span(t: JsTree) -> Span {
    match t.kind {
        JsKind::ClassDecl | JsKind::FnDecl => child(t, 1).span,
        _ => t.span,
    }
}

/// The span of a statement; a declaration is spanned as [`decl_span`] says.
pub open spec fn stmt_span(t: JsTree) -> Span {
    decl_span(t)
}

/// The span of a pattern; an expression pattern is spanned by its expression.
pub open spec fn pat_span(t: JsTree) -> Span {
    match t.kind {
        JsKind::ExprPat => expr_span(child(t, 0)),
        _ => t.span,
    }
}

/// The span from the start of `left` to the end of `right`, in the syntax
/// context of `left`.
pub open spec fn spec_concat_span(left: Span, right: Span) -> Span {
    Span { lo: left.lo, hi: right.hi, ctxt: left.ctxt, line: left.line, col: left.col }
}

/// The span of an expression.
pub fn get_expr_span(expr: &JsNode) -> (r: Span)
    ensures
        r == expr_span(expr@),
{
    match expr.kind {
        JsKind::ClassExpr | JsKind::FnExpr => {
            if expr.children.len() > 1 {
                assert(expr.children@[1]@ == expr@.children[1]);
                expr.children[1].span
            } else {
                Span { lo: 0, hi: 0, ctxt: 0, line: 0, col: 0 }
            }
        },
        _ => expr.span,
    }
}

/// The span of a statement.
pub fn get_stmt_span(stmt: &JsNode) -> (r: Span)
    ensures
        r == stmt_span(stmt@),
{
    get_decl_span(stmt)
}

/// The span of a declaration.
pub fn get_decl_span(decl: &JsNode) -> (r: Span)
    ensures
        r == decl_span(decl@),
{
    match decl.kind {
        JsKind::ClassDecl | JsKind::FnDecl => {
            if decl.children.len() > 1 {
                assert(decl.children@[1]@ == decl@.children[1]);
                decl.children[1].span
            } else {
                Span { lo: 0, hi: 0, ctxt: 0, line: 0, col: 0 }
            }
        },
        _ => decl.span,
    }
}

/// The span of a literal: its own.
pub fn get_lit_span(lit: &JsNode) -> (r: Span)
    ensures
        r == lit@.span,
{
    lit.span
}

/// The span of a pattern.
pub fn get_pat_span(pat: &JsNode) -> (r: Span)
    ensures
        r == pat_span(pat@),
{
    match pat.kind {
        JsKind::ExprPat => {
            if pat.children.len() > 0 {
                assert(pat.children@[0]@ == pat@.children[0]);
                get_expr_span(&pat.children[0])
            } else {
                Span { lo: 0, hi: 0, ctxt: 0, line: 0, col: 0 }
            }
        },
        _ => pat.span,
    }
}

/// The span of a property name: its own.
pub fn get_prop_name_span(name: &JsNode) -> (r: Span)
    ensures
        r == name@.span,
{
    name.span
}

/// The span from the start of `left` to the end of `right`.
pub fn concat_span(left: &Span, right: &Span) -> (r: Span)
    ensures
        r == spec_concat_span(*left, *right),
{
    Span { lo: left.lo, hi: right.hi, ctxt: left.ctxt, line: left.line, col: left.col }
}

} // verus!
