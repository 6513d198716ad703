//! Parsing binding patterns.
use vstd::prelude::*;

use crate::ast::Node;
use crate::closure_decorator::ClosureDecorator;
use crate::emit::{lemma_node, p_array_pat_elem, p_p_elem, p_p_list, p_obj_pat_prop, p_pat, ListMode};
use crate::parse::{misplaced, node0, node1, node2, node4, new_error_node, parse_frame, parse_pre, visible};
use crate::js::{JsKind, JsNode};
use crate::js_util::{array_expr, empty_span, false_expr, true_expr, undefined_expr};
use crate::span::{concat_span, get_pat_span};

verus! {

impl ClosureDecorator {
    /// A binding pattern; see [`p_pat`].
    pub fn parse_pat(&mut self, pat: &JsNode, is_ref: bool) -> (r: JsNode)
        requires
            parse_pre(*old(self), pat@),
        ensures
            parse_frame(*old(self), *final(self)),
            (r@, final(self).ids) == p_pat(pat@, is_ref, visible(*old(self)), old(self).ids),
        decreases pat, 2int,
    {
        proof {
            lemma_node(*pat);
        }
        let t = pat;
        match t.kind {
            JsKind::ArrayPat | JsKind::ObjectPat => self.parse_p_list(t, is_ref),
            JsKind::AssignPat | JsKind::RestPat => self.parse_p_elem(t, is_ref),
            JsKind::ExprPat => self.parse_expr(&t.children[0]),
            JsKind::BindingIdent => self.parse_ident(t, is_ref),
            JsKind::InvalidPat => new_error_node("Invalid Node", &t.span),
            _ => self.parse_expr(t),
        }
    }

    /// An array or object pattern; see [`p_p_list`].
    fn parse_p_list(&mut self, pat: &JsNode, is_ref: bool) -> (r: JsNode)
        requires
            parse_pre(*old(self), pat@),
        ensures
            parse_frame(*old(self), *final(self)),
            (r@, final(self).ids) == p_p_list(pat@, is_ref, visible(*old(self)), old(self).ids),
        decreases pat, 0int,
    {
        proof {
            lemma_node(*pat);
        }
        let t = pat;
        if t.kind == JsKind::ArrayPat {
            let elems = self.parse_list(ListMode::ArrayPatElem(is_ref), &t.children, t.children.len());
            node1(Node::ArrayBinding, &t.span, array_expr(elems))
        } else {
            let props = self.parse_list(ListMode::ObjPatProp(is_ref), &t.children, t.children.len());
            node1(Node::ObjectBinding, &t.span, array_expr(props))
        }
    }

    /// A pattern with a default value, or a rest pattern; see [`p_p_elem`].
    fn parse_p_elem(&mut self, pat: &JsNode, is_ref: bool) -> (r: JsNode)
        requires
            parse_pre(*old(self), pat@),
        ensures
            parse_frame(*old(self), *final(self)),
            (r@, final(self).ids) == p_p_elem(pat@, is_ref, visible(*old(self)), old(self).ids),
        decreases pat, 0int,
    {
        proof {
            lemma_node(*pat);
        }
        let t = pat;
        if t.kind == JsKind::AssignPat && t.children.len() == 2 {
            let p = self.parse_pat(&t.children[0], is_ref);
            let e = self.parse_expr(&t.children[1]);
            node4(Node::BindingElem, &t.span, p, false_expr(), undefined_expr(), e)
        } else if t.children.len() == 1 {
            let p = self.parse_pat(&t.children[0], is_ref);
            node2(Node::BindingElem, &t.span, p, true_expr())
        } else {
            misplaced(t)
        }
    }

    /// An element of an array pattern; see [`p_array_pat_elem`].
    pub fn parse_array_pat_elem(&mut self, elem: &JsNode, is_ref: bool) -> (r: JsNode)
        requires
            parse_pre(*old(self), elem@),
        ensures
            parse_frame(*old(self), *final(self)),
            (r@, final(self).ids) == p_array_pat_elem(elem@, is_ref, visible(*old(self)), old(self).ids),
        decreases elem, 3int,
    {
        proof {
            lemma_node(*elem);
        }
        if elem.kind == JsKind::Absent {
            node0(Node::OmittedExpr, &empty_span())
        } else if elem.kind == JsKind::AssignPat || elem.kind == JsKind::RestPat {
            self.parse_pat(elem, is_ref)
        } else {
            let span = get_pat_span(elem);
            let p = self.parse_pat(elem, is_ref);
            node2(Node::BindingElem, &span, p, false_expr())
        }
    }

    /// A property of an object pattern; see [`p_obj_pat_prop`].
    pub fn parse_obj_pat_prop(&mut self, prop: &JsNode, is_ref: bool) -> (r: JsNode)
        requires
            parse_pre(*old(self), prop@),
        ensures
            parse_frame(*old(self), *final(self)),
            (r@, final(self).ids) == p_obj_pat_prop(prop@, is_ref, visible(*old(self)), old(self).ids),
        decreases prop, 3int,
    {
        proof {
            lemma_node(*prop);
        }
        let t = prop;
        match t.kind {
            JsKind::ObjAssignProp => {
                if t.children[1].kind == JsKind::Absent {
                    let key = self.parse_ident(&t.children[0], false);
                    node2(Node::BindingElem, &t.span, key, false_expr())
                } else {
                    let key = self.parse_ident(&t.children[0], true);
                    let value = self.parse_expr(&t.children[1]);
                    node4(Node::BindingElem, &t.span, key, false_expr(), undefined_expr(), value)
                }
            },
            JsKind::ObjKeyValueProp => {
                let key = &t.children[0];
                proof {
                    lemma_node(*key);
                }
                let value = &t.children[1];
                proof {
                    lemma_node(*value);
                }
                let span = concat_span(&key.span, &get_pat_span(value));
                let is_assign = value.kind == JsKind::AssignPat && value.children.len() == 2;
                let name = if is_assign {
                    self.parse_pat(&value.children[0], is_ref)
                } else {
                    self.parse_pat(value, is_ref)
                };
                let p = self.parse_prop_name(key);
                let init = if is_assign {
                    self.parse_expr(&value.children[1])
                } else {
                    undefined_expr()
                };
                node4(Node::BindingElem, &span, name, false_expr(), p, init)
            },
            JsKind::ObjRestProp => {
                let p = self.parse_pat(&t.children[0], is_ref);
                node2(Node::BindingElem, &t.span, p, true_expr())
            },
            _ => misplaced(t),
        }
    }

}

} // verus!
