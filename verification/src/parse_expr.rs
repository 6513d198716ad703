//! Parsing expressions, their elements and property names.
use vstd::prelude::*;

use crate::ast::Node;
use crate::closure_decorator::ClosureDecorator;
use crate::emit::{
    lemma_node, p_array_elem, p_call_arg, p_expr, p_e_array, p_e_binary, p_e_call, p_e_cond, p_e_new, p_e_object,
    p_e_opt_chain, p_e_seq, p_e_super_prop, p_e_tagged_tpl, p_e_unary, p_e_update, p_e_wrap, p_e_yield, p_member,
    p_obj_prop, p_prop_name, p_template, supported, tpl_span_count, tpl_spans, ListMode,
};
use crate::parse::{
    assign_op_text, bin_op_text, fold_seq, jsx_text, lit_node_kind, misplaced, node0, node1, node2, node3, node4,
    node5, new_error_node, parse_frame, parse_pre, private_name_node, reversed, tpl_literal_node, unary_op_text,
    update_op_text, visible,
};
use crate::js::{clone_node, lemma_view_nodes, view_nodes, JsKind, JsNode, Op, UnaryOp};
use crate::js_util::{
    array_expr, arrow_pointer, bool_expr, empty_array_expr, empty_span, false_expr, string_expr, string_expr_of,
    true_expr, undefined_expr,
};
use crate::span::{concat_span, get_expr_span};
use crate::virtual_machine::{lemma_enter_bind_exit, pat_ids};

verus! {

impl ClosureDecorator {
    /// An expression; see [`p_expr`].
    pub fn parse_expr(&mut self, expr: &JsNode) -> (r: JsNode)
        requires
            parse_pre(*old(self), expr@),
        ensures
            parse_frame(*old(self), *final(self)),
            (r@, final(self).ids) == p_expr(expr@, visible(*old(self)), old(self).ids),
        decreases expr, 1int,
    {
        proof {
            lemma_node(*expr);
        }
        let t = expr;
        match t.kind {
            JsKind::Array => self.parse_e_array(t),
            JsKind::Arrow => self.parse_arrow(t, false),
            JsKind::Assign | JsKind::Bin => self.parse_e_binary(t),
            JsKind::Await | JsKind::Paren => self.parse_e_wrap(t),
            JsKind::Call => self.parse_e_call(t),
            JsKind::ClassExpr => self.parse_class_like(t, false),
            JsKind::Cond => self.parse_e_cond(t),
            JsKind::FnExpr => self.parse_function_expr(t, false),
            JsKind::Ident => self.parse_ident(t, true),
            JsKind::Invalid => new_error_node("Syntax Error", &t.span),
            JsKind::JsxMember => new_error_node("not sure what to do with JSXMember", &t.children[0].span),
            JsKind::JsxElement | JsKind::JsxEmpty | JsKind::JsxFragment | JsKind::JsxNamespacedName
            | JsKind::JsxText => new_error_node(jsx_text(t.kind), &t.span),
            JsKind::Bool | JsKind::BigInt | JsKind::Null | JsKind::Num | JsKind::Int | JsKind::Regex
            | JsKind::Str => node1(lit_node_kind(t.kind), &t.span, clone_node(t)),
            JsKind::Member => self.parse_member(t, false),
            JsKind::MetaProp => new_error_node("MetaProp is not supported", &t.span),
            JsKind::New => self.parse_e_new(t),
            JsKind::Object => self.parse_e_object(t),
            JsKind::OptChain => self.parse_e_opt_chain(t),
            JsKind::PrivateName => private_name_node(t),
            JsKind::SeqExpr => self.parse_e_seq(t),
            JsKind::SuperProp => self.parse_e_super_prop(t),
            JsKind::Tpl => self.parse_template(t),
            JsKind::TaggedTpl => self.parse_e_tagged_tpl(t),
            JsKind::This => node1(Node::ThisExpr, &t.span, arrow_pointer(clone_node(t))),
            JsKind::TsWrapper => self.parse_expr(&t.children[0]),
            JsKind::Unary => self.parse_e_unary(t),
            JsKind::Update => self.parse_e_update(t),
            JsKind::Yield => self.parse_e_yield(t),
            _ => misplaced(t),
        }
    }

    /// An array literal; see [`p_e_array`].
    fn parse_e_array(&mut self, expr: &JsNode) -> (r: JsNode)
        requires
            parse_pre(*old(self), expr@),
        ensures
            parse_frame(*old(self), *final(self)),
            (r@, final(self).ids) == p_e_array(expr@, visible(*old(self)), old(self).ids),
        decreases expr, 0int,
    {
        proof {
            lemma_node(*expr);
        }
        let t = expr;
        let elems = self.parse_list(ListMode::ArrayElem, &t.children, t.children.len());
        node1(Node::ArrayLiteralExpr, &t.span, array_expr(elems))
    }

    /// An assignment or a binary expression; see [`p_e_binary`].
    fn parse_e_binary(&mut self, expr: &JsNode) -> (r: JsNode)
        requires
            parse_pre(*old(self), expr@),
        ensures
            parse_frame(*old(self), *final(self)),
            (r@, final(self).ids) == p_e_binary(expr@, visible(*old(self)), old(self).ids),
        decreases expr, 0int,
    {
        proof {
            lemma_node(*expr);
        }
        let t = expr;
        if t.children.len() != 2 {
            return misplaced(t);
        }
        let l = if t.kind == JsKind::Assign {
            self.parse_pat(&t.children[0], true)
        } else {
            self.parse_expr(&t.children[0])
        };
        let r = self.parse_expr(&t.children[1]);
        let op = match t.op {
            Op::Assign(op) => assign_op_text(op),
            Op::Bin(op) => bin_op_text(op),
            _ => "",
        };
        proof {
            reveal_strlit("");
            assert(""@ =~= Seq::<char>::empty());
        }
        node3(Node::BinaryExpr, &t.span, l, string_expr(op), r)
    }

    /// An `await` or a parenthesized expression; see [`p_e_wrap`].
    fn parse_e_wrap(&mut self, expr: &JsNode) -> (r: JsNode)
        requires
            parse_pre(*old(self), expr@),
        ensures
            parse_frame(*old(self), *final(self)),
            (r@, final(self).ids) == p_e_wrap(expr@, visible(*old(self)), old(self).ids),
        decreases expr, 0int,
    {
        proof {
            lemma_node(*expr);
        }
        let t = expr;
        if t.children.len() != 1 {
            return misplaced(t);
        }
        let a = self.parse_expr(&t.children[0]);
        let kind = if t.kind == JsKind::Await {
            Node::AwaitExpr
        } else {
            Node::ParenthesizedExpr
        };
        node1(kind, &t.span, a)
    }

    /// A call; see [`p_e_call`].
    fn parse_e_call(&mut self, expr: &JsNode) -> (r: JsNode)
        requires
            parse_pre(*old(self), expr@),
        ensures
            parse_frame(*old(self), *final(self)),
            (r@, final(self).ids) == p_e_call(expr@, visible(*old(self)), old(self).ids),
        decreases expr, 0int,
    {
        proof {
            lemma_node(*expr);
        }
        let t = expr;
        if t.children.len() != 2 {
            return misplaced(t);
        }
        let callee = &t.children[0];
        let c = if callee.kind == JsKind::Super {
            node0(Node::SuperKeyword, &callee.span)
        } else if callee.kind == JsKind::Import {
            node0(Node::ImportKeyword, &callee.span)
        } else {
            self.parse_expr(callee)
        };
        let list = &t.children[1];
        proof {
            lemma_node(*list);
        }
        let args = self.parse_list(ListMode::CallArg, &list.children, list.children.len());
        node3(Node::CallExpr, &t.span, c, array_expr(args), false_expr())
    }

    /// A conditional expression; see [`p_e_cond`].
    fn parse_e_cond(&mut self, expr: &JsNode) -> (r: JsNode)
        requires
            parse_pre(*old(self), expr@),
        ensures
            parse_frame(*old(self), *final(self)),
            (r@, final(self).ids) == p_e_cond(expr@, visible(*old(self)), old(self).ids),
        decreases expr, 0int,
    {
        proof {
            lemma_node(*expr);
        }
        let t = expr;
        if t.children.len() != 3 {
            return misplaced(t);
        }
        let a = self.parse_expr(&t.children[0]);
        let b = self.parse_expr(&t.children[1]);
        let c = self.parse_expr(&t.children[2]);
        node3(Node::ConditionExpr, &t.span, a, b, c)
    }

    /// A `new` expression; see [`p_e_new`].
    fn parse_e_new(&mut self, expr: &JsNode) -> (r: JsNode)
        requires
            parse_pre(*old(self), expr@),
        ensures
            parse_frame(*old(self), *final(self)),
            (r@, final(self).ids) == p_e_new(expr@, visible(*old(self)), old(self).ids),
        decreases expr, 0int,
    {
        proof {
            lemma_node(*expr);
        }
        let t = expr;
        if t.children.len() != 2 {
            return misplaced(t);
        }
        let c = self.parse_expr(&t.children[0]);
        let list = &t.children[1];
        proof {
            lemma_node(*list);
        }
        let args = if list.kind == JsKind::Absent {
            empty_array_expr()
        } else {
            array_expr(self.parse_list(ListMode::CallArg, &list.children, list.children.len()))
        };
        node2(Node::NewExpr, &t.span, c, args)
    }

    /// An object literal; see [`p_e_object`].
    fn parse_e_object(&mut self, expr: &JsNode) -> (r: JsNode)
        requires
            parse_pre(*old(self), expr@),
        ensures
            parse_frame(*old(self), *final(self)),
            (r@, final(self).ids) == p_e_object(expr@, visible(*old(self)), old(self).ids),
        decreases expr, 0int,
    {
        proof {
            lemma_node(*expr);
        }
        let t = expr;
        let props = self.parse_list(ListMode::ObjProp, &t.children, t.children.len());
        node1(Node::ObjectLiteralExpr, &t.span, array_expr(props))
    }

    /// An optional chain; see [`p_e_opt_chain`].
    fn parse_e_opt_chain(&mut self, expr: &JsNode) -> (r: JsNode)
        requires
            parse_pre(*old(self), expr@),
        ensures
            parse_frame(*old(self), *final(self)),
            (r@, final(self).ids) == p_e_opt_chain(expr@, visible(*old(self)), old(self).ids),
        decreases expr, 0int,
    {
        proof {
            lemma_node(*expr);
        }
        let t = expr;
        if t.children.len() != 1 {
            return misplaced(t);
        }
        let base = &t.children[0];
        proof {
            lemma_node(*base);
        }
        if base.kind == JsKind::OptCall && base.children.len() == 2 {
            let c = self.parse_expr(&base.children[0]);
            let list = &base.children[1];
            proof {
                lemma_node(*list);
            }
            let args = self.parse_list(ListMode::CallArg, &list.children, list.children.len());
            node3(Node::CallExpr, &base.span, c, array_expr(args), true_expr())
        } else {
            self.parse_member(base, true)
        }
    }

    /// A sequence expression; see [`p_e_seq`].
    fn parse_e_seq(&mut self, expr: &JsNode) -> (r: JsNode)
        requires
            parse_pre(*old(self), expr@),
        ensures
            parse_frame(*old(self), *final(self)),
            (r@, final(self).ids) == p_e_seq(expr@, visible(*old(self)), old(self).ids),
        decreases expr, 0int,
    {
        proof {
            lemma_node(*expr);
        }
        let t = expr;
        if t.children.len() == 0 {
            return misplaced(t);
        }
        let parsed = self.parse_list(ListMode::Expr, &t.children, t.children.len());
        proof {
            lemma_view_nodes(parsed@);
            lemma_view_nodes(t.children@);
        }
        fold_seq(parsed, &t.children)
    }

    /// A property of `super`; see [`p_e_super_prop`].
    fn parse_e_super_prop(&mut self, expr: &JsNode) -> (r: JsNode)
        requires
            parse_pre(*old(self), expr@),
        ensures
            parse_frame(*old(self), *final(self)),
            (r@, final(self).ids) == p_e_super_prop(expr@, visible(*old(self)), old(self).ids),
        decreases expr, 0int,
    {
        proof {
            lemma_node(*expr);
        }
        let t = expr;
        if t.children.len() != 2 {
            return misplaced(t);
        }
        let sup = node0(Node::SuperKeyword, &t.children[0].span);
        let prop = &t.children[1];
        proof {
            lemma_node(*prop);
        }
        let p = if prop.kind == JsKind::Computed && prop.children.len() == 1 {
            let e = self.parse_expr(&prop.children[0]);
            node1(Node::ComputedPropertyNameExpr, &prop.span, e)
        } else {
            self.parse_ident(prop, false)
        };
        node2(Node::PropAccessExpr, &t.span, sup, p)
    }

    /// A tagged template; see [`p_e_tagged_tpl`].
    fn parse_e_tagged_tpl(&mut self, expr: &JsNode) -> (r: JsNode)
        requires
            parse_pre(*old(self), expr@),
        ensures
            parse_frame(*old(self), *final(self)),
            (r@, final(self).ids) == p_e_tagged_tpl(expr@, visible(*old(self)), old(self).ids),
        decreases expr, 0int,
    {
        proof {
            lemma_node(*expr);
        }
        let t = expr;
        if t.children.len() != 2 {
            return misplaced(t);
        }
        let tag = self.parse_expr(&t.children[0]);
        let tpl = self.parse_template(&t.children[1]);
        node2(Node::TaggedTemplateExpr, &t.span, tag, tpl)
    }

    /// A prefix operator; see [`p_e_unary`].
    fn parse_e_unary(&mut self, expr: &JsNode) -> (r: JsNode)
        requires
            parse_pre(*old(self), expr@),
        ensures
            parse_frame(*old(self), *final(self)),
            (r@, final(self).ids) == p_e_unary(expr@, visible(*old(self)), old(self).ids),
        decreases expr, 0int,
    {
        proof {
            lemma_node(*expr);
        }
        let t = expr;
        if t.children.len() != 1 {
            return misplaced(t);
        }
        let a = self.parse_expr(&t.children[0]);
        match t.op {
            Op::Unary(UnaryOp::TypeOf) => node1(Node::TypeOfExpr, &t.span, a),
            Op::Unary(UnaryOp::Void) => node1(Node::VoidExpr, &t.span, a),
            Op::Unary(UnaryOp::Delete) => node1(Node::DeleteExpr, &t.span, a),
            Op::Unary(op) => node2(Node::UnaryExpr, &t.span, string_expr_of(&unary_op_text(op)), a),
            _ => node2(Node::UnaryExpr, &t.span, string_expr_of(&String::new()), a),
        }
    }

    /// An increment or decrement; see [`p_e_update`].
    fn parse_e_update(&mut self, expr: &JsNode) -> (r: JsNode)
        requires
            parse_pre(*old(self), expr@),
        ensures
            parse_frame(*old(self), *final(self)),
            (r@, final(self).ids) == p_e_update(expr@, visible(*old(self)), old(self).ids),
        decreases expr, 0int,
    {
        proof {
            lemma_node(*expr);
        }
        let t = expr;
        if t.children.len() != 1 {
            return misplaced(t);
        }
        let a = self.parse_expr(&t.children[0]);
        let op = match t.op {
            Op::Update(op) => update_op_text(op),
            _ => "",
        };
        proof {
            reveal_strlit("");
            assert(""@ =~= Seq::<char>::empty());
        }
        let kind = if t.flag {
            Node::UnaryExpr
        } else {
            Node::PostfixUnaryExpr
        };
        node2(kind, &t.span, string_expr(op), a)
    }

    /// A `yield`; see [`p_e_yield`].
    fn parse_e_yield(&mut self, expr: &JsNode) -> (r: JsNode)
        requires
            parse_pre(*old(self), expr@),
        ensures
            parse_frame(*old(self), *final(self)),
            (r@, final(self).ids) == p_e_yield(expr@, visible(*old(self)), old(self).ids),
        decreases expr, 0int,
    {
        proof {
            lemma_node(*expr);
        }
        let t = expr;
        if t.children.len() != 1 {
            return misplaced(t);
        }
        let a = if t.children[0].kind == JsKind::Absent {
            undefined_expr()
        } else {
            self.parse_expr(&t.children[0])
        };
        node2(Node::YieldExpr, &t.span, a, bool_expr(t.flag))
    }

    /// A member access; see [`p_member`].
    pub fn parse_member(&mut self, member: &JsNode, is_optional: bool) -> (r: JsNode)
        requires
            parse_pre(*old(self), member@),
        ensures
            parse_frame(*old(self), *final(self)),
            (r@, final(self).ids) == p_member(member@, is_optional, visible(*old(self)), old(self).ids),
        decreases member, 0int,
    {
        proof {
            lemma_node(*member);
        }
        if member.children.len() != 2 {
            return misplaced(member);
        }
        let prop = &member.children[1];
        proof {
            lemma_node(*prop);
        }
        let o = self.parse_expr(&member.children[0]);
        let p = if prop.kind == JsKind::Computed && prop.children.len() == 1 {
            self.parse_expr(&prop.children[0])
        } else if prop.kind == JsKind::PrivateName {
            private_name_node(prop)
        } else {
            self.parse_ident(prop, false)
        };
        let kind = if prop.kind == JsKind::Computed {
            Node::ElementAccessExpr
        } else {
            Node::PropAccessExpr
        };
        node3(kind, &member.span, o, p, bool_expr(is_optional))
    }

    /// An element of an array literal; see [`p_array_elem`].
    pub fn parse_array_elem(&mut self, elem: &JsNode) -> (r: JsNode)
        requires
            parse_pre(*old(self), elem@),
        ensures
            parse_frame(*old(self), *final(self)),
            (r@, final(self).ids) == p_array_elem(elem@, visible(*old(self)), old(self).ids),
        decreases elem, 1int,
    {
        proof {
            lemma_node(*elem);
        }
        if elem.kind == JsKind::ExprOrSpread && elem.children.len() == 1 {
            let e = self.parse_expr(&elem.children[0]);
            if elem.flag {
                node1(Node::SpreadElementExpr, &elem.span, e)
            } else {
                e
            }
        } else {
            node0(Node::OmittedExpr, &empty_span())
        }
    }

    /// An argument of a call; see [`p_call_arg`].
    pub fn parse_call_arg(&mut self, arg: &JsNode) -> (r: JsNode)
        requires
            parse_pre(*old(self), arg@),
        ensures
            parse_frame(*old(self), *final(self)),
            (r@, final(self).ids) == p_call_arg(arg@, visible(*old(self)), old(self).ids),
        decreases arg, 1int,
    {
        proof {
            lemma_node(*arg);
        }
        if arg.kind == JsKind::ExprOrSpread && arg.children.len() == 1 {
            let inner = get_expr_span(&arg.children[0]);
            let span = if arg.flag {
                concat_span(&arg.span, &inner)
            } else {
                inner
            };
            let e = self.parse_expr(&arg.children[0]);
            if arg.flag {
                node1(Node::Argument, &span, node1(Node::SpreadElementExpr, &span, e))
            } else {
                node1(Node::Argument, &span, e)
            }
        } else {
            misplaced(arg)
        }
    }

    /// A property of an object literal; see [`p_obj_prop`].
    pub fn parse_obj_prop(&mut self, prop: &JsNode) -> (r: JsNode)
        requires
            parse_pre(*old(self), prop@),
        ensures
            parse_frame(*old(self), *final(self)),
            (r@, final(self).ids) == p_obj_prop(prop@, visible(*old(self)), old(self).ids),
        decreases prop, 1int,
    {
        proof {
            lemma_node(*prop);
        }
        let t = prop;
        match t.kind {
            JsKind::PropGetter => {
                let key = self.parse_prop_name(&t.children[0]);
                let body = self.parse_block(&t.children[1]);
                node4(Node::GetAccessorDecl, &t.span, key, body, false_expr(), undefined_expr())
            },
            JsKind::PropKeyValue => {
                let span = concat_span(&t.children[0].span, &get_expr_span(&t.children[1]));
                let key = self.parse_prop_name(&t.children[0]);
                let value = self.parse_expr(&t.children[1]);
                node2(Node::PropAssignExpr, &span, key, value)
            },
            JsKind::PropMethod => self.parse_method_like(t, false),
            JsKind::PropSetter => {
                let ghost vm0 = self.vm@;
                self.vm.enter();
                self.vm.bind_pat(&t.children[1]);
                proof {
                    lemma_enter_bind_exit(vm0, pat_ids(t@.children[1]));
                }
                let key = self.parse_prop_name(&t.children[0]);
                let param = self.parse_pat_param(&t.children[1], None);
                let body = self.parse_block(&t.children[2]);
                self.vm.exit();
                node5(Node::SetAccessorDecl, &t.span, key, param, body, false_expr(), undefined_expr())
            },
            JsKind::PropShorthand => {
                let ident = &t.children[0];
                proof {
                    lemma_node(*ident);
                }
                let a = self.parse_ident(ident, false);
                let b = self.parse_ident(ident, true);
                node2(Node::PropAssignExpr, &ident.span, a, b)
            },
            JsKind::Spread => {
                let span = concat_span(&t.span, &get_expr_span(&t.children[0]));
                let e = self.parse_expr(&t.children[0]);
                node1(Node::SpreadAssignExpr, &span, e)
            },
            _ => misplaced(t),
        }
    }

    /// A property name; see [`p_prop_name`].
    pub fn parse_prop_name(&mut self, name: &JsNode) -> (r: JsNode)
        requires
            parse_pre(*old(self), name@),
        ensures
            parse_frame(*old(self), *final(self)),
            (r@, final(self).ids) == p_prop_name(name@, visible(*old(self)), old(self).ids),
        decreases name, 1int,
    {
        proof {
            lemma_node(*name);
        }
        let t = name;
        match t.kind {
            JsKind::BigInt => node1(Node::BigIntExpr, &t.span, clone_node(t)),
            JsKind::Computed => {
                if t.children.len() == 1 {
                    let e = self.parse_expr(&t.children[0]);
                    node1(Node::ComputedPropertyNameExpr, &t.span, e)
                } else {
                    misplaced(t)
                }
            },
            JsKind::Ident => self.parse_ident(t, false),
            JsKind::Num => node1(Node::NumberLiteralExpr, &t.span, clone_node(t)),
            JsKind::Str => node1(Node::StringLiteralExpr, &t.span, clone_node(t)),
            _ => misplaced(t),
        }
    }

    /// A template literal; see [`p_template`].
    pub fn parse_template(&mut self, tpl: &JsNode) -> (r: JsNode)
        requires
            parse_pre(*old(self), tpl@),
        ensures
            parse_frame(*old(self), *final(self)),
            (r@, final(self).ids) == p_template(tpl@, visible(*old(self)), old(self).ids),
        decreases tpl, 0int,
    {
        proof {
            reveal(tpl_spans);
        }
        proof {
            lemma_node(*tpl);
        }
        let t = tpl;
        if t.children.len() != 2 || t.children[1].children.len() == 0 {
            return misplaced(t);
        }
        let exprs = &t.children[0].children;
        proof {
            lemma_node(t.children@[0]);
        }
        let quasis = &t.children[1].children;
        proof {
            lemma_node(t.children@[1]);
        }
        let head = &quasis[0];
        if exprs.len() == 0 {
            return node1(Node::NoSubstitutionTemplateLiteral, &t.span, string_expr_of(&head.text));
        }
        let ghost ve = view_nodes(exprs@);
        let ghost vq = view_nodes(quasis@);
        proof {
            lemma_view_nodes(exprs@);
            lemma_view_nodes(quasis@);
        }
        let n = if exprs.len() < quasis.len() {
            exprs.len()
        } else {
            quasis.len() - 1
        };
        assert(n == tpl_span_count(ve, vq));
        let parsed = self.parse_list(ListMode::Expr, exprs, n);
        proof {
            if n == exprs.len() {
                assert(ve.subrange(0, n as int) =~= ve);
            }
            lemma_view_nodes(parsed@);
        }
        let ghost vp = view_nodes(parsed@);
        let head_node = node1(Node::TemplateHead, &head.span, string_expr_of(&head.text));
        let mut rest = reversed(parsed);
        let mut spans: Vec<JsNode> = Vec::new();
        let mut i: usize = 0;
        while i < n
            invariant
                i <= n,
                n == vp.len(),
                n <= exprs@.len(),
                n + 1 <= quasis@.len(),
                ve == view_nodes(exprs@),
                vq == view_nodes(quasis@),
                forall|k: int| 0 <= k < exprs@.len() ==> #[trigger] ve[k] == exprs@[k]@,
                forall|k: int| 0 <= k < quasis@.len() ==> #[trigger] vq[k] == quasis@[k]@,
                rest@.len() == n - i,
                forall|k: int| 0 <= k < rest@.len() ==> #[trigger] rest@[k]@ == vp[n - 1 - k],
                spans@.len() == i,
                forall|k: int| 0 <= k < i ==> #[trigger] spans@[k]@ == tpl_spans(ve, vq, vp)[k],
            decreases n - i,
        {
            proof {
                reveal(tpl_spans);
            }
            let e = rest.pop().unwrap();
            let literal = &quasis[i + 1];
            let span = concat_span(&get_expr_span(&exprs[i]), &literal.span);
            let lit = tpl_literal_node(literal);
            let node = node2(Node::TemplateSpan, &span, e, lit);
            spans.push(node);
            i += 1;
        }
        proof {
            reveal(tpl_spans);
            lemma_view_nodes(spans@);
            assert(tpl_spans(ve, vq, vp).len() == n);
            assert forall|k: int| 0 <= k < n implies view_nodes(spans@)[k] == tpl_spans(ve, vq, vp)[k] by {
                assert(spans@[k]@ == tpl_spans(ve, vq, vp)[k]);
            }
            assert(view_nodes(spans@) =~= tpl_spans(ve, vq, vp));
        }
        node2(Node::TemplateExpr, &t.span, head_node, array_expr(spans))
    }

}

} // verus!
