//! Parsing functions, their parameters, and classes.
use vstd::prelude::*;

use crate::ast::Node;
use crate::closure_decorator::{same_idents, ClosureDecorator};
use crate::emit::{
    lemma_node, owner_tree, p_arrow, p_block, p_class_like, p_class_member, p_ctor, p_ctor_param, p_fn_decl, p_fn_expr,
    p_function, p_list, p_method, p_param, p_pat_param, p_private_method, ListMode,
};
use crate::parse::{
    block_of_node, misplaced, node1, node2, node3, node4, node5, node6, node7, node8, parse_frame, parse_pre,
    private_name_node, root_filename, visible,
};
use crate::js::{absent_node, view_nodes, JsKind, JsNode, MethodKind, Op, Span};
use crate::js_util::{
    array_expr, array_tree, bool_expr, empty_span, eos, false_expr, filename_expr, filename_tree, mk_inner, ref_expr,
    bool_tree, str_tree, string_expr_of, this_expr, true_expr, undefined_expr, undefined_tree,
};
use crate::span::{concat_span, get_expr_span, get_pat_span};
use crate::virtual_machine::{ctor_params_ids, lemma_enter_bind_exit, params_ids, pats_ids, tree_id};

verus! {

impl ClosureDecorator {
    /// An arrow function; see [`p_arrow`].
    pub fn parse_arrow(&mut self, arrow: &JsNode, is_root: bool) -> (r: JsNode)
        requires
            parse_pre(*old(self), arrow@),
        ensures
            parse_frame(*old(self), *final(self)),
            (r@, final(self).ids) == p_arrow(arrow@, is_root, visible(*old(self)), old(self).ids),
        decreases arrow, 0int,
    {
        proof {
            lemma_node(*arrow);
        }
        let t = arrow;
        if t.children.len() != 2 {
            return misplaced(t);
        }
        let pats = &t.children[0].children;
        proof {
            lemma_node(t.children@[0]);
        }
        let ghost vm0 = self.vm@;
        self.vm.enter();
        self.vm.bind_pats(pats);
        proof {
            lemma_enter_bind_exit(vm0, pats_ids(view_nodes(pats@)));
        }
        let params = self.parse_list(ListMode::PatParam, pats, pats.len());
        let body = &t.children[1];
        proof {
            lemma_node(*body);
        }
        let b = if body.kind == JsKind::Block {
            self.parse_block(body)
        } else {
            let span = get_expr_span(body);
            let e = self.parse_expr(body);
            block_of_node(span, node1(Node::ReturnStmt, &span, e))
        };
        self.vm.exit();
        node4(Node::ArrowFunctionExpr, &t.span, array_expr(params), b, bool_expr(t.flag), root_filename(is_root))
    }

    /// A function, whose name the caller has bound where it binds one; see
    /// [`p_function`]. Its parameters are left bound in the current scope,
    /// which the caller leaves.
    fn parse_function(&mut self, kind: Node, name: Option<&JsNode>, function: &JsNode, is_root: bool) -> (r: JsNode)
        requires
            parse_pre(*old(self), function@),
        ensures
            final(self).vm@.len() == old(self).vm@.len(),
            final(self).vm@.drop_last() == old(self).vm@.drop_last(),
            same_idents(*final(self), *old(self)),
            (r@, final(self).ids) == p_function(
                kind,
                match name {
                    Some(n) => Some(n@.text),
                    None => None,
                },
                function@,
                is_root,
                visible(*old(self)),
                old(self).ids,
            ),
        decreases function, 0int,
    {
        proof {
            lemma_node(*function);
        }
        let f = function;
        if f.children.len() != 2 {
            return misplaced(f);
        }
        let params = &f.children[0].children;
        proof {
            lemma_node(f.children@[0]);
        }
        let ghost vm0 = self.vm@;
        self.vm.bind_params(params);
        proof {
            assert(self.vm@.drop_last() =~= vm0.drop_last());
        }
        let ghost ids0 = self.ids;
        let ps = self.parse_list(ListMode::Param, params, params.len());
        let ghost ids1 = self.ids;
        let body = if f.children[1].kind == JsKind::Absent {
            undefined_expr()
        } else {
            self.parse_block(&f.children[1])
        };
        let n = match name {
            Some(ident) => string_expr_of(&ident.text),
            None => undefined_expr(),
        };
        let r_root = root_filename(is_root);
        let ghost root_view = r_root@;
        let r = node6(kind, &f.span, n, array_expr(ps), body, bool_expr(f.flag), bool_expr(f.flag2), r_root);
        proof {
            let nm = match name {
                Some(n) => Some(n@.text),
                None => None,
            };
            let vis2 = vm0.last().union(params_ids(f@.children[0].children));
            assert(seq![
                match nm {
                    Some(x) => str_tree(x),
                    None => undefined_tree(),
                },
                array_tree(p_list(ListMode::Param, f@.children[0].children, vis2, ids0).0),
                (if f@.children[1].kind == JsKind::Absent {
                    undefined_tree()
                } else {
                    p_block(f@.children[1], vis2, ids1).0
                }),
                bool_tree(f@.flag),
                bool_tree(f@.flag2),
                if is_root {
                    filename_tree()
                } else {
                    undefined_tree()
                },
            ] =~= seq![n@, array_tree(view_nodes(ps@)), body@, bool_tree(f@.flag), bool_tree(f@.flag2), root_view]);
        }
        r
    }

    /// A function declaration; see [`p_fn_decl`].
    pub fn parse_function_decl(&mut self, function: &JsNode, is_root: bool) -> (r: JsNode)
        requires
            parse_pre(*old(self), function@),
        ensures
            parse_frame(*old(self), *final(self)),
            (r@, final(self).ids) == p_fn_decl(function@, is_root, visible(*old(self)), old(self).ids),
        decreases function, 0int,
    {
        proof {
            lemma_node(*function);
        }
        let t = function;
        if t.children.len() != 2 {
            return misplaced(t);
        }
        let ident = &t.children[0];
        proof {
            lemma_node(*ident);
        }
        let ghost vm0 = self.vm@;
        self.vm.enter();
        self.vm.bind_ident(ident);
        proof {
            lemma_enter_bind_exit(vm0, set![tree_id(ident@)]);
            assert(vm0.last().union(set![tree_id(ident@)]) =~= vm0.last().insert(tree_id(ident@)));
        }
        let node = self.parse_function(Node::FunctionDecl, Some(ident), &t.children[1], is_root);
        self.vm.exit();
        node
    }

    /// A function expression; see [`p_fn_expr`].
    pub fn parse_function_expr(&mut self, function: &JsNode, is_root: bool) -> (r: JsNode)
        requires
            parse_pre(*old(self), function@),
        ensures
            parse_frame(*old(self), *final(self)),
            (r@, final(self).ids) == p_fn_expr(function@, is_root, visible(*old(self)), old(self).ids),
        decreases function, 0int,
    {
        proof {
            lemma_node(*function);
        }
        let t = function;
        if t.children.len() != 2 {
            return misplaced(t);
        }
        let ident = &t.children[0];
        proof {
            lemma_node(*ident);
        }
        let ghost vm0 = self.vm@;
        self.vm.enter();
        if ident.kind == JsKind::Absent {
            proof {
                lemma_enter_bind_exit(vm0, Set::empty());
            }
            let node = self.parse_function(Node::FunctionExpr, None, &t.children[1], is_root);
            self.vm.exit();
            node
        } else {
            self.vm.bind_ident(ident);
            proof {
                lemma_enter_bind_exit(vm0, set![tree_id(ident@)]);
                assert(vm0.last().union(set![tree_id(ident@)]) =~= vm0.last().insert(tree_id(ident@)));
            }
            let node = self.parse_function(Node::FunctionExpr, Some(ident), &t.children[1], is_root);
            self.vm.exit();
            node
        }
    }

    /// A parameter; see [`p_param`].
    pub fn parse_param(&mut self, param: &JsNode) -> (r: JsNode)
        requires
            parse_pre(*old(self), param@),
        ensures
            parse_frame(*old(self), *final(self)),
            (r@, final(self).ids) == p_param(param@, visible(*old(self)), old(self).ids),
        decreases param, 1int,
    {
        proof {
            lemma_node(*param);
        }
        if param.children.len() == 1 {
            self.parse_pat_param(&param.children[0], Some(param.span))
        } else {
            misplaced(param)
        }
    }

    /// A pattern in the place of a parameter; see [`p_pat_param`].
    pub fn parse_pat_param(&mut self, pat: &JsNode, span: Option<Span>) -> (r: JsNode)
        requires
            parse_pre(*old(self), pat@),
        ensures
            parse_frame(*old(self), *final(self)),
            (r@, final(self).ids) == p_pat_param(pat@, span, visible(*old(self)), old(self).ids),
        decreases pat, 3int,
    {
        proof {
            lemma_node(*pat);
        }
        let sp = match span {
            Some(s) => s,
            None => get_pat_span(pat),
        };
        if pat.kind == JsKind::RestPat && pat.children.len() == 1 {
            let p = self.parse_pat(&pat.children[0], false);
            node3(Node::ParameterDecl, &sp, p, undefined_expr(), true_expr())
        } else if pat.kind == JsKind::AssignPat && pat.children.len() == 2 {
            let p = self.parse_pat(&pat.children[0], false);
            let e = self.parse_expr(&pat.children[1]);
            node3(Node::ParameterDecl, &sp, p, e, false_expr())
        } else {
            let p = self.parse_pat(pat, false);
            node3(Node::ParameterDecl, &sp, p, undefined_expr(), false_expr())
        }
    }

    /// A parameter of a constructor; see [`p_ctor_param`].
    pub fn parse_ctor_param(&mut self, param: &JsNode) -> (r: JsNode)
        requires
            parse_pre(*old(self), param@),
        ensures
            parse_frame(*old(self), *final(self)),
            (r@, final(self).ids) == p_ctor_param(param@, visible(*old(self)), old(self).ids),
        decreases param, 3int,
    {
        proof {
            lemma_node(*param);
        }
        let t = param;
        if t.kind == JsKind::Param && t.children.len() == 1 {
            self.parse_pat_param(&t.children[0], Some(t.span))
        } else if t.kind == JsKind::TsParamProp && t.children.len() == 1 {
            let inner = &t.children[0];
            proof {
                lemma_node(*inner);
            }
            if inner.kind == JsKind::AssignPat && inner.children.len() == 2 {
                let p = self.parse_pat(&inner.children[0], false);
                let e = self.parse_expr(&inner.children[1]);
                node2(Node::ParameterDecl, &t.span, p, e)
            } else {
                let p = self.parse_ident(inner, false);
                node1(Node::ParameterDecl, &t.span, p)
            }
        } else {
            misplaced(t)
        }
    }

    /// A constructor; see [`p_ctor`].
    pub fn parse_ctor(&mut self, ctor: &JsNode) -> (r: JsNode)
        requires
            parse_pre(*old(self), ctor@),
        ensures
            parse_frame(*old(self), *final(self)),
            (r@, final(self).ids) == p_ctor(ctor@, visible(*old(self)), old(self).ids),
        decreases ctor, 0int,
    {
        proof {
            lemma_node(*ctor);
        }
        let t = ctor;
        if t.children.len() != 3 {
            return misplaced(t);
        }
        let params = &t.children[1].children;
        proof {
            lemma_node(t.children@[1]);
        }
        let ghost vm0 = self.vm@;
        self.vm.enter();
        self.vm.bind_constructor_params(params);
        proof {
            lemma_enter_bind_exit(vm0, ctor_params_ids(view_nodes(params@)));
        }
        let ps = self.parse_list(ListMode::CtorParam, params, params.len());
        let body = self.parse_block(&t.children[2]);
        self.vm.exit();
        node2(Node::ConstructorDecl, &t.span, array_expr(ps), body)
    }

    /// A class method or an object method; see [`p_method`].
    pub fn parse_method_like(&mut self, method: &JsNode, owned: bool) -> (r: JsNode)
        requires
            parse_pre(*old(self), method@),
        ensures
            parse_frame(*old(self), *final(self)),
            (r@, final(self).ids) == p_method(method@, owned, visible(*old(self)), old(self).ids),
        decreases method, 0int,
    {
        proof {
            lemma_node(*method);
        }
        let t = method;
        if t.children.len() != 2 {
            return misplaced(t);
        }
        proof {
            lemma_node(t.children@[1]);
        }
        if t.children[1].children.len() != 2 {
            return misplaced(t);
        }
        let key = &t.children[0];
        proof {
            lemma_node(*key);
        }
        let f = &t.children[1];
        let params = &f.children[0].children;
        proof {
            lemma_node(f.children@[0]);
        }
        let is_class = t.kind == JsKind::ClassMethod;
        let span = if is_class {
            t.span
        } else {
            concat_span(&key.span, &f.span)
        };
        let is_static = is_class && t.flag;
        let kind = if is_class {
            t.op
        } else {
            Op::Method(MethodKind::Method)
        };
        let ghost vm0 = self.vm@;
        self.vm.enter();
        self.vm.bind_params(params);
        proof {
            lemma_enter_bind_exit(vm0, params_ids(view_nodes(params@)));
        }
        let name = self.parse_prop_name(key);
        let node = match kind {
            Op::Method(MethodKind::Getter) => {
                let body = self.parse_block(&f.children[1]);
                node4(Node::GetAccessorDecl, &span, name, body, bool_expr(is_static), self.owner(owned))
            },
            Op::Method(MethodKind::Setter) => {
                let param = if params.len() > 0 {
                    self.parse_param(&params[0])
                } else {
                    undefined_expr()
                };
                let body = self.parse_block(&f.children[1]);
                node5(Node::SetAccessorDecl, &span, name, param, body, bool_expr(is_static), self.owner(owned))
            },
            _ => {
                let ps = self.parse_list(ListMode::Param, params, params.len());
                let body = self.parse_block(&f.children[1]);
                node8(
                    Node::MethodDecl,
                    &span,
                    name,
                    array_expr(ps),
                    body,
                    bool_expr(f.flag),
                    bool_expr(f.flag2),
                    filename_expr(),
                    bool_expr(is_static),
                    self.owner(owned),
                )
            },
        };
        self.vm.exit();
        node
    }

    /// The owner argument of a method; see [`owner_tree`].
    fn owner(&self, owned: bool) -> (r: JsNode)
        ensures
            r@ == owner_tree(owned),
    {
        proof {
            reveal(owner_tree);
        }
        if owned {
            ref_expr(this_expr())
        } else {
            undefined_expr()
        }
    }

    /// A private method; see [`p_private_method`].
    pub fn parse_private_method(&mut self, method: &JsNode, owned: bool) -> (r: JsNode)
        requires
            parse_pre(*old(self), method@),
        ensures
            parse_frame(*old(self), *final(self)),
            (r@, final(self).ids) == p_private_method(method@, owned, visible(*old(self)), old(self).ids),
        decreases method, 0int,
    {
        proof {
            lemma_node(*method);
        }
        let t = method;
        if t.children.len() != 2 {
            return misplaced(t);
        }
        proof {
            lemma_node(t.children@[1]);
        }
        if t.children[1].children.len() != 2 {
            return misplaced(t);
        }
        let f = &t.children[1];
        proof {
            lemma_node(*f);
        }
        let params = &f.children[0].children;
        proof {
            lemma_node(f.children@[0]);
        }
        let ghost vm0 = self.vm@;
        self.vm.enter();
        self.vm.bind_params(params);
        proof {
            lemma_enter_bind_exit(vm0, params_ids(view_nodes(params@)));
        }
        let key = private_name_node(&t.children[0]);
        let ps = self.parse_list(ListMode::Param, params, params.len());
        let body = self.parse_block(&f.children[1]);
        self.vm.exit();
        node7(
            Node::MethodDecl,
            &t.span,
            key,
            array_expr(ps),
            body,
            bool_expr(f.flag),
            bool_expr(f.flag2),
            bool_expr(t.flag),
            self.owner(owned),
        )
    }

    /// A member of a class, as an element of the array of members; see
    /// [`p_class_member`].
    pub fn parse_class_member(&mut self, member: &JsNode, is_root: bool) -> (r: JsNode)
        requires
            parse_pre(*old(self), member@),
        ensures
            parse_frame(*old(self), *final(self)),
            (r@, final(self).ids) == p_class_member(member@, is_root, visible(*old(self)), old(self).ids),
        decreases member, 1int,
    {
        proof {
            lemma_node(*member);
        }
        let t = member;
        match t.kind {
            JsKind::ClassProp => {
                let key = self.parse_prop_name(&t.children[0]);
                let value = if t.children[1].kind == JsKind::Absent {
                    undefined_expr()
                } else {
                    self.parse_expr(&t.children[1])
                };
                eos(node3(Node::PropDecl, &t.span, key, bool_expr(t.flag), value))
            },
            JsKind::Constructor => eos(self.parse_ctor(t)),
            JsKind::ClassMethod => eos(self.parse_method_like(t, is_root)),
            JsKind::PrivateMethod => eos(self.parse_private_method(t, is_root)),
            JsKind::PrivateProp => {
                let key = private_name_node(&t.children[0]);
                let value = if t.children[1].kind == JsKind::Absent {
                    undefined_expr()
                } else {
                    self.parse_expr(&t.children[1])
                };
                eos(node3(Node::PropDecl, &t.span, key, bool_expr(t.flag), value))
            },
            JsKind::StaticBlock => {
                let b = self.parse_block(&t.children[0]);
                eos(node1(Node::ClassStaticBlockDecl, &t.span, b))
            },
            _ => absent_node(),
        }
    }

    /// A class declaration or expression; see [`p_class_like`].
    pub fn parse_class_like(&mut self, class_like: &JsNode, is_root: bool) -> (r: JsNode)
        requires
            parse_pre(*old(self), class_like@),
        ensures
            parse_frame(*old(self), *final(self)),
            (r@, final(self).ids) == p_class_like(class_like@, is_root, visible(*old(self)), old(self).ids),
        decreases class_like, 0int,
    {
        proof {
            lemma_node(*class_like);
        }
        let t = class_like;
        if t.children.len() != 2 {
            return misplaced(t);
        }
        proof {
            lemma_node(t.children@[1]);
        }
        if t.children[1].children.len() != 2 {
            return misplaced(t);
        }
        let class = &t.children[1];
        proof {
            lemma_node(*class);
        }
        let name = if t.children[0].kind == JsKind::Absent {
            undefined_expr()
        } else {
            self.parse_ident(&t.children[0], false)
        };
        let sup = if class.children[1].kind == JsKind::Absent {
            undefined_expr()
        } else {
            self.parse_expr(&class.children[1])
        };
        let list = &class.children[0];
        proof {
            lemma_node(*list);
        }
        let members = self.parse_list(ListMode::ClassMember(is_root), &list.children, list.children.len());
        let kind = if t.kind == JsKind::ClassDecl {
            Node::ClassDecl
        } else {
            Node::ClassExpr
        };
        let elems = mk_inner(JsKind::Array, empty_span(), members);
        node4(kind, &class.span, name, sup, elems, root_filename(is_root))
    }

}

} // verus!
