//! Parsing statements, blocks and declarations.
use vstd::prelude::*;

use crate::ast::Node;
use crate::closure_decorator::ClosureDecorator;
use crate::emit::{
    lemma_node, p_block, p_catch, p_loop_body, p_s_expr, p_s_for, p_s_for_in_of, p_s_if, p_s_jump, p_s_labeled,
    p_s_loop, p_s_return, p_s_switch, p_s_try, p_s_var, p_s_with, p_stmt, p_switch_case, p_var_decl_list,
    p_var_declarator, ListMode,
};
use crate::parse::{
    block_of_node, misplaced, node0, node1, node2, node3, node4, parse_frame, parse_pre, var_kind_number, visible,
};
use crate::js::{JsKind, JsNode};
use crate::js_util::{array_expr, bool_expr, number_i32, undefined_expr};
use crate::span::{get_pat_span, get_stmt_span};
use crate::virtual_machine::{declarators_ids, lemma_enter_bind_exit, pat_ids, stmts_ids};

verus! {

impl ClosureDecorator {
    /// The list of declarators of a variable declaration; see
    /// [`p_var_decl_list`].
    pub fn parse_var_decl(&mut self, var_decl: &JsNode) -> (r: JsNode)
        requires
            parse_pre(*old(self), var_decl@),
        ensures
            parse_frame(*old(self), *final(self)),
            (r@, final(self).ids) == p_var_decl_list(var_decl@, visible(*old(self)), old(self).ids),
        decreases var_decl, 0int,
    {
        proof {
            lemma_node(*var_decl);
        }
        let decls = self.parse_list(ListMode::VarDeclarator, &var_decl.children, var_decl.children.len());
        let kind = number_i32(var_kind_number(var_decl.op));
        node2(Node::VariableDeclList, &var_decl.span, array_expr(decls), kind)
    }

    /// A declarator; see [`p_var_declarator`].
    pub fn parse_var_declarator(&mut self, decl: &JsNode) -> (r: JsNode)
        requires
            parse_pre(*old(self), decl@),
        ensures
            parse_frame(*old(self), *final(self)),
            (r@, final(self).ids) == p_var_declarator(decl@, visible(*old(self)), old(self).ids),
        decreases decl, 1int,
    {
        proof {
            lemma_node(*decl);
        }
        if decl.children.len() != 2 {
            return misplaced(decl);
        }
        let name = self.parse_pat(&decl.children[0], false);
        let init = if decl.children[1].kind == JsKind::Absent {
            undefined_expr()
        } else {
            self.parse_expr(&decl.children[1])
        };
        node2(Node::VariableDecl, &decl.span, name, init)
    }

    /// A block; see [`p_block`].
    pub fn parse_block(&mut self, block: &JsNode) -> (r: JsNode)
        requires
            parse_pre(*old(self), block@),
        ensures
            parse_frame(*old(self), *final(self)),
            (r@, final(self).ids) == p_block(block@, visible(*old(self)), old(self).ids),
        decreases block, 0int,
    {
        proof {
            lemma_node(*block);
        }
        let ghost vm0 = self.vm@;
        self.vm.enter();
        self.vm.bind_block(block);
        proof {
            lemma_enter_bind_exit(vm0, stmts_ids(block@.children));
        }
        let stmts = self.parse_list(ListMode::Stmt, &block.children, block.children.len());
        self.vm.exit();
        node1(Node::BlockStmt, &block.span, array_expr(stmts))
    }

    /// The body of a loop; see [`p_loop_body`].
    fn parse_loop_body(&mut self, body: &JsNode) -> (r: JsNode)
        requires
            parse_pre(*old(self), body@),
        ensures
            parse_frame(*old(self), *final(self)),
            (r@, final(self).ids) == p_loop_body(body@, visible(*old(self)), old(self).ids),
        decreases body, 4int,
    {
        proof {
            lemma_node(*body);
        }
        if body.kind == JsKind::Block {
            self.parse_block(body)
        } else {
            let span = get_stmt_span(body);
            let s = self.parse_stmt(body);
            block_of_node(span, s)
        }
    }

    /// A case of a switch; see [`p_switch_case`].
    pub fn parse_switch_case(&mut self, case: &JsNode) -> (r: JsNode)
        requires
            parse_pre(*old(self), case@),
        ensures
            parse_frame(*old(self), *final(self)),
            (r@, final(self).ids) == p_switch_case(case@, visible(*old(self)), old(self).ids),
        decreases case, 1int,
    {
        proof {
            lemma_node(*case);
        }
        if case.kind != JsKind::SwitchCase || case.children.len() != 2 {
            return misplaced(case);
        }
        let list = &case.children[1];
        proof {
            lemma_node(*list);
        }
        let stmts = self.parse_list(ListMode::Stmt, &list.children, list.children.len());
        let body = array_expr(stmts);
        if case.children[0].kind == JsKind::Absent {
            node1(Node::DefaultClause, &case.span, body)
        } else {
            let test = self.parse_expr(&case.children[0]);
            node2(Node::CaseClause, &case.span, test, body)
        }
    }

    /// The catch clause of a try statement; see [`p_catch`].
    fn parse_catch(&mut self, catch: &JsNode) -> (r: JsNode)
        requires
            parse_pre(*old(self), catch@),
        ensures
            parse_frame(*old(self), *final(self)),
            (r@, final(self).ids) == p_catch(catch@, visible(*old(self)), old(self).ids),
        decreases catch, 0int,
    {
        proof {
            lemma_node(*catch);
        }
        let t = catch;
        if t.children.len() != 2 {
            return misplaced(t);
        }
        let pat = &t.children[0];
        proof {
            lemma_node(*pat);
        }
        let ghost vm0 = self.vm@;
        self.vm.enter();
        if pat.kind == JsKind::Absent {
            proof {
                lemma_enter_bind_exit(vm0, Set::empty());
                assert(vm0.last().union(Set::empty()) =~= vm0.last());
            }
            let body = self.parse_block(&t.children[1]);
            self.vm.exit();
            node2(Node::CatchClause, &t.span, undefined_expr(), body)
        } else {
            self.vm.bind_pat(pat);
            proof {
                lemma_enter_bind_exit(vm0, pat_ids(pat@));
            }
            let span = get_pat_span(pat);
            let decl = if pat.kind == JsKind::AssignPat && pat.children.len() == 2 {
                let p = self.parse_pat(&pat.children[0], false);
                let e = self.parse_expr(&pat.children[1]);
                node2(Node::VariableDecl, &span, p, e)
            } else {
                let p = self.parse_pat(pat, false);
                node1(Node::VariableDecl, &span, p)
            };
            let body = self.parse_block(&t.children[1]);
            self.vm.exit();
            node2(Node::CatchClause, &t.span, decl, body)
        }
    }

    /// A statement; see [`p_stmt`].
    pub fn parse_stmt(&mut self, stmt: &JsNode) -> (r: JsNode)
        requires
            parse_pre(*old(self), stmt@),
        ensures
            parse_frame(*old(self), *final(self)),
            (r@, final(self).ids) == p_stmt(stmt@, visible(*old(self)), old(self).ids),
        decreases stmt, 3int,
    {
        proof {
            lemma_node(*stmt);
        }
        let t = stmt;
        match t.kind {
            JsKind::Block => self.parse_block(t),
            JsKind::Break | JsKind::Continue => self.parse_s_jump(t),
            JsKind::Debugger => node0(Node::DebuggerStmt, &t.span),
            JsKind::ClassDecl => self.parse_class_like(t, false),
            JsKind::FnDecl => self.parse_function_decl(t, false),
            JsKind::VarDecl => self.parse_s_var(t),
            JsKind::DoWhile | JsKind::While => self.parse_s_loop(t),
            JsKind::Empty => node0(Node::EmptyStmt, &t.span),
            JsKind::ExprStmt | JsKind::Throw => self.parse_s_expr(t),
            JsKind::For => self.parse_s_for(t),
            JsKind::ForIn | JsKind::ForOf => self.parse_s_for_in_of(t),
            JsKind::If => self.parse_s_if(t),
            JsKind::Labeled => self.parse_s_labeled(t),
            JsKind::Return => self.parse_s_return(t),
            JsKind::Switch => self.parse_s_switch(t),
            JsKind::Try => self.parse_s_try(t),
            JsKind::With => self.parse_s_with(t),
            _ => misplaced(t),
        }
    }

    /// A `break` or `continue`; see [`p_s_jump`].
    fn parse_s_jump(&mut self, stmt: &JsNode) -> (r: JsNode)
        requires
            parse_pre(*old(self), stmt@),
        ensures
            parse_frame(*old(self), *final(self)),
            (r@, final(self).ids) == p_s_jump(stmt@, visible(*old(self)), old(self).ids),
    {
        proof {
            lemma_node(*stmt);
        }
        let t = stmt;
        let label = if t.children.len() == 0 || t.children[0].kind == JsKind::Absent {
            undefined_expr()
        } else {
            self.parse_ident(&t.children[0], false)
        };
        let kind = if t.kind == JsKind::Break {
            Node::BreakStmt
        } else {
            Node::ContinueStmt
        };
        node1(kind, &t.span, label)
    }

    /// A variable statement; see [`p_s_var`].
    fn parse_s_var(&mut self, stmt: &JsNode) -> (r: JsNode)
        requires
            parse_pre(*old(self), stmt@),
        ensures
            parse_frame(*old(self), *final(self)),
            (r@, final(self).ids) == p_s_var(stmt@, visible(*old(self)), old(self).ids),
        decreases stmt, 1int,
    {
        proof {
            lemma_node(*stmt);
        }
        let t = stmt;
        let v = self.parse_var_decl(t);
        node1(Node::VariableStmt, &t.span, v)
    }

    /// A `do .. while` or `while` loop; see [`p_s_loop`].
    fn parse_s_loop(&mut self, stmt: &JsNode) -> (r: JsNode)
        requires
            parse_pre(*old(self), stmt@),
        ensures
            parse_frame(*old(self), *final(self)),
            (r@, final(self).ids) == p_s_loop(stmt@, visible(*old(self)), old(self).ids),
        decreases stmt, 0int,
    {
        proof {
            lemma_node(*stmt);
        }
        let t = stmt;
        if t.children.len() != 2 {
            return misplaced(t);
        }
        if t.kind == JsKind::DoWhile {
            let body = self.parse_loop_body(&t.children[1]);
            let test = self.parse_expr(&t.children[0]);
            node2(Node::DoStmt, &t.span, body, test)
        } else {
            let test = self.parse_expr(&t.children[0]);
            let body = self.parse_loop_body(&t.children[1]);
            node2(Node::WhileStmt, &t.span, test, body)
        }
    }

    /// An expression statement or a `throw`; see [`p_s_expr`].
    fn parse_s_expr(&mut self, stmt: &JsNode) -> (r: JsNode)
        requires
            parse_pre(*old(self), stmt@),
        ensures
            parse_frame(*old(self), *final(self)),
            (r@, final(self).ids) == p_s_expr(stmt@, visible(*old(self)), old(self).ids),
        decreases stmt, 0int,
    {
        proof {
            lemma_node(*stmt);
        }
        let t = stmt;
        if t.children.len() != 1 {
            return misplaced(t);
        }
        let e = self.parse_expr(&t.children[0]);
        let kind = if t.kind == JsKind::ExprStmt {
            Node::ExprStmt
        } else {
            Node::ThrowStmt
        };
        node1(kind, &t.span, e)
    }

    /// A `for` loop; see [`p_s_for`].
    fn parse_s_for(&mut self, stmt: &JsNode) -> (r: JsNode)
        requires
            parse_pre(*old(self), stmt@),
        ensures
            parse_frame(*old(self), *final(self)),
            (r@, final(self).ids) == p_s_for(stmt@, visible(*old(self)), old(self).ids),
        decreases stmt, 0int,
    {
        proof {
            lemma_node(*stmt);
        }
        let t = stmt;
        if t.children.len() != 4 {
            return misplaced(t);
        }
        let init = &t.children[0];
        proof {
            lemma_node(*init);
        }
        let ghost vm0 = self.vm@;
        self.vm.enter();
        if init.kind == JsKind::VarDecl {
            self.vm.bind_var_decl(init);
            proof {
                lemma_enter_bind_exit(vm0, declarators_ids(init@.children));
            }
        } else {
            proof {
                lemma_enter_bind_exit(vm0, Set::empty());
            }
        }
        let i = if init.kind == JsKind::Absent {
            undefined_expr()
        } else if init.kind == JsKind::VarDecl {
            self.parse_var_decl(init)
        } else {
            self.parse_expr(init)
        };
        let body = self.parse_stmt(&t.children[3]);
        let test = if t.children[1].kind == JsKind::Absent {
            undefined_expr()
        } else {
            self.parse_expr(&t.children[1])
        };
        let update = if t.children[2].kind == JsKind::Absent {
            undefined_expr()
        } else {
            self.parse_expr(&t.children[2])
        };
        self.vm.exit();
        node4(Node::ForStmt, &t.span, body, i, test, update)
    }

    /// A `for .. in` or `for .. of` loop; see [`p_s_for_in_of`].
    fn parse_s_for_in_of(&mut self, stmt: &JsNode) -> (r: JsNode)
        requires
            parse_pre(*old(self), stmt@),
        ensures
            parse_frame(*old(self), *final(self)),
            (r@, final(self).ids) == p_s_for_in_of(stmt@, visible(*old(self)), old(self).ids),
        decreases stmt, 0int,
    {
        proof {
            lemma_node(*stmt);
        }
        let t = stmt;
        if t.children.len() != 3 {
            return misplaced(t);
        }
        let left = &t.children[0];
        proof {
            lemma_node(*left);
        }
        let ghost vm0 = self.vm@;
        self.vm.enter();
        let v = if left.kind == JsKind::VarDecl {
            self.vm.bind_var_decl(left);
            proof {
                lemma_enter_bind_exit(vm0, declarators_ids(left@.children));
            }
            self.parse_var_decl(left)
        } else {
            proof {
                lemma_enter_bind_exit(vm0, Set::empty());
            }
            self.parse_pat(left, true)
        };
        let right = self.parse_expr(&t.children[1]);
        let body = self.parse_stmt(&t.children[2]);
        self.vm.exit();
        if t.kind == JsKind::ForIn {
            node3(Node::ForInStmt, &t.span, v, right, body)
        } else {
            node4(Node::ForOfStmt, &t.span, v, right, body, bool_expr(t.flag))
        }
    }

    /// An `if` statement; see [`p_s_if`].
    fn parse_s_if(&mut self, stmt: &JsNode) -> (r: JsNode)
        requires
            parse_pre(*old(self), stmt@),
        ensures
            parse_frame(*old(self), *final(self)),
            (r@, final(self).ids) == p_s_if(stmt@, visible(*old(self)), old(self).ids),
        decreases stmt, 0int,
    {
        proof {
            lemma_node(*stmt);
        }
        let t = stmt;
        if t.children.len() != 3 {
            return misplaced(t);
        }
        let test = self.parse_expr(&t.children[0]);
        let cons = self.parse_stmt(&t.children[1]);
        let alt = if t.children[2].kind == JsKind::Absent {
            undefined_expr()
        } else {
            self.parse_stmt(&t.children[2])
        };
        node3(Node::IfStmt, &t.span, test, cons, alt)
    }

    /// A labelled statement; see [`p_s_labeled`].
    fn parse_s_labeled(&mut self, stmt: &JsNode) -> (r: JsNode)
        requires
            parse_pre(*old(self), stmt@),
        ensures
            parse_frame(*old(self), *final(self)),
            (r@, final(self).ids) == p_s_labeled(stmt@, visible(*old(self)), old(self).ids),
        decreases stmt, 0int,
    {
        proof {
            lemma_node(*stmt);
        }
        let t = stmt;
        if t.children.len() != 2 {
            return misplaced(t);
        }
        // the label is erased: only the body is kept
        let body = self.parse_stmt(&t.children[1]);
        node1(Node::LabelledStmt, &t.span, body)
    }

    /// A `return`; see [`p_s_return`].
    fn parse_s_return(&mut self, stmt: &JsNode) -> (r: JsNode)
        requires
            parse_pre(*old(self), stmt@),
        ensures
            parse_frame(*old(self), *final(self)),
            (r@, final(self).ids) == p_s_return(stmt@, visible(*old(self)), old(self).ids),
        decreases stmt, 0int,
    {
        proof {
            lemma_node(*stmt);
        }
        let t = stmt;
        if t.children.len() != 1 || t.children[0].kind == JsKind::Absent {
            // an empty `return;` is a return of `undefined`
            node1(Node::ReturnStmt, &t.span, node0(Node::UndefinedLiteralExpr, &t.span))
        } else {
            let e = self.parse_expr(&t.children[0]);
            node1(Node::ReturnStmt, &t.span, e)
        }
    }

    /// A `switch` statement; see [`p_s_switch`].
    fn parse_s_switch(&mut self, stmt: &JsNode) -> (r: JsNode)
        requires
            parse_pre(*old(self), stmt@),
        ensures
            parse_frame(*old(self), *final(self)),
            (r@, final(self).ids) == p_s_switch(stmt@, visible(*old(self)), old(self).ids),
        decreases stmt, 0int,
    {
        proof {
            lemma_node(*stmt);
        }
        let t = stmt;
        if t.children.len() != 2 {
            return misplaced(t);
        }
        let d = self.parse_expr(&t.children[0]);
        let list = &t.children[1];
        proof {
            lemma_node(*list);
        }
        let cases = self.parse_list(ListMode::SwitchCase, &list.children, list.children.len());
        node2(Node::SwitchStmt, &t.span, d, array_expr(cases))
    }

    /// A `try` statement; see [`p_s_try`].
    fn parse_s_try(&mut self, stmt: &JsNode) -> (r: JsNode)
        requires
            parse_pre(*old(self), stmt@),
        ensures
            parse_frame(*old(self), *final(self)),
            (r@, final(self).ids) == p_s_try(stmt@, visible(*old(self)), old(self).ids),
        decreases stmt, 0int,
    {
        proof {
            lemma_node(*stmt);
        }
        let t = stmt;
        if t.children.len() != 3 {
            return misplaced(t);
        }
        let block = self.parse_block(&t.children[0]);
        let handler = if t.children[1].kind == JsKind::Absent {
            undefined_expr()
        } else {
            self.parse_catch(&t.children[1])
        };
        let finalizer = if t.children[2].kind == JsKind::Absent {
            undefined_expr()
        } else {
            self.parse_block(&t.children[2])
        };
        node3(Node::TryStmt, &t.span, block, handler, finalizer)
    }

    /// A `with` statement; see [`p_s_with`].
    fn parse_s_with(&mut self, stmt: &JsNode) -> (r: JsNode)
        requires
            parse_pre(*old(self), stmt@),
        ensures
            parse_frame(*old(self), *final(self)),
            (r@, final(self).ids) == p_s_with(stmt@, visible(*old(self)), old(self).ids),
        decreases stmt, 0int,
    {
        proof {
            lemma_node(*stmt);
        }
        let t = stmt;
        if t.children.len() != 2 {
            return misplaced(t);
        }
        let o = self.parse_expr(&t.children[0]);
        let body = self.parse_stmt(&t.children[1]);
        node2(Node::WithStmt, &t.span, o, body)
    }

}

} // verus!
