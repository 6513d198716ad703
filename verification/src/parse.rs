//! Parsing a closure or class into its Functionless AST: the expression that
//! the transform attaches to it.
use vstd::prelude::*;

use crate::ast::{node_kind_id, Node};
use crate::closure_decorator::{same_idents, ClosureDecorator};
use crate::emit::{
    block_of, error_tree, fl_node, identifier_tree, ident_result, jsx_message, lit_kind, lemma_node, misplaced_tree,
    p_item, p_list, private_name_tree, ref_arrow_tree, seq_fold, supported, tpl_literal_tree, assign_op_str,
    bin_op_str, unary_op_str, update_op_str, var_kind_num, ListMode,
};
use crate::js::{
    lemma_view_nodes, lemma_view_nodes_concat, lemma_view_nodes_push, view_nodes, well_formed, AssignOp, BinaryOp,
    JsKind, JsNode, JsTree, Op, Span, UnaryOp, UpdateOp, VarDeclKind,
};
use crate::js_util::{
    array_expr, array_tree, empty_span, filename_expr, filename_tree, ident_expr, mk_inner, not_eq_eq, number_i32,
    number_u32, string_expr, string_expr_of, type_of, undefined_expr, undefined_tree,
};
use crate::span::{concat_span, get_expr_span};
use crate::virtual_machine::IdView;

verus! {

/// A Functionless AST node of the given kind, span and arguments:
/// `[kind, [line, col], ...args]`.
pub fn new_node(kind: Node, span: &Span, args: Vec<JsNode>) -> (r: JsNode)
    ensures
        r@ == fl_node(kind, *span, view_nodes(args@)),
{
    proof {
        reveal(fl_node);
    }
    let (line, col) = if span.lo == 0 {
        (1u32, 0u32)
    } else {
        (span.line, span.col)
    };
    let id = number_i32(node_kind_id(kind));
    let l = number_u32(line);
    let c = number_u32(col);
    let ghost lc_view = seq![l@, c@];
    proof {
        lemma_view_nodes(seq![l, c]);
        assert(view_nodes(seq![l, c]) =~= lc_view);
    }
    let lc = array_expr(vec![l, c]);
    let mut elems: Vec<JsNode> = Vec::new();
    elems.push(id);
    elems.push(lc);
    let ghost head = elems@;
    let ghost tail = args@;
    let mut args = args;
    elems.append(&mut args);
    proof {
        lemma_view_nodes(head);
        lemma_view_nodes_concat(head, tail);
        assert(view_nodes(head) =~= seq![id@, lc@]);
    }
    array_expr(elems)
}

/// An error node with the given message.
pub fn new_error_node(message: &str, span: &Span) -> (r: JsNode)
    ensures
        r@ == error_tree(message@, *span),
{
    proof {
        reveal(error_tree);
    }
    node1(Node::Error, span, string_expr(message))
}

/// A node with no arguments.
pub fn node0(kind: Node, span: &Span) -> (r: JsNode)
    ensures
        r@ == fl_node(kind, *span, Seq::empty()),
{
    proof {
        lemma_view_nodes(Seq::<JsNode>::empty());
    }
    let r = new_node(kind, span, Vec::new());
    assert(view_nodes(Seq::<JsNode>::empty()) =~= Seq::<JsTree>::empty());
    r
}

/// A node with one argument.
pub fn node1(kind: Node, span: &Span, a: JsNode) -> (r: JsNode)
    ensures
        r@ == fl_node(kind, *span, seq![a@]),
{
    let ghost v = seq![a@];
    let args = vec![a];
    proof {
        lemma_view_nodes(args@);
        assert(view_nodes(args@) =~= v);
    }
    new_node(kind, span, args)
}

/// A node with two arguments.
pub fn node2(kind: Node, span: &Span, a: JsNode, b: JsNode) -> (r: JsNode)
    ensures
        r@ == fl_node(kind, *span, seq![a@, b@]),
{
    let ghost v = seq![a@, b@];
    let args = vec![a, b];
    proof {
        lemma_view_nodes(args@);
        assert(view_nodes(args@) =~= v);
    }
    new_node(kind, span, args)
}

/// A node with three arguments.
pub fn node3(kind: Node, span: &Span, a: JsNode, b: JsNode, c: JsNode) -> (r: JsNode)
    ensures
        r@ == fl_node(kind, *span, seq![a@, b@, c@]),
{
    let ghost v = seq![a@, b@, c@];
    let args = vec![a, b, c];
    proof {
        lemma_view_nodes(args@);
        assert(view_nodes(args@) =~= v);
    }
    new_node(kind, span, args)
}

/// A node with four arguments.
pub fn node4(kind: Node, span: &Span, a: JsNode, b: JsNode, c: JsNode, d: JsNode) -> (r: JsNode)
    ensures
        r@ == fl_node(kind, *span, seq![a@, b@, c@, d@]),
{
    let ghost v = seq![a@, b@, c@, d@];
    let args = vec![a, b, c, d];
    proof {
        lemma_view_nodes(args@);
        assert(view_nodes(args@) =~= v);
    }
    new_node(kind, span, args)
}

/// A node with five arguments.
pub fn node5(kind: Node, span: &Span, a: JsNode, b: JsNode, c: JsNode, d: JsNode, e: JsNode) -> (r: JsNode)
    ensures
        r@ == fl_node(kind, *span, seq![a@, b@, c@, d@, e@]),
{
    let ghost v = seq![a@, b@, c@, d@, e@];
    let args = vec![a, b, c, d, e];
    proof {
        lemma_view_nodes(args@);
        assert(view_nodes(args@) =~= v);
    }
    new_node(kind, span, args)
}

/// A node with six arguments.
pub fn node6(kind: Node, span: &Span, a: JsNode, b: JsNode, c: JsNode, d: JsNode, e: JsNode, f: JsNode) -> (r: JsNode)
    ensures
        r@ == fl_node(kind, *span, seq![a@, b@, c@, d@, e@, f@]),
{
    let ghost v = seq![a@, b@, c@, d@, e@, f@];
    let args = vec![a, b, c, d, e, f];
    proof {
        lemma_view_nodes(args@);
        assert(view_nodes(args@) =~= v);
    }
    new_node(kind, span, args)
}

/// A node with seven arguments.
pub fn node7(
    kind: Node,
    span: &Span,
    a: JsNode,
    b: JsNode,
    c: JsNode,
    d: JsNode,
    e: JsNode,
    f: JsNode,
    g: JsNode,
) -> (r: JsNode)
    ensures
        r@ == fl_node(kind, *span, seq![a@, b@, c@, d@, e@, f@, g@]),
{
    let ghost v = seq![a@, b@, c@, d@, e@, f@, g@];
    let args = vec![a, b, c, d, e, f, g];
    proof {
        lemma_view_nodes(args@);
        assert(view_nodes(args@) =~= v);
    }
    new_node(kind, span, args)
}

/// A node with eight arguments.
pub fn node8(
    kind: Node,
    span: &Span,
    a: JsNode,
    b: JsNode,
    c: JsNode,
    d: JsNode,
    e: JsNode,
    f: JsNode,
    g: JsNode,
    h: JsNode,
) -> (r: JsNode)
    ensures
        r@ == fl_node(kind, *span, seq![a@, b@, c@, d@, e@, f@, g@, h@]),
{
    let ghost v = seq![a@, b@, c@, d@, e@, f@, g@, h@];
    let args = vec![a, b, c, d, e, f, g, h];
    proof {
        lemma_view_nodes(args@);
        assert(view_nodes(args@) =~= v);
    }
    new_node(kind, span, args)
}

/// What every parse function asks for: a scope to parse in, and a well
/// formed tree that the transform accepts.
pub open spec fn parse_pre(d: ClosureDecorator, t: JsTree) -> bool {
    d.vm@.len() > 0 && well_formed(t) && supported(t)
}

/// What every element of a list given to a parse function must be.
pub open spec fn parse_pre_all(d: ClosureDecorator, s: Seq<JsNode>) -> bool {
    d.vm@.len() > 0 && forall|k: int| 0 <= k < s.len() ==> well_formed(#[trigger] s[k]@) && supported(s[k]@)
}

/// A parse leaves the scopes and the private identifiers as it found them.
pub open spec fn parse_frame(before: ClosureDecorator, after: ClosureDecorator) -> bool {
    after.vm@ == before.vm@ && same_idents(after, before)
}

/// The names visible to the transform.
pub open spec fn visible(d: ClosureDecorator) -> Set<IdView> {
    d.vm@.last()
}

/// The error node of a node that cannot stand where it was found.
pub fn misplaced(t: &JsNode) -> (r: JsNode)
    ensures
        r@ == misplaced_tree(t@),
{
    new_error_node("Syntax Error", &t.span)
}

/// An array literal of one expression.
pub fn array1(e: JsNode) -> (r: JsNode)
    ensures
        r@ == array_tree(seq![e@]),
{
    let ghost v = seq![e@];
    let items = vec![e];
    proof {
        lemma_view_nodes(items@);
        assert(view_nodes(items@) =~= v);
    }
    array_expr(items)
}

/// A block of one statement.
pub fn block_of_node(span: Span, stmt: JsNode) -> (r: JsNode)
    ensures
        r@ == block_of(span, stmt@),
{
    proof {
        reveal(block_of);
    }
    node1(Node::BlockStmt, &span, array1(stmt))
}

/// `__filename` for the closure being decorated, else `undefined`.
pub fn root_filename(is_root: bool) -> (r: JsNode)
    ensures
        r@ == (if is_root {
            filename_tree()
        } else {
            undefined_tree()
        }),
{
    if is_root {
        filename_expr()
    } else {
        undefined_expr()
    }
}

/// The text of an assignment operator.
pub fn assign_op_text(op: AssignOp) -> (r: &'static str)
    ensures
        r@ == assign_op_str(op),
{
    match op {
        AssignOp::Assign => "=",
        AssignOp::AddAssign => "+=",
        AssignOp::SubAssign => "-=",
        AssignOp::MulAssign => "*=",
        AssignOp::DivAssign => "/=",
        AssignOp::ModAssign => "%=",
        AssignOp::LShiftAssign => "<<=",
        AssignOp::RShiftAssign => ">>=",
        AssignOp::ZeroFillRShiftAssign => ">>>=",
        AssignOp::BitOrAssign => "|=",
        AssignOp::BitXorAssign => "^=",
        AssignOp::BitAndAssign => "&=",
        AssignOp::ExpAssign => "**=",
        AssignOp::AndAssign => "&&=",
        AssignOp::OrAssign => "||=",
        AssignOp::NullishAssign => "??=",
    }
}

/// The text of a binary operator.
pub fn bin_op_text(op: BinaryOp) -> (r: &'static str)
    ensures
        r@ == bin_op_str(op),
{
    match op {
        BinaryOp::Add => "+",
        BinaryOp::BitAnd => "&",
        BinaryOp::BitOr => "|",
        BinaryOp::BitXor => "^",
        BinaryOp::Div => "/",
        BinaryOp::EqEq => "==",
        BinaryOp::EqEqEq => "===",
        BinaryOp::Exp => "**",
        BinaryOp::Gt => ">",
        BinaryOp::GtEq => ">=",
        BinaryOp::In => "in",
        BinaryOp::InstanceOf => "instanceof",
        BinaryOp::LogicalAnd => "&&",
        BinaryOp::LogicalOr => "||",
        BinaryOp::LShift => "<<",
        BinaryOp::Lt => "<",
        BinaryOp::LtEq => "<=",
        BinaryOp::Mod => "%",
        BinaryOp::Mul => "*",
        BinaryOp::NotEq => "!=",
        BinaryOp::NotEqEq => "!==",
        BinaryOp::NullishCoalescing => "??",
        BinaryOp::RShift => ">>",
        BinaryOp::Sub => "-",
        BinaryOp::ZeroFillRShift => ">>>",
    }
}

/// The text of a prefix operator emitted as a `UnaryExpr`.
pub fn unary_op_text(op: UnaryOp) -> (r: String)
    ensures
        r@ == unary_op_str(op),
{
    match op {
        UnaryOp::Minus => String::from_str("-"),
        UnaryOp::Plus => String::from_str("+"),
        UnaryOp::Bang => String::from_str("!"),
        UnaryOp::Tilde => String::from_str("~"),
        _ => String::new(),
    }
}

/// The text of an update operator.
pub fn update_op_text(op: UpdateOp) -> (r: &'static str)
    ensures
        r@ == update_op_str(op),
{
    match op {
        UpdateOp::PlusPlus => "++",
        UpdateOp::MinusMinus => "--",
    }
}

/// The number of the keyword of a variable declaration.
pub fn var_kind_number(op: Op) -> (r: i32)
    ensures
        r as i64 == var_kind_num(op),
{
    match op {
        Op::Var(VarDeclKind::Const) => 0,
        Op::Var(VarDeclKind::Let) => 1,
        _ => 2,
    }
}

/// The literal node kind of a literal.
pub fn lit_node_kind(kind: JsKind) -> (r: Node)
    requires
        lit_kind(kind) is Some,
    ensures
        lit_kind(kind) == Some(r),
{
    match kind {
        JsKind::Bool => Node::BooleanLiteralExpr,
        JsKind::BigInt => Node::BigIntExpr,
        JsKind::Null => Node::NullLiteralExpr,
        JsKind::Regex => Node::RegexExpr,
        JsKind::Str => Node::StringLiteralExpr,
        _ => Node::NumberLiteralExpr,
    }
}

/// The message of the error node of a JSX node.
pub fn jsx_text(kind: JsKind) -> (r: &'static str)
    requires
        jsx_message(kind) is Some,
    ensures
        r@ == jsx_message(kind).unwrap(),
{
    match kind {
        JsKind::JsxElement => "not sure what to do with JSXElement",
        JsKind::JsxEmpty => "not sure what to do with JSXEmpty",
        JsKind::JsxFragment => "not sure what to do with JSXFragment",
        JsKind::JsxMember => "not sure what to do with JSXMember",
        JsKind::JsxNamespacedName => "not sure what to do with JSXNamespacedName",
        _ => "not sure what to do with JSXText",
    }
}

/// The `Identifier` node of an identifier.
pub fn identifier_node(ident: &JsNode) -> (r: JsNode)
    ensures
        r@ == identifier_tree(ident@),
{
    proof {
        reveal(identifier_tree);
    }
    node1(Node::Identifier, &ident.span, string_expr_of(&ident.text))
}

/// `() => typeof x !== "undefined" ? x : undefined` for the identifier `x`.
pub fn ref_arrow(ident: &JsNode) -> (r: JsNode)
    ensures
        r@ == ref_arrow_tree(ident@),
{
    proof {
        reveal(ref_arrow_tree);
    }
    let test = not_eq_eq(type_of(ident_expr(ident)), string_expr("undefined"));
    let cons = ident_expr(ident);
    let alt = undefined_expr();
    let ghost (a, b, c) = (test@, cons@, alt@);
    let cond_children = vec![test, cons, alt];
    proof {
        lemma_view_nodes(cond_children@);
        assert(view_nodes(cond_children@) =~= seq![a, b, c]);
    }
    let cond = mk_inner(JsKind::Cond, empty_span(), cond_children);
    let params = mk_inner(JsKind::List, empty_span(), Vec::new());
    proof {
        lemma_view_nodes(params.children@);
        assert(view_nodes(params.children@) =~= Seq::<JsTree>::empty());
    }
    let ghost (p, q) = (params@, cond@);
    let children = vec![params, cond];
    proof {
        lemma_view_nodes(children@);
        assert(view_nodes(children@) =~= seq![p, q]);
    }
    mk_inner(JsKind::Arrow, empty_span(), children)
}

/// The node of a private name `#x`.
pub fn private_name_node(name: &JsNode) -> (r: JsNode)
    ensures
        r@ == private_name_tree(name@),
{
    proof {
        reveal(private_name_tree);
    }
    let mut text = String::from_str("#");
    text.append(name.text.as_str());
    proof {
        reveal_strlit("#");
        assert(text@ =~= seq!['#'] + name@.text);
    }
    node1(Node::PrivateIdentifier, &name.span, string_expr_of(&text))
}

/// The node of a piece of a template literal after the head.
pub fn tpl_literal_node(literal: &JsNode) -> (r: JsNode)
    ensures
        r@ == tpl_literal_tree(literal@),
{
    proof {
        reveal(tpl_literal_tree);
    }
    let kind = if literal.flag {
        Node::TemplateTail
    } else {
        Node::TemplateMiddle
    };
    node1(kind, &literal.span, string_expr_of(&literal.text))
}

/// The nodes of a vector in reverse order, so that popping gives them in
/// order.
pub fn reversed(v: Vec<JsNode>) -> (r: Vec<JsNode>)
    ensures
        r@.len() == v@.len(),
        forall|k: int| 0 <= k < v@.len() ==> #[trigger] r@[k] == v@[v@.len() - 1 - k],
{
    let ghost s = v@;
    let mut v = v;
    let mut r: Vec<JsNode> = Vec::new();
    while v.len() > 0
        invariant
            v@.len() + r@.len() == s.len(),
            forall|k: int| 0 <= k < v@.len() ==> #[trigger] v@[k] == s[k],
            forall|k: int| 0 <= k < r@.len() ==> #[trigger] r@[k] == s[s.len() - 1 - k],
        decreases v@.len(),
    {
        let e = v.pop().unwrap();
        r.push(e);
    }
    r
}

/// `a, b, c` folded from the left into binary `,` nodes.
pub fn fold_seq(parsed: Vec<JsNode>, exprs: &Vec<JsNode>) -> (r: JsNode)
    requires
        0 < parsed@.len() <= exprs@.len(),
    ensures
        r@ == seq_fold(view_nodes(parsed@), view_nodes(exprs@)),
{
    let ghost p = view_nodes(parsed@);
    let ghost e = view_nodes(exprs@);
    proof {
        lemma_view_nodes(parsed@);
        lemma_view_nodes(exprs@);
    }
    let n = parsed.len();
    let mut rest = reversed(parsed);
    let mut acc = rest.pop().unwrap();
    proof {
        assert(p.subrange(0, 1).len() == 1);
        assert(seq_fold(p.subrange(0, 1), e) == p.subrange(0, 1)[0]);
    }
    let mut i: usize = 1;
    while i < n
        invariant
            1 <= i <= n,
            n == p.len(),
            n <= exprs@.len(),
            e == view_nodes(exprs@),
            e.len() == exprs@.len(),
            forall|k: int| 0 <= k < exprs@.len() ==> #[trigger] e[k] == exprs@[k]@,
            rest@.len() == n - i,
            forall|k: int| 0 <= k < rest@.len() ==> #[trigger] rest@[k]@ == p[n - 1 - k],
            acc@ == seq_fold(p.subrange(0, i as int), e),
        decreases n - i,
    {
        let next = rest.pop().unwrap();
        let span = concat_span(&get_expr_span(&acc), &get_expr_span(&exprs[i]));
        let ghost prev = acc@;
        acc = node3(Node::BinaryExpr, &span, acc, string_expr(","), next);
        proof {
            let q = p.subrange(0, i + 1);
            assert(q.drop_last() =~= p.subrange(0, i as int));
            assert(q[q.len() - 1] == p[i as int]);
        }
        i += 1;
    }
    proof {
        assert(p.subrange(0, n as int) =~= p);
    }
    acc
}

impl ClosureDecorator {
    /// What an identifier is emitted as; see [`ident_result`].
    pub fn parse_ident(&mut self, ident: &JsNode, is_ref: bool) -> (r: JsNode)
        requires
            old(self).vm@.len() > 0,
        ensures
            parse_frame(*old(self), *final(self)),
            (r@, final(self).ids) == ident_result(ident@, is_ref, visible(*old(self)), old(self).ids),
    {
        proof {
            reveal(ident_result);
        }
        let undefined = String::from_str("undefined");
        let arguments = String::from_str("arguments");
        if is_ref && ident.text == undefined {
            node0(Node::UndefinedLiteralExpr, &ident.span)
        } else if is_ref && ident.text == arguments && !self.vm.is_id_visible(ident) {
            identifier_node(ident)
        } else if is_ref && !self.vm.is_id_visible(ident) {
            let name = string_expr_of(&ident.text);
            let pointer = ref_arrow(ident);
            let ctxt = number_i32(ident.span.ctxt as i32);
            let id = self.next_id();
            let id_node = number_u32(id);
            node4(Node::ReferenceExpr, &ident.span, name, pointer, ctxt, id_node)
        } else {
            identifier_node(ident)
        }
    }

    /// Parses the first `n` nodes of `s`, in order, at the position `mode`.
    pub fn parse_list(&mut self, mode: ListMode, s: &Vec<JsNode>, n: usize) -> (r: Vec<JsNode>)
        requires
            n <= s@.len(),
            parse_pre_all(*old(self), s@),
        ensures
            parse_frame(*old(self), *final(self)),
            r@.len() == n,
            (view_nodes(r@), final(self).ids) == p_list(mode, view_nodes(s@).subrange(0, n as int), visible(*old(self)), old(self).ids),
            n == s@.len() ==> (view_nodes(r@), final(self).ids) == p_list(mode, view_nodes(s@), visible(*old(self)), old(self).ids),
        decreases s, 0int,
    {
        let ghost vs = view_nodes(s@);
        let ghost vis = visible(*self);
        let ghost ids0 = self.ids;
        proof {
            lemma_view_nodes(s@);
            assert(vs.subrange(0, 0) =~= Seq::<JsTree>::empty());
            lemma_view_nodes(Seq::<JsNode>::empty());
            assert(view_nodes(Seq::<JsNode>::empty()) =~= Seq::<JsTree>::empty());
        }
        let mut out: Vec<JsNode> = Vec::new();
        let mut i: usize = 0;
        while i < n
            invariant
                i <= n <= s@.len(),
                vs == view_nodes(s@),
                vs.len() == s@.len(),
                forall|k: int| 0 <= k < s@.len() ==> #[trigger] vs[k] == s@[k]@,
                parse_pre_all(*self, s@),
                parse_frame(*old(self), *self),
                vis == visible(*old(self)),
                ids0 == old(self).ids,
                (view_nodes(out@), self.ids) == p_list(mode, vs.subrange(0, i as int), vis, ids0),
                out@.len() == i,
            decreases n - i,
        {
            proof {
                assert(decreases_to!(s => s@));
                assert(decreases_to!(s@ => s@[i as int]));
            }
            let item = self.parse_item(mode, &s[i]);
            proof {
                let q = vs.subrange(0, i + 1);
                assert(q.subrange(0, q.len() - 1) =~= vs.subrange(0, i as int));
                assert(q[q.len() - 1] == s@[i as int]@);
                lemma_view_nodes_push(out@, item);
            }
            out.push(item);
            i += 1;
        }
        proof {
            if n == s@.len() {
                assert(vs.subrange(0, n as int) =~= vs);
            }
        }
        out
    }

    /// Parses a node at the position `mode`.
    pub fn parse_item(&mut self, mode: ListMode, t: &JsNode) -> (r: JsNode)
        requires
            parse_pre(*old(self), t@),
        ensures
            parse_frame(*old(self), *final(self)),
            (r@, final(self).ids) == p_item(mode, t@, visible(*old(self)), old(self).ids),
        decreases t, 9int,
    {
        proof {
            lemma_node(*t);
        }
        match mode {
            ListMode::Expr => self.parse_expr(t),
            ListMode::Stmt => self.parse_stmt(t),
            ListMode::ArrayElem => self.parse_array_elem(t),
            ListMode::CallArg => self.parse_call_arg(t),
            ListMode::ObjProp => self.parse_obj_prop(t),
            ListMode::ClassMember(is_root) => self.parse_class_member(t, is_root),
            ListMode::Param => self.parse_param(t),
            ListMode::PatParam => self.parse_pat_param(t, None),
            ListMode::CtorParam => self.parse_ctor_param(t),
            ListMode::SwitchCase => self.parse_switch_case(t),
            ListMode::VarDeclarator => self.parse_var_declarator(t),
            ListMode::ArrayPatElem(is_ref) => self.parse_array_pat_elem(t, is_ref),
            ListMode::ObjPatProp(is_ref) => self.parse_obj_pat_prop(t, is_ref),
        }
    }

}

} // verus!
