//! What the transform emits for each piece of syntax: the Functionless AST
//! of a node, as a JavaScript expression.
//!
//! Every Functionless AST node is emitted as an array literal
//! `[kind, [line, col], ...args]` (see [`fl_node`]). The functions below say,
//! for each position that a syntax node can stand in, which expression is
//! emitted for it. They take the names visible at that point (`vis`) and the
//! counter of reference ids (`ids`), and give the emitted expression with the
//! counter after it; a free variable takes the next id.
//!
//! A node whose kind cannot stand in the position it is found in is emitted
//! as an error node.
use vstd::prelude::*;

use crate::ast::{spec_node_kind_id, Node};
use crate::js::{
    view_node, JsNode, absent_tree, arity, dummy_span, inner_tree, well_formed, AssignOp, BinaryOp, JsKind, JsTree,
    MethodKind, Op, Span, UnaryOp, UpdateOp, VarDeclKind,
};
use crate::js_util::{
    array_elems_tree, array_tree, arrow_pointer_tree, as_ident_tree, bool_tree, eos_tree, filename_tree, int_tree,
    not_eq_eq_tree, ref_tree, str_tree, this_tree, type_of_tree, undefined_tree,
};
use crate::span::{expr_span, pat_span, spec_concat_span, stmt_span};
use crate::virtual_machine::{
    ctor_params_ids, declarators_ids, params_ids, pat_ids, pats_ids, stmts_ids, tree_id, IdView,
};

verus! {

/// The line and column at which a node is reported: those of the start of
/// its span, or line 1, column 0 for a span that starts at 0.
pub open spec fn line_col(span: Span) -> (u32, u32) {
    if span.lo == 0 {
        (1, 0)
    } else {
        (span.line, span.col)
    }
}

/// A Functionless AST node: `[kind, [line, col], ...args]`.
#[verifier::opaque]
pub open spec fn fl_node(kind: Node, span: Span, args: Seq<JsTree>) -> JsTree {
    let (line, col) = line_col(span);
    array_tree(
        seq![int_tree(spec_node_kind_id(kind) as i64), array_tree(seq![int_tree(line as i64), int_tree(col as i64)])]
            + args,
    )
}

/// An error node with the given message.
#[verifier::opaque]
pub open spec fn error_tree(message: Seq<char>, span: Span) -> JsTree {
    fl_node(Node::Error, span, seq![str_tree(message)])
}

/// The error node of a node that cannot stand where it was found.
pub open spec fn misplaced_tree(t: JsTree) -> JsTree {
    error_tree("Syntax Error"@, t.span)
}

/// The value of the reference counter after one more id was taken.
pub open spec fn next_id_spec(ids: u32) -> u32 {
    if ids == u32::MAX {
        0
    } else {
        (ids + 1) as u32
    }
}

/// Whether a node has the number of children that its kind asks for.
pub open spec fn arity_ok(t: JsTree) -> bool {
    arity(t.kind) matches Some(n) ==> t.children.len() == n
}

/// `() => typeof x !== "undefined" ? x : undefined` for the identifier `x`.
#[verifier::opaque]
pub open spec fn ref_arrow_tree(t: JsTree) -> JsTree {
    let x = as_ident_tree(t);
    inner_tree(
        JsKind::Arrow,
        dummy_span(),
        seq![
            inner_tree(JsKind::List, dummy_span(), Seq::empty()),
            inner_tree(
                JsKind::Cond,
                dummy_span(),
                seq![not_eq_eq_tree(type_of_tree(x), str_tree("undefined"@)), x, undefined_tree()],
            ),
        ],
    )
}

/// The `Identifier` node of an identifier.
#[verifier::opaque]
pub open spec fn identifier_tree(t: JsTree) -> JsTree {
    fl_node(Node::Identifier, t.span, seq![str_tree(t.text)])
}

/// What an identifier is emitted as. Where it is read (`is_ref`):
/// `undefined` is the undefined literal, `arguments` that is not bound is an
/// identifier, and any other name that is not visible is a free variable: a
/// reference node that holds a pointer to it, its syntax context and a fresh
/// id. Anything else is an identifier node.
#[verifier::opaque]
pub open spec fn ident_result(t: JsTree, is_ref: bool, vis: Set<IdView>, ids: u32) -> (JsTree, u32) {
    if is_ref && t.text == "undefined"@ {
        (fl_node(Node::UndefinedLiteralExpr, t.span, Seq::empty()), ids)
    } else if is_ref && t.text == "arguments"@ && !vis.contains(tree_id(t)) {
        (identifier_tree(t), ids)
    } else if is_ref && !vis.contains(tree_id(t)) {
        let id = next_id_spec(ids);
        (
            fl_node(
                Node::ReferenceExpr,
                t.span,
                seq![
                    str_tree(t.text),
                    ref_arrow_tree(t),
                    int_tree((t.span.ctxt as i32) as i64),
                    int_tree(id as i64),
                ],
            ),
            id,
        )
    } else {
        (identifier_tree(t), ids)
    }
}

/// The node of a private name `#x`.
#[verifier::opaque]
pub open spec fn private_name_tree(t: JsTree) -> JsTree {
    fl_node(Node::PrivateIdentifier, t.span, seq![str_tree(seq!['#'] + t.text)])
}

/// The text of an assignment operator.
pub open spec fn assign_op_str(op: AssignOp) -> Seq<char> {
    match op {
        AssignOp::Assign => "="@,
        AssignOp::AddAssign => "+="@,
        AssignOp::SubAssign => "-="@,
        AssignOp::MulAssign => "*="@,
        AssignOp::DivAssign => "/="@,
        AssignOp::ModAssign => "%="@,
        AssignOp::LShiftAssign => "<<="@,
        AssignOp::RShiftAssign => ">>="@,
        AssignOp::ZeroFillRShiftAssign => ">>>="@,
        AssignOp::BitOrAssign => "|="@,
        AssignOp::BitXorAssign => "^="@,
        AssignOp::BitAndAssign => "&="@,
        AssignOp::ExpAssign => "**="@,
        AssignOp::AndAssign => "&&="@,
        AssignOp::OrAssign => "||="@,
        AssignOp::NullishAssign => "??="@,
    }
}

/// The text of a binary operator.
pub open spec fn bin_op_str(op: BinaryOp) -> Seq<char> {
    match op {
        BinaryOp::Add => "+"@,
        BinaryOp::BitAnd => "&"@,
        BinaryOp::BitOr => "|"@,
        BinaryOp::BitXor => "^"@,
        BinaryOp::Div => "/"@,
        BinaryOp::EqEq => "=="@,
        BinaryOp::EqEqEq => "==="@,
        BinaryOp::Exp => "**"@,
        BinaryOp::Gt => ">"@,
        BinaryOp::GtEq => ">="@,
        BinaryOp::In => "in"@,
        BinaryOp::InstanceOf => "instanceof"@,
        BinaryOp::LogicalAnd => "&&"@,
        BinaryOp::LogicalOr => "||"@,
        BinaryOp::LShift => "<<"@,
        BinaryOp::Lt => "<"@,
        BinaryOp::LtEq => "<="@,
        BinaryOp::Mod => "%"@,
        BinaryOp::Mul => "*"@,
        BinaryOp::NotEq => "!="@,
        BinaryOp::NotEqEq => "!=="@,
        BinaryOp::NullishCoalescing => "??"@,
        BinaryOp::RShift => ">>"@,
        BinaryOp::Sub => "-"@,
        BinaryOp::ZeroFillRShift => ">>>"@,
    }
}

/// The text of a prefix operator that is emitted as a `UnaryExpr`.
pub open spec fn unary_op_str(op: UnaryOp) -> Seq<char> {
    match op {
        UnaryOp::Minus => "-"@,
        UnaryOp::Plus => "+"@,
        UnaryOp::Bang => "!"@,
        UnaryOp::Tilde => "~"@,
        _ => Seq::empty(),
    }
}

/// The text of an update operator.
pub open spec fn update_op_str(op: UpdateOp) -> Seq<char> {
    match op {
        UpdateOp::PlusPlus => "++"@,
        UpdateOp::MinusMinus => "--"@,
    }
}

/// The number by which the keyword of a variable declaration is emitted.
pub open spec fn var_kind_num(op: Op) -> i64 {
    match op {
        Op::Var(VarDeclKind::Const) => 0,
        Op::Var(VarDeclKind::Let) => 1,
        _ => 2,
    }
}

/// The kind of literal node a literal is emitted as, if it is one.
pub open spec fn lit_kind(k: JsKind) -> Option<Node> {
    match k {
        JsKind::Bool => Some(Node::BooleanLiteralExpr),
        JsKind::BigInt => Some(Node::BigIntExpr),
        JsKind::Null => Some(Node::NullLiteralExpr),
        JsKind::Num | JsKind::Int => Some(Node::NumberLiteralExpr),
        JsKind::Regex => Some(Node::RegexExpr),
        JsKind::Str => Some(Node::StringLiteralExpr),
        _ => None,
    }
}

/// The message of the error node that a JSX node is emitted as, if it is one.
pub open spec fn jsx_message(k: JsKind) -> Option<Seq<char>> {
    match k {
        JsKind::JsxElement => Some("not sure what to do with JSXElement"@),
        JsKind::JsxEmpty => Some("not sure what to do with JSXEmpty"@),
        JsKind::JsxFragment => Some("not sure what to do with JSXFragment"@),
        JsKind::JsxMember => Some("not sure what to do with JSXMember"@),
        JsKind::JsxNamespacedName => Some("not sure what to do with JSXNamespacedName"@),
        JsKind::JsxText => Some("not sure what to do with JSXText"@),
        _ => None,
    }
}

/// Whether a node kind is a binding pattern.
pub open spec fn is_pat_kind(k: JsKind) -> bool {
    match k {
        JsKind::BindingIdent | JsKind::ArrayPat | JsKind::ObjectPat | JsKind::AssignPat
        | JsKind::RestPat | JsKind::InvalidPat | JsKind::ExprPat => true,
        _ => false,
    }
}

/// A block of one statement.
#[verifier::opaque]
pub open spec fn block_of(span: Span, stmt: JsTree) -> JsTree {
    fl_node(Node::BlockStmt, span, seq![array_tree(seq![stmt])])
}

/// The template literal piece `literal` (raw text), as the head is not.
#[verifier::opaque]
pub open spec fn tpl_literal_tree(literal: JsTree) -> JsTree {
    fl_node(
        if literal.flag {
            Node::TemplateTail
        } else {
            Node::TemplateMiddle
        },
        literal.span,
        seq![str_tree(literal.text)],
    )
}

/// The spans of a template: each parsed expression with the literal that
/// follows it.
#[verifier::opaque]
pub open spec fn tpl_spans(exprs: Seq<JsTree>, quasis: Seq<JsTree>, parsed: Seq<JsTree>) -> Seq<JsTree> {
    Seq::new(
        parsed.len(),
        |i: int|
            fl_node(
                Node::TemplateSpan,
                spec_concat_span(expr_span(exprs[i]), quasis[i + 1].span),
                seq![parsed[i], tpl_literal_tree(quasis[i + 1])],
            ),
    )
}

/// The number of spans of a template: as many as there are expressions with a
/// literal after them.
pub open spec fn tpl_span_count(exprs: Seq<JsTree>, quasis: Seq<JsTree>) -> nat {
    if exprs.len() + 1 <= quasis.len() {
        exprs.len()
    } else if quasis.len() > 0 {
        (quasis.len() - 1) as nat
    } else {
        0
    }
}

/// `a, b, c` folded from the left into binary `,` nodes, from the parsed
/// expressions and the source expressions.
pub open spec fn seq_fold(parsed: Seq<JsTree>, exprs: Seq<JsTree>) -> JsTree
    decreases parsed.len(),
{
    if parsed.len() <= 1 {
        if parsed.len() == 1 {
            parsed[0]
        } else {
            misplaced_tree(absent_tree())
        }
    } else {
        let left = seq_fold(parsed.drop_last(), exprs);
        let i = parsed.len() - 1;
        fl_node(
            Node::BinaryExpr,
            spec_concat_span(expr_span(left), expr_span(exprs[i])),
            seq![left, str_tree(","@), parsed[i]],
        )
    }
}

/// The span of an argument: from its `...` to the end of its expression, or
/// that of its expression.
pub open spec fn arg_span(t: JsTree) -> Span {
    if t.flag {
        spec_concat_span(t.span, expr_span(t.children[0]))
    } else {
        expr_span(t.children[0])
    }
}

/// The positions that a list of nodes is parsed in.
#[derive(Clone, Copy, Debug)]
pub enum ListMode {
    Expr,
    Stmt,
    ArrayElem,
    CallArg,
    ObjProp,
    ClassMember(bool),
    Param,
    PatParam,
    CtorParam,
    SwitchCase,
    VarDeclarator,
    ArrayPatElem(bool),
    ObjPatProp(bool),
}

/// What a node at the position `mode` is emitted as. For `ClassMember` it is
/// the element of the array of members: the node in an array element, or a
/// hole.
pub open spec fn p_item(mode: ListMode, t: JsTree, vis: Set<IdView>, ids: u32) -> (JsTree, u32)
    decreases t, 9int,
{
    match mode {
        ListMode::Expr => p_expr(t, vis, ids),
        ListMode::Stmt => p_stmt(t, vis, ids),
        ListMode::ArrayElem => p_array_elem(t, vis, ids),
        ListMode::CallArg => p_call_arg(t, vis, ids),
        ListMode::ObjProp => p_obj_prop(t, vis, ids),
        ListMode::ClassMember(is_root) => p_class_member(t, is_root, vis, ids),
        ListMode::Param => p_param(t, vis, ids),
        ListMode::PatParam => p_pat_param(t, None, vis, ids),
        ListMode::CtorParam => p_ctor_param(t, vis, ids),
        ListMode::SwitchCase => p_switch_case(t, vis, ids),
        ListMode::VarDeclarator => p_var_declarator(t, vis, ids),
        ListMode::ArrayPatElem(is_ref) => p_array_pat_elem(t, is_ref, vis, ids),
        ListMode::ObjPatProp(is_ref) => p_obj_pat_prop(t, is_ref, vis, ids),
    }
}

/// What a sequence of nodes at the position `mode` is emitted as, parsed in
/// order, each taking the counter that the one before it left.
pub open spec fn p_list(mode: ListMode, s: Seq<JsTree>, vis: Set<IdView>, ids: u32) -> (Seq<JsTree>, u32)
    decreases s, 0int,
{
    if s.len() == 0 {
        (Seq::empty(), ids)
    } else {
        let (a, k) = p_list(mode, s.subrange(0, s.len() - 1), vis, ids);
        let (b, k2) = p_item(mode, s[s.len() - 1], vis, k);
        (a.push(b), k2)
    }
}

/// An expression: dispatched on its kind.
pub open spec fn p_expr(t: JsTree, vis: Set<IdView>, ids: u32) -> (JsTree, u32)
    decreases t, 1int,
{
    if !arity_ok(t) {
        (misplaced_tree(t), ids)
    } else {
        match t.kind {
            JsKind::Array => p_e_array(t, vis, ids),
            JsKind::Arrow => p_arrow(t, false, vis, ids),
            JsKind::Assign | JsKind::Bin => p_e_binary(t, vis, ids),
            JsKind::Await | JsKind::Paren => p_e_wrap(t, vis, ids),
            JsKind::Call => p_e_call(t, vis, ids),
            JsKind::ClassExpr => p_class_like(t, false, vis, ids),
            JsKind::Cond => p_e_cond(t, vis, ids),
            JsKind::FnExpr => p_fn_expr(t, false, vis, ids),
            JsKind::Ident => ident_result(t, true, vis, ids),
            JsKind::Invalid => (error_tree("Syntax Error"@, t.span), ids),
            JsKind::JsxMember => (error_tree("not sure what to do with JSXMember"@, t.children[0].span), ids),
            JsKind::JsxElement | JsKind::JsxEmpty | JsKind::JsxFragment | JsKind::JsxNamespacedName
            | JsKind::JsxText => (error_tree(jsx_message(t.kind).unwrap(), t.span), ids),
            JsKind::Bool | JsKind::BigInt | JsKind::Null | JsKind::Num | JsKind::Int | JsKind::Regex
            | JsKind::Str => (fl_node(lit_kind(t.kind).unwrap(), t.span, seq![t]), ids),
            JsKind::Member => p_member(t, false, vis, ids),
            JsKind::MetaProp => (error_tree("MetaProp is not supported"@, t.span), ids),
            JsKind::New => p_e_new(t, vis, ids),
            JsKind::Object => p_e_object(t, vis, ids),
            JsKind::OptChain => p_e_opt_chain(t, vis, ids),
            JsKind::PrivateName => (private_name_tree(t), ids),
            JsKind::SeqExpr => p_e_seq(t, vis, ids),
            JsKind::SuperProp => p_e_super_prop(t, vis, ids),
            JsKind::Tpl => p_template(t, vis, ids),
            JsKind::TaggedTpl => p_e_tagged_tpl(t, vis, ids),
            JsKind::This => (fl_node(Node::ThisExpr, t.span, seq![arrow_pointer_tree(t)]), ids),
            JsKind::TsWrapper => p_expr(t.children[0], vis, ids),
            JsKind::Unary => p_e_unary(t, vis, ids),
            JsKind::Update => p_e_update(t, vis, ids),
            JsKind::Yield => p_e_yield(t, vis, ids),
            _ => (misplaced_tree(t), ids),
        }
    }
}

/// An array literal.
pub open spec fn p_e_array(t: JsTree, vis: Set<IdView>, ids: u32) -> (JsTree, u32)
    decreases t, 0int,
{
    let (elems, k) = p_list(ListMode::ArrayElem, t.children, vis, ids);
    (fl_node(Node::ArrayLiteralExpr, t.span, seq![array_tree(elems)]), k)
}

/// An assignment or a binary expression: `[left, op, right]`. The left of
/// an assignment is read, not bound.
pub open spec fn p_e_binary(t: JsTree, vis: Set<IdView>, ids: u32) -> (JsTree, u32)
    decreases t, 0int,
{
    if t.children.len() != 2 {
        (misplaced_tree(t), ids)
    } else {
        let (l, k) = if t.kind == JsKind::Assign {
            p_pat(t.children[0], true, vis, ids)
        } else {
            p_expr(t.children[0], vis, ids)
        };
        let (r, k2) = p_expr(t.children[1], vis, k);
        let op = match t.op {
            Op::Assign(op) => assign_op_str(op),
            Op::Bin(op) => bin_op_str(op),
            _ => Seq::empty(),
        };
        (fl_node(Node::BinaryExpr, t.span, seq![l, str_tree(op), r]), k2)
    }
}

/// An `await` or a parenthesized expression.
pub open spec fn p_e_wrap(t: JsTree, vis: Set<IdView>, ids: u32) -> (JsTree, u32)
    decreases t, 0int,
{
    if t.children.len() != 1 {
        (misplaced_tree(t), ids)
    } else {
        let (a, k) = p_expr(t.children[0], vis, ids);
        (
            fl_node(
                if t.kind == JsKind::Await {
                    Node::AwaitExpr
                } else {
                    Node::ParenthesizedExpr
                },
                t.span,
                seq![a],
            ),
            k,
        )
    }
}

/// A call: `super(..)` and `import(..)` call keywords.
pub open spec fn p_e_call(t: JsTree, vis: Set<IdView>, ids: u32) -> (JsTree, u32)
    decreases t, 0int,
{
    if t.children.len() != 2 {
        (misplaced_tree(t), ids)
    } else {
        let callee = t.children[0];
        let (c, k) = if callee.kind == JsKind::Super {
            (fl_node(Node::SuperKeyword, callee.span, Seq::empty()), ids)
        } else if callee.kind == JsKind::Import {
            (fl_node(Node::ImportKeyword, callee.span, Seq::empty()), ids)
        } else {
            p_expr(callee, vis, ids)
        };
        let (args, k2) = p_list(ListMode::CallArg, t.children[1].children, vis, k);
        (fl_node(Node::CallExpr, t.span, seq![c, array_tree(args), bool_tree(false)]), k2)
    }
}

/// A conditional expression.
pub open spec fn p_e_cond(t: JsTree, vis: Set<IdView>, ids: u32) -> (JsTree, u32)
    decreases t, 0int,
{
    if t.children.len() != 3 {
        (misplaced_tree(t), ids)
    } else {
        let (a, k) = p_expr(t.children[0], vis, ids);
        let (b, k2) = p_expr(t.children[1], vis, k);
        let (c, k3) = p_expr(t.children[2], vis, k2);
        (fl_node(Node::ConditionExpr, t.span, seq![a, b, c]), k3)
    }
}

/// A `new` expression; one without arguments has an empty array of them.
pub open spec fn p_e_new(t: JsTree, vis: Set<IdView>, ids: u32) -> (JsTree, u32)
    decreases t, 0int,
{
    if t.children.len() != 2 {
        (misplaced_tree(t), ids)
    } else {
        let (c, k) = p_expr(t.children[0], vis, ids);
        let (args, k2) = if t.children[1].kind == JsKind::Absent {
            (array_tree(Seq::empty()), k)
        } else {
            let (a, k2) = p_list(ListMode::CallArg, t.children[1].children, vis, k);
            (array_tree(a), k2)
        };
        (fl_node(Node::NewExpr, t.span, seq![c, args]), k2)
    }
}

/// An object literal.
pub open spec fn p_e_object(t: JsTree, vis: Set<IdView>, ids: u32) -> (JsTree, u32)
    decreases t, 0int,
{
    let (props, k) = p_list(ListMode::ObjProp, t.children, vis, ids);
    (fl_node(Node::ObjectLiteralExpr, t.span, seq![array_tree(props)]), k)
}

/// An optional chain: an optional call, or an optional member access.
pub open spec fn p_e_opt_chain(t: JsTree, vis: Set<IdView>, ids: u32) -> (JsTree, u32)
    decreases t, 0int,
{
    if t.children.len() != 1 {
        (misplaced_tree(t), ids)
    } else {
        let base = t.children[0];
        if base.kind == JsKind::OptCall && base.children.len() == 2 {
            let (c, k) = p_expr(base.children[0], vis, ids);
            let (args, k2) = p_list(ListMode::CallArg, base.children[1].children, vis, k);
            (fl_node(Node::CallExpr, base.span, seq![c, array_tree(args), bool_tree(true)]), k2)
        } else {
            p_member(base, true, vis, ids)
        }
    }
}

/// A sequence expression, folded from the left into `,` nodes.
pub open spec fn p_e_seq(t: JsTree, vis: Set<IdView>, ids: u32) -> (JsTree, u32)
    decreases t, 0int,
{
    if t.children.len() == 0 {
        (misplaced_tree(t), ids)
    } else {
        let (parsed, k) = p_list(ListMode::Expr, t.children, vis, ids);
        (seq_fold(parsed, t.children), k)
    }
}

/// A property of `super`.
pub open spec fn p_e_super_prop(t: JsTree, vis: Set<IdView>, ids: u32) -> (JsTree, u32)
    decreases t, 0int,
{
    if t.children.len() != 2 {
        (misplaced_tree(t), ids)
    } else {
        let sup = fl_node(Node::SuperKeyword, t.children[0].span, Seq::empty());
        let prop = t.children[1];
        let (p, k) = if prop.kind == JsKind::Computed && prop.children.len() == 1 {
            let (e, k) = p_expr(prop.children[0], vis, ids);
            (fl_node(Node::ComputedPropertyNameExpr, prop.span, seq![e]), k)
        } else {
            ident_result(prop, false, vis, ids)
        };
        (fl_node(Node::PropAccessExpr, t.span, seq![sup, p]), k)
    }
}

/// A tagged template.
pub open spec fn p_e_tagged_tpl(t: JsTree, vis: Set<IdView>, ids: u32) -> (JsTree, u32)
    decreases t, 0int,
{
    if t.children.len() != 2 {
        (misplaced_tree(t), ids)
    } else {
        let (tag, k) = p_expr(t.children[0], vis, ids);
        let (tpl, k2) = p_template(t.children[1], vis, k);
        (fl_node(Node::TaggedTemplateExpr, t.span, seq![tag, tpl]), k2)
    }
}

/// A prefix operator: `typeof`, `void` and `delete` have nodes of their own.
pub open spec fn p_e_unary(t: JsTree, vis: Set<IdView>, ids: u32) -> (JsTree, u32)
    decreases t, 0int,
{
    if t.children.len() != 1 {
        (misplaced_tree(t), ids)
    } else {
        let (a, k) = p_expr(t.children[0], vis, ids);
        match t.op {
            Op::Unary(UnaryOp::TypeOf) => (fl_node(Node::TypeOfExpr, t.span, seq![a]), k),
            Op::Unary(UnaryOp::Void) => (fl_node(Node::VoidExpr, t.span, seq![a]), k),
            Op::Unary(UnaryOp::Delete) => (fl_node(Node::DeleteExpr, t.span, seq![a]), k),
            Op::Unary(op) => (fl_node(Node::UnaryExpr, t.span, seq![str_tree(unary_op_str(op)), a]), k),
            _ => (fl_node(Node::UnaryExpr, t.span, seq![str_tree(Seq::empty()), a]), k),
        }
    }
}

/// An increment or decrement, prefix or postfix.
pub open spec fn p_e_update(t: JsTree, vis: Set<IdView>, ids: u32) -> (JsTree, u32)
    decreases t, 0int,
{
    if t.children.len() != 1 {
        (misplaced_tree(t), ids)
    } else {
        let (a, k) = p_expr(t.children[0], vis, ids);
        let op = match t.op {
            Op::Update(op) => update_op_str(op),
            _ => Seq::empty(),
        };
        (
            fl_node(
                if t.flag {
                    Node::UnaryExpr
                } else {
                    Node::PostfixUnaryExpr
                },
                t.span,
                seq![str_tree(op), a],
            ),
            k,
        )
    }
}

/// A `yield`: `[argument, delegate]`.
pub open spec fn p_e_yield(t: JsTree, vis: Set<IdView>, ids: u32) -> (JsTree, u32)
    decreases t, 0int,
{
    if t.children.len() != 1 {
        (misplaced_tree(t), ids)
    } else {
        let (a, k) = if t.children[0].kind == JsKind::Absent {
            (undefined_tree(), ids)
        } else {
            p_expr(t.children[0], vis, ids)
        };
        (fl_node(Node::YieldExpr, t.span, seq![a, bool_tree(t.flag)]), k)
    }
}

/// A member access, optional or not: `obj.prop`, `obj.#prop` or
/// `obj[expr]`.
pub open spec fn p_member(t: JsTree, is_optional: bool, vis: Set<IdView>, ids: u32) -> (JsTree, u32)
    decreases t, 0int,
{
    if t.children.len() != 2 {
        (misplaced_tree(t), ids)
    } else {
        let prop = t.children[1];
        let (o, k) = p_expr(t.children[0], vis, ids);
        let (p, k2) = if prop.kind == JsKind::Computed && prop.children.len() == 1 {
            p_expr(prop.children[0], vis, k)
        } else if prop.kind == JsKind::PrivateName {
            (private_name_tree(prop), k)
        } else {
            ident_result(prop, false, vis, k)
        };
        (
            fl_node(
                if prop.kind == JsKind::Computed {
                    Node::ElementAccessExpr
                } else {
                    Node::PropAccessExpr
                },
                t.span,
                seq![o, p, bool_tree(is_optional)],
            ),
            k2,
        )
    }
}

/// An element of an array literal: a hole is an omitted expression.
pub open spec fn p_array_elem(t: JsTree, vis: Set<IdView>, ids: u32) -> (JsTree, u32)
    decreases t, 1int,
{
    if t.kind == JsKind::ExprOrSpread && t.children.len() == 1 {
        let (e, k) = p_expr(t.children[0], vis, ids);
        if t.flag {
            (fl_node(Node::SpreadElementExpr, t.span, seq![e]), k)
        } else {
            (e, k)
        }
    } else {
        (fl_node(Node::OmittedExpr, dummy_span(), Seq::empty()), ids)
    }
}

/// An argument of a call.
pub open spec fn p_call_arg(t: JsTree, vis: Set<IdView>, ids: u32) -> (JsTree, u32)
    decreases t, 1int,
{
    if t.kind == JsKind::ExprOrSpread && t.children.len() == 1 {
        let span = arg_span(t);
        let (e, k) = p_expr(t.children[0], vis, ids);
        if t.flag {
            (fl_node(Node::Argument, span, seq![fl_node(Node::SpreadElementExpr, span, seq![e])]), k)
        } else {
            (fl_node(Node::Argument, span, seq![e]), k)
        }
    } else {
        (misplaced_tree(t), ids)
    }
}

/// A property of an object literal.
pub open spec fn p_obj_prop(t: JsTree, vis: Set<IdView>, ids: u32) -> (JsTree, u32)
    decreases t, 1int,
{
    if !arity_ok(t) {
        (misplaced_tree(t), ids)
    } else {
        match t.kind {
            JsKind::PropGetter => {
                let (key, k) = p_prop_name(t.children[0], vis, ids);
                let (body, k2) = p_block(t.children[1], vis, k);
                (fl_node(Node::GetAccessorDecl, t.span, seq![key, body, bool_tree(false), undefined_tree()]), k2)
            },
            JsKind::PropKeyValue => {
                let (key, k) = p_prop_name(t.children[0], vis, ids);
                let (value, k2) = p_expr(t.children[1], vis, k);
                (
                    fl_node(
                        Node::PropAssignExpr,
                        spec_concat_span(t.children[0].span, expr_span(t.children[1])),
                        seq![key, value],
                    ),
                    k2,
                )
            },
            JsKind::PropMethod => p_method(t, false, vis, ids),
            JsKind::PropSetter => {
                let vis2 = vis.union(pat_ids(t.children[1]));
                let (key, k) = p_prop_name(t.children[0], vis2, ids);
                let (param, k2) = p_pat_param(t.children[1], None, vis2, k);
                let (body, k3) = p_block(t.children[2], vis2, k2);
                (
                    fl_node(
                        Node::SetAccessorDecl,
                        t.span,
                        seq![key, param, body, bool_tree(false), undefined_tree()],
                    ),
                    k3,
                )
            },
            JsKind::PropShorthand => {
                let ident = t.children[0];
                let (a, k) = ident_result(ident, false, vis, ids);
                let (b, k2) = ident_result(ident, true, vis, k);
                (fl_node(Node::PropAssignExpr, ident.span, seq![a, b]), k2)
            },
            JsKind::Spread => {
                let (e, k) = p_expr(t.children[0], vis, ids);
                (
                    fl_node(
                        Node::SpreadAssignExpr,
                        spec_concat_span(t.span, expr_span(t.children[0])),
                        seq![e],
                    ),
                    k,
                )
            },
            _ => (misplaced_tree(t), ids),
        }
    }
}

/// A property name.
pub open spec fn p_prop_name(t: JsTree, vis: Set<IdView>, ids: u32) -> (JsTree, u32)
    decreases t, 1int,
{
    match t.kind {
        JsKind::BigInt => (fl_node(Node::BigIntExpr, t.span, seq![t]), ids),
        JsKind::Computed => if t.children.len() == 1 {
            let (e, k) = p_expr(t.children[0], vis, ids);
            (fl_node(Node::ComputedPropertyNameExpr, t.span, seq![e]), k)
        } else {
            (misplaced_tree(t), ids)
        },
        JsKind::Ident => ident_result(t, false, vis, ids),
        JsKind::Num => (fl_node(Node::NumberLiteralExpr, t.span, seq![t]), ids),
        JsKind::Str => (fl_node(Node::StringLiteralExpr, t.span, seq![t]), ids),
        _ => (misplaced_tree(t), ids),
    }
}

/// A template literal.
pub open spec fn p_template(t: JsTree, vis: Set<IdView>, ids: u32) -> (JsTree, u32)
    decreases t, 0int,
{
    if t.children.len() != 2 || t.children[1].children.len() == 0 {
        (misplaced_tree(t), ids)
    } else {
        let exprs = t.children[0].children;
        let quasis = t.children[1].children;
        let head = quasis[0];
        if exprs.len() == 0 {
            (fl_node(Node::NoSubstitutionTemplateLiteral, t.span, seq![str_tree(head.text)]), ids)
        } else {
            let n = tpl_span_count(exprs, quasis);
            let (parsed, k) = if n == exprs.len() {
                p_list(ListMode::Expr, exprs, vis, ids)
            } else {
                p_list(ListMode::Expr, exprs.subrange(0, n as int), vis, ids)
            };
            (
                fl_node(
                    Node::TemplateExpr,
                    t.span,
                    seq![
                        fl_node(Node::TemplateHead, head.span, seq![str_tree(head.text)]),
                        array_tree(tpl_spans(exprs, quasis, parsed)),
                    ],
                ),
                k,
            )
        }
    }
}

/// An arrow function; `is_root` when it is the closure being decorated.
pub open spec fn p_arrow(t: JsTree, is_root: bool, vis: Set<IdView>, ids: u32) -> (JsTree, u32)
    decreases t, 0int,
{
    if t.children.len() != 2 {
        (misplaced_tree(t), ids)
    } else {
        let pats = t.children[0].children;
        let body = t.children[1];
        let vis2 = vis.union(pats_ids(pats));
        let (params, k) = p_list(ListMode::PatParam, pats, vis2, ids);
        let (b, k2) = if body.kind == JsKind::Block {
            p_block(body, vis2, k)
        } else {
            let (e, k2) = p_expr(body, vis2, k);
            (block_of(expr_span(body), fl_node(Node::ReturnStmt, expr_span(body), seq![e])), k2)
        };
        (
            fl_node(
                Node::ArrowFunctionExpr,
                t.span,
                seq![
                    array_tree(params),
                    b,
                    bool_tree(t.flag),
                    if is_root {
                        filename_tree()
                    } else {
                        undefined_tree()
                    },
                ],
            ),
            k2,
        )
    }
}

/// A function of a declaration or expression, named `name` when it has one;
/// `vis` already holds its name where it binds one.
pub open spec fn p_function(
    kind: Node,
    name: Option<Seq<char>>,
    f: JsTree,
    is_root: bool,
    vis: Set<IdView>,
    ids: u32,
) -> (JsTree, u32)
    decreases f, 0int,
{
    if f.children.len() != 2 {
        (misplaced_tree(f), ids)
    } else {
        let params = f.children[0].children;
        let vis2 = vis.union(params_ids(params));
        let (ps, k) = p_list(ListMode::Param, params, vis2, ids);
        let (body, k2) = if f.children[1].kind == JsKind::Absent {
            (undefined_tree(), k)
        } else {
            p_block(f.children[1], vis2, k)
        };
        (
            fl_node(
                kind,
                f.span,
                seq![
                    match name {
                        Some(n) => str_tree(n),
                        None => undefined_tree(),
                    },
                    array_tree(ps),
                    body,
                    bool_tree(f.flag),
                    bool_tree(f.flag2),
                    if is_root {
                        filename_tree()
                    } else {
                        undefined_tree()
                    },
                ],
            ),
            k2,
        )
    }
}

/// A function declaration: its name is visible in it.
pub open spec fn p_fn_decl(t: JsTree, is_root: bool, vis: Set<IdView>, ids: u32) -> (JsTree, u32)
    decreases t, 0int,
{
    if t.children.len() != 2 {
        (misplaced_tree(t), ids)
    } else {
        let ident = t.children[0];
        p_function(Node::FunctionDecl, Some(ident.text), t.children[1], is_root, vis.insert(tree_id(ident)), ids)
    }
}

/// A function expression: its name, where it has one, is visible in it.
pub open spec fn p_fn_expr(t: JsTree, is_root: bool, vis: Set<IdView>, ids: u32) -> (JsTree, u32)
    decreases t, 0int,
{
    if t.children.len() != 2 {
        (misplaced_tree(t), ids)
    } else {
        let ident = t.children[0];
        if ident.kind == JsKind::Absent {
            p_function(Node::FunctionExpr, None, t.children[1], is_root, vis, ids)
        } else {
            p_function(Node::FunctionExpr, Some(ident.text), t.children[1], is_root, vis.insert(tree_id(ident)), ids)
        }
    }
}

/// A parameter: spanned by the parameter.
pub open spec fn p_param(t: JsTree, vis: Set<IdView>, ids: u32) -> (JsTree, u32)
    decreases t, 1int,
{
    if t.children.len() == 1 {
        p_pat_param(t.children[0], Some(t.span), vis, ids)
    } else {
        (misplaced_tree(t), ids)
    }
}

/// A pattern in the place of a parameter, spanned by `span` or else by the
/// pattern: `[name, initializer, is_rest]`.
pub open spec fn p_pat_param(pat: JsTree, span: Option<Span>, vis: Set<IdView>, ids: u32) -> (JsTree, u32)
    decreases pat, 3int,
{
    let sp = match span {
        Some(s) => s,
        None => pat_span(pat),
    };
    if pat.kind == JsKind::RestPat && pat.children.len() == 1 {
        let (p, k) = p_pat(pat.children[0], false, vis, ids);
        (fl_node(Node::ParameterDecl, sp, seq![p, undefined_tree(), bool_tree(true)]), k)
    } else if pat.kind == JsKind::AssignPat && pat.children.len() == 2 {
        let (p, k) = p_pat(pat.children[0], false, vis, ids);
        let (e, k2) = p_expr(pat.children[1], vis, k);
        (fl_node(Node::ParameterDecl, sp, seq![p, e, bool_tree(false)]), k2)
    } else {
        let (p, k) = p_pat(pat, false, vis, ids);
        (fl_node(Node::ParameterDecl, sp, seq![p, undefined_tree(), bool_tree(false)]), k)
    }
}

/// A parameter of a constructor, plain or a parameter property.
pub open spec fn p_ctor_param(t: JsTree, vis: Set<IdView>, ids: u32) -> (JsTree, u32)
    decreases t, 3int,
{
    if t.kind == JsKind::Param && t.children.len() == 1 {
        p_pat_param(t.children[0], Some(t.span), vis, ids)
    } else if t.kind == JsKind::TsParamProp && t.children.len() == 1 {
        let inner = t.children[0];
        if inner.kind == JsKind::AssignPat && inner.children.len() == 2 {
            let (p, k) = p_pat(inner.children[0], false, vis, ids);
            let (e, k2) = p_expr(inner.children[1], vis, k);
            (fl_node(Node::ParameterDecl, t.span, seq![p, e]), k2)
        } else {
            let (p, k) = ident_result(inner, false, vis, ids);
            (fl_node(Node::ParameterDecl, t.span, seq![p]), k)
        }
    } else {
        (misplaced_tree(t), ids)
    }
}

/// A constructor: its parameters are visible in it.
pub open spec fn p_ctor(t: JsTree, vis: Set<IdView>, ids: u32) -> (JsTree, u32)
    decreases t, 0int,
{
    if t.children.len() != 3 {
        (misplaced_tree(t), ids)
    } else {
        let params = t.children[1].children;
        let vis2 = vis.union(ctor_params_ids(params));
        let (ps, k) = p_list(ListMode::CtorParam, params, vis2, ids);
        let (body, k2) = p_block(t.children[2], vis2, k);
        (fl_node(Node::ConstructorDecl, t.span, seq![array_tree(ps), body]), k2)
    }
}

/// The owner argument of a method: a reference to `this` in the class being
/// decorated, else `undefined`.
#[verifier::opaque]
pub open spec fn owner_tree(owned: bool) -> JsTree {
    if owned {
        ref_tree(this_tree())
    } else {
        undefined_tree()
    }
}

/// A class method or an object method; `owned` when the method is given a
/// reference to its class. An object method is spanned from its key to the
/// end of its function, and is never static.
pub open spec fn p_method(t: JsTree, owned: bool, vis: Set<IdView>, ids: u32) -> (JsTree, u32)
    decreases t, 0int,
{
    if t.children.len() != 2 || t.children[1].children.len() != 2 {
        (misplaced_tree(t), ids)
    } else {
        let key = t.children[0];
        let f = t.children[1];
        let params = f.children[0].children;
        let is_class = t.kind == JsKind::ClassMethod;
        let span = if is_class {
            t.span
        } else {
            spec_concat_span(key.span, f.span)
        };
        let is_static = is_class && t.flag;
        let kind = if is_class {
            t.op
        } else {
            Op::Method(MethodKind::Method)
        };
        let vis2 = vis.union(params_ids(params));
        let (name, k) = p_prop_name(key, vis2, ids);
        match kind {
            Op::Method(MethodKind::Getter) => {
                let (body, k2) = p_block(f.children[1], vis2, k);
                (
                    fl_node(Node::GetAccessorDecl, span, seq![name, body, bool_tree(is_static), owner_tree(owned)]),
                    k2,
                )
            },
            Op::Method(MethodKind::Setter) => {
                let (param, k2) = if params.len() > 0 {
                    p_param(params[0], vis2, k)
                } else {
                    (undefined_tree(), k)
                };
                let (body, k3) = p_block(f.children[1], vis2, k2);
                (
                    fl_node(
                        Node::SetAccessorDecl,
                        span,
                        seq![name, param, body, bool_tree(is_static), owner_tree(owned)],
                    ),
                    k3,
                )
            },
            _ => {
                let (ps, k2) = p_list(ListMode::Param, params, vis2, k);
                let (body, k3) = p_block(f.children[1], vis2, k2);
                (
                    fl_node(
                        Node::MethodDecl,
                        span,
                        seq![
                            name,
                            array_tree(ps),
                            body,
                            bool_tree(f.flag),
                            bool_tree(f.flag2),
                            filename_tree(),
                            bool_tree(is_static),
                            owner_tree(owned),
                        ],
                    ),
                    k3,
                )
            },
        }
    }
}

/// A private method of a class.
pub open spec fn p_private_method(t: JsTree, owned: bool, vis: Set<IdView>, ids: u32) -> (JsTree, u32)
    decreases t, 0int,
{
    if t.children.len() != 2 || t.children[1].children.len() != 2 {
        (misplaced_tree(t), ids)
    } else {
        let f = t.children[1];
        let params = f.children[0].children;
        let vis2 = vis.union(params_ids(params));
        let (ps, k) = p_list(ListMode::Param, params, vis2, ids);
        let (body, k2) = p_block(f.children[1], vis2, k);
        (
            fl_node(
                Node::MethodDecl,
                t.span,
                seq![
                    private_name_tree(t.children[0]),
                    array_tree(ps),
                    body,
                    bool_tree(f.flag),
                    bool_tree(f.flag2),
                    bool_tree(t.flag),
                    owner_tree(owned),
                ],
            ),
            k2,
        )
    }
}

/// A member of a class, as an element of the array of members: members that
/// carry nothing (`;` and index signatures) are holes.
pub open spec fn p_class_member(t: JsTree, is_root: bool, vis: Set<IdView>, ids: u32) -> (JsTree, u32)
    decreases t, 1int,
{
    if !arity_ok(t) {
        (eos_tree(misplaced_tree(t)), ids)
    } else {
        match t.kind {
            JsKind::ClassProp => {
                let (key, k) = p_prop_name(t.children[0], vis, ids);
                let (value, k2) = if t.children[1].kind == JsKind::Absent {
                    (undefined_tree(), k)
                } else {
                    p_expr(t.children[1], vis, k)
                };
                (eos_tree(fl_node(Node::PropDecl, t.span, seq![key, bool_tree(t.flag), value])), k2)
            },
            JsKind::Constructor => {
                let (c, k) = p_ctor(t, vis, ids);
                (eos_tree(c), k)
            },
            JsKind::ClassMethod => {
                let (m, k) = p_method(t, is_root, vis, ids);
                (eos_tree(m), k)
            },
            JsKind::PrivateMethod => {
                let (m, k) = p_private_method(t, is_root, vis, ids);
                (eos_tree(m), k)
            },
            JsKind::PrivateProp => {
                let key = private_name_tree(t.children[0]);
                let (value, k) = if t.children[1].kind == JsKind::Absent {
                    (undefined_tree(), ids)
                } else {
                    p_expr(t.children[1], vis, ids)
                };
                (eos_tree(fl_node(Node::PropDecl, t.span, seq![key, bool_tree(t.flag), value])), k)
            },
            JsKind::StaticBlock => {
                let (b, k) = p_block(t.children[0], vis, ids);
                (eos_tree(fl_node(Node::ClassStaticBlockDecl, t.span, seq![b])), k)
            },
            _ => (absent_tree(), ids),
        }
    }
}

/// A class declaration or expression; `is_root` when it is the class being
/// decorated.
pub open spec fn p_class_like(t: JsTree, is_root: bool, vis: Set<IdView>, ids: u32) -> (JsTree, u32)
    decreases t, 0int,
{
    if t.children.len() != 2 || t.children[1].children.len() != 2 {
        (misplaced_tree(t), ids)
    } else {
        let class = t.children[1];
        let (name, k) = if t.children[0].kind == JsKind::Absent {
            (undefined_tree(), ids)
        } else {
            ident_result(t.children[0], false, vis, ids)
        };
        let (sup, k2) = if class.children[1].kind == JsKind::Absent {
            (undefined_tree(), k)
        } else {
            p_expr(class.children[1], vis, k)
        };
        let (members, k3) = p_list(ListMode::ClassMember(is_root), class.children[0].children, vis, k2);
        (
            fl_node(
                if t.kind == JsKind::ClassDecl {
                    Node::ClassDecl
                } else {
                    Node::ClassExpr
                },
                class.span,
                seq![
                    name,
                    sup,
                    array_elems_tree(members),
                    if is_root {
                        filename_tree()
                    } else {
                        undefined_tree()
                    },
                ],
            ),
            k3,
        )
    }
}

/// The list of declarators of a variable declaration.
pub open spec fn p_var_decl_list(t: JsTree, vis: Set<IdView>, ids: u32) -> (JsTree, u32)
    decreases t, 0int,
{
    let (decls, k) = p_list(ListMode::VarDeclarator, t.children, vis, ids);
    (fl_node(Node::VariableDeclList, t.span, seq![array_tree(decls), int_tree(var_kind_num(t.op))]), k)
}

/// A declarator: `[name, initializer]`.
pub open spec fn p_var_declarator(t: JsTree, vis: Set<IdView>, ids: u32) -> (JsTree, u32)
    decreases t, 1int,
{
    if t.children.len() != 2 {
        (misplaced_tree(t), ids)
    } else {
        let (name, k) = p_pat(t.children[0], false, vis, ids);
        let (init, k2) = if t.children[1].kind == JsKind::Absent {
            (undefined_tree(), k)
        } else {
            p_expr(t.children[1], vis, k)
        };
        (fl_node(Node::VariableDecl, t.span, seq![name, init]), k2)
    }
}

/// A block: the names its statements declare are visible in it.
pub open spec fn p_block(t: JsTree, vis: Set<IdView>, ids: u32) -> (JsTree, u32)
    decreases t, 0int,
{
    let vis2 = vis.union(stmts_ids(t.children));
    let (stmts, k) = p_list(ListMode::Stmt, t.children, vis2, ids);
    (fl_node(Node::BlockStmt, t.span, seq![array_tree(stmts)]), k)
}

/// The body of a loop: a block, or a block made of the one statement.
pub open spec fn p_loop_body(t: JsTree, vis: Set<IdView>, ids: u32) -> (JsTree, u32)
    decreases t, 4int,
{
    if t.kind == JsKind::Block {
        p_block(t, vis, ids)
    } else {
        let (s, k) = p_stmt(t, vis, ids);
        (block_of(stmt_span(t), s), k)
    }
}

/// A case of a switch: its statements are parsed before its test.
pub open spec fn p_switch_case(t: JsTree, vis: Set<IdView>, ids: u32) -> (JsTree, u32)
    decreases t, 1int,
{
    if t.kind != JsKind::SwitchCase || t.children.len() != 2 {
        (misplaced_tree(t), ids)
    } else {
        let (stmts, k) = p_list(ListMode::Stmt, t.children[1].children, vis, ids);
        let body = array_tree(stmts);
        if t.children[0].kind == JsKind::Absent {
            (fl_node(Node::DefaultClause, t.span, seq![body]), k)
        } else {
            let (test, k2) = p_expr(t.children[0], vis, k);
            (fl_node(Node::CaseClause, t.span, seq![test, body]), k2)
        }
    }
}

/// The catch clause of a try statement: its parameter is visible in it.
pub open spec fn p_catch(t: JsTree, vis: Set<IdView>, ids: u32) -> (JsTree, u32)
    decreases t, 0int,
{
    if t.children.len() != 2 {
        (misplaced_tree(t), ids)
    } else {
        let pat = t.children[0];
        if pat.kind == JsKind::Absent {
            let (body, k) = p_block(t.children[1], vis, ids);
            (fl_node(Node::CatchClause, t.span, seq![undefined_tree(), body]), k)
        } else {
            let vis2 = vis.union(pat_ids(pat));
            let (decl, k) = if pat.kind == JsKind::AssignPat && pat.children.len() == 2 {
                let (p, k) = p_pat(pat.children[0], false, vis2, ids);
                let (e, k2) = p_expr(pat.children[1], vis2, k);
                (fl_node(Node::VariableDecl, pat_span(pat), seq![p, e]), k2)
            } else {
                let (p, k) = p_pat(pat, false, vis2, ids);
                (fl_node(Node::VariableDecl, pat_span(pat), seq![p]), k)
            };
            let (body, k2) = p_block(t.children[1], vis2, k);
            (fl_node(Node::CatchClause, t.span, seq![decl, body]), k2)
        }
    }
}

/// The head of a `for .. in` or `for .. of` loop, with the names it makes
/// visible in the loop: a declaration binds its names, a pattern binds none.
pub open spec fn p_for_head(left: JsTree, vis: Set<IdView>, ids: u32) -> (JsTree, u32, Set<IdView>)
    decreases left, 5int,
{
    if left.kind == JsKind::VarDecl {
        let vis2 = vis.union(declarators_ids(left.children));
        let (v, k) = p_var_decl_list(left, vis2, ids);
        (v, k, vis2)
    } else {
        let (v, k) = p_pat(left, true, vis, ids);
        (v, k, vis)
    }
}

/// A statement: dispatched on its kind.
pub open spec fn p_stmt(t: JsTree, vis: Set<IdView>, ids: u32) -> (JsTree, u32)
    decreases t, 3int,
{
    if !arity_ok(t) {
        (misplaced_tree(t), ids)
    } else {
        match t.kind {
            JsKind::Block => p_block(t, vis, ids),
            JsKind::Break | JsKind::Continue => p_s_jump(t, vis, ids),
            JsKind::Debugger => (fl_node(Node::DebuggerStmt, t.span, Seq::empty()), ids),
            JsKind::ClassDecl => p_class_like(t, false, vis, ids),
            JsKind::FnDecl => p_fn_decl(t, false, vis, ids),
            JsKind::VarDecl => p_s_var(t, vis, ids),
            JsKind::DoWhile | JsKind::While => p_s_loop(t, vis, ids),
            JsKind::Empty => (fl_node(Node::EmptyStmt, t.span, Seq::empty()), ids),
            JsKind::ExprStmt | JsKind::Throw => p_s_expr(t, vis, ids),
            JsKind::For => p_s_for(t, vis, ids),
            JsKind::ForIn | JsKind::ForOf => p_s_for_in_of(t, vis, ids),
            JsKind::If => p_s_if(t, vis, ids),
            JsKind::Labeled => p_s_labeled(t, vis, ids),
            JsKind::Return => p_s_return(t, vis, ids),
            JsKind::Switch => p_s_switch(t, vis, ids),
            JsKind::Try => p_s_try(t, vis, ids),
            JsKind::With => p_s_with(t, vis, ids),
            _ => (misplaced_tree(t), ids),
        }
    }
}

/// A `break` or `continue`, with its label or `undefined`.
pub open spec fn p_s_jump(t: JsTree, vis: Set<IdView>, ids: u32) -> (JsTree, u32) {
    let (label, k) = if t.children.len() == 0 || t.children[0].kind == JsKind::Absent {
        (undefined_tree(), ids)
    } else {
        ident_result(t.children[0], false, vis, ids)
    };
    (
        fl_node(
            if t.kind == JsKind::Break {
                Node::BreakStmt
            } else {
                Node::ContinueStmt
            },
            t.span,
            seq![label],
        ),
        k,
    )
}

/// A variable statement.
pub open spec fn p_s_var(t: JsTree, vis: Set<IdView>, ids: u32) -> (JsTree, u32)
    decreases t, 1int,
{
    let (v, k) = p_var_decl_list(t, vis, ids);
    (fl_node(Node::VariableStmt, t.span, seq![v]), k)
}

/// A `do .. while` or `while` loop; the body of a `do` is emitted before its
/// test.
pub open spec fn p_s_loop(t: JsTree, vis: Set<IdView>, ids: u32) -> (JsTree, u32)
    decreases t, 0int,
{
    if t.children.len() != 2 {
        (misplaced_tree(t), ids)
    } else if t.kind == JsKind::DoWhile {
        let (body, k) = p_loop_body(t.children[1], vis, ids);
        let (test, k2) = p_expr(t.children[0], vis, k);
        (fl_node(Node::DoStmt, t.span, seq![body, test]), k2)
    } else {
        let (test, k) = p_expr(t.children[0], vis, ids);
        let (body, k2) = p_loop_body(t.children[1], vis, k);
        (fl_node(Node::WhileStmt, t.span, seq![test, body]), k2)
    }
}

/// An expression statement or a `throw`.
pub open spec fn p_s_expr(t: JsTree, vis: Set<IdView>, ids: u32) -> (JsTree, u32)
    decreases t, 0int,
{
    if t.children.len() != 1 {
        (misplaced_tree(t), ids)
    } else {
        let (e, k) = p_expr(t.children[0], vis, ids);
        (
            fl_node(
                if t.kind == JsKind::ExprStmt {
                    Node::ExprStmt
                } else {
                    Node::ThrowStmt
                },
                t.span,
                seq![e],
            ),
            k,
        )
    }
}

/// A `for` loop: the names its head declares are visible in all of it; the
/// body is emitted first, then the head, the test and the update.
pub open spec fn p_s_for(t: JsTree, vis: Set<IdView>, ids: u32) -> (JsTree, u32)
    decreases t, 0int,
{
    if t.children.len() != 4 {
        (misplaced_tree(t), ids)
    } else {
        let init = t.children[0];
        let vis2 = if init.kind == JsKind::VarDecl {
            vis.union(declarators_ids(init.children))
        } else {
            vis
        };
        let (i, k) = if init.kind == JsKind::Absent {
            (undefined_tree(), ids)
        } else if init.kind == JsKind::VarDecl {
            p_var_decl_list(init, vis2, ids)
        } else {
            p_expr(init, vis2, ids)
        };
        let (body, k2) = p_stmt(t.children[3], vis2, k);
        let (test, k3) = if t.children[1].kind == JsKind::Absent {
            (undefined_tree(), k2)
        } else {
            p_expr(t.children[1], vis2, k2)
        };
        let (update, k4) = if t.children[2].kind == JsKind::Absent {
            (undefined_tree(), k3)
        } else {
            p_expr(t.children[2], vis2, k3)
        };
        (fl_node(Node::ForStmt, t.span, seq![body, i, test, update]), k4)
    }
}

/// A `for .. in` or `for .. of` loop.
pub open spec fn p_s_for_in_of(t: JsTree, vis: Set<IdView>, ids: u32) -> (JsTree, u32)
    decreases t, 0int,
{
    if t.children.len() != 3 {
        (misplaced_tree(t), ids)
    } else {
        let (v, k, vis2) = p_for_head(t.children[0], vis, ids);
        let (right, k2) = p_expr(t.children[1], vis2, k);
        let (body, k3) = p_stmt(t.children[2], vis2, k2);
        if t.kind == JsKind::ForIn {
            (fl_node(Node::ForInStmt, t.span, seq![v, right, body]), k3)
        } else {
            (fl_node(Node::ForOfStmt, t.span, seq![v, right, body, bool_tree(t.flag)]), k3)
        }
    }
}

/// An `if` statement.
pub open spec fn p_s_if(t: JsTree, vis: Set<IdView>, ids: u32) -> (JsTree, u32)
    decreases t, 0int,
{
    if t.children.len() != 3 {
        (misplaced_tree(t), ids)
    } else {
        let (test, k) = p_expr(t.children[0], vis, ids);
        let (cons, k2) = p_stmt(t.children[1], vis, k);
        let (alt, k3) = if t.children[2].kind == JsKind::Absent {
            (undefined_tree(), k2)
        } else {
            p_stmt(t.children[2], vis, k2)
        };
        (fl_node(Node::IfStmt, t.span, seq![test, cons, alt]), k3)
    }
}

/// A labelled statement.
pub open spec fn p_s_labeled(t: JsTree, vis: Set<IdView>, ids: u32) -> (JsTree, u32)
    decreases t, 0int,
{
    if t.children.len() != 2 {
        (misplaced_tree(t), ids)
    } else {
        let (body, k) = p_stmt(t.children[1], vis, ids);
        (fl_node(Node::LabelledStmt, t.span, seq![body]), k)
    }
}

/// A `return`: without an argument it returns `undefined`.
pub open spec fn p_s_return(t: JsTree, vis: Set<IdView>, ids: u32) -> (JsTree, u32)
    decreases t, 0int,
{
    if t.children.len() != 1 || t.children[0].kind == JsKind::Absent {
        (fl_node(Node::ReturnStmt, t.span, seq![fl_node(Node::UndefinedLiteralExpr, t.span, Seq::empty())]), ids)
    } else {
        let (e, k) = p_expr(t.children[0], vis, ids);
        (fl_node(Node::ReturnStmt, t.span, seq![e]), k)
    }
}

/// A `switch` statement.
pub open spec fn p_s_switch(t: JsTree, vis: Set<IdView>, ids: u32) -> (JsTree, u32)
    decreases t, 0int,
{
    if t.children.len() != 2 {
        (misplaced_tree(t), ids)
    } else {
        let (d, k) = p_expr(t.children[0], vis, ids);
        let (cases, k2) = p_list(ListMode::SwitchCase, t.children[1].children, vis, k);
        (fl_node(Node::SwitchStmt, t.span, seq![d, array_tree(cases)]), k2)
    }
}

/// A `try` statement.
pub open spec fn p_s_try(t: JsTree, vis: Set<IdView>, ids: u32) -> (JsTree, u32)
    decreases t, 0int,
{
    if t.children.len() != 3 {
        (misplaced_tree(t), ids)
    } else {
        let (block, k) = p_block(t.children[0], vis, ids);
        let (handler, k2) = if t.children[1].kind == JsKind::Absent {
            (undefined_tree(), k)
        } else {
            p_catch(t.children[1], vis, k)
        };
        let (finalizer, k3) = if t.children[2].kind == JsKind::Absent {
            (undefined_tree(), k2)
        } else {
            p_block(t.children[2], vis, k2)
        };
        (fl_node(Node::TryStmt, t.span, seq![block, handler, finalizer]), k3)
    }
}

/// A `with` statement.
pub open spec fn p_s_with(t: JsTree, vis: Set<IdView>, ids: u32) -> (JsTree, u32)
    decreases t, 0int,
{
    if t.children.len() != 2 {
        (misplaced_tree(t), ids)
    } else {
        let (o, k) = p_expr(t.children[0], vis, ids);
        let (body, k2) = p_stmt(t.children[1], vis, k);
        (fl_node(Node::WithStmt, t.span, seq![o, body]), k2)
    }
}

/// A binding pattern; `is_ref` when the names in it are read rather than
/// bound (the left of an assignment, the head of a `for .. in` loop). An
/// expression in the place of a pattern is parsed as an expression.
pub open spec fn p_pat(t: JsTree, is_ref: bool, vis: Set<IdView>, ids: u32) -> (JsTree, u32)
    decreases t, 2int,
{
    if !arity_ok(t) {
        (misplaced_tree(t), ids)
    } else {
        match t.kind {
            JsKind::ArrayPat | JsKind::ObjectPat => p_p_list(t, is_ref, vis, ids),
            JsKind::AssignPat | JsKind::RestPat => p_p_elem(t, is_ref, vis, ids),
            JsKind::ExprPat => p_expr(t.children[0], vis, ids),
            JsKind::BindingIdent => ident_result(t, is_ref, vis, ids),
            JsKind::InvalidPat => (error_tree("Invalid Node"@, t.span), ids),
            _ => p_expr(t, vis, ids),
        }
    }
}

/// An array or object pattern: the binding of each of its elements.
pub open spec fn p_p_list(t: JsTree, is_ref: bool, vis: Set<IdView>, ids: u32) -> (JsTree, u32)
    decreases t, 0int,
{
    if t.kind == JsKind::ArrayPat {
        let (elems, k) = p_list(ListMode::ArrayPatElem(is_ref), t.children, vis, ids);
        (fl_node(Node::ArrayBinding, t.span, seq![array_tree(elems)]), k)
    } else {
        let (props, k) = p_list(ListMode::ObjPatProp(is_ref), t.children, vis, ids);
        (fl_node(Node::ObjectBinding, t.span, seq![array_tree(props)]), k)
    }
}

/// A pattern with a default value, `[name, false, undefined, initializer]`,
/// or a rest pattern, `[name, true]`.
pub open spec fn p_p_elem(t: JsTree, is_ref: bool, vis: Set<IdView>, ids: u32) -> (JsTree, u32)
    decreases t, 0int,
{
    if t.kind == JsKind::AssignPat && t.children.len() == 2 {
        let (p, k) = p_pat(t.children[0], is_ref, vis, ids);
        let (e, k2) = p_expr(t.children[1], vis, k);
        (fl_node(Node::BindingElem, t.span, seq![p, bool_tree(false), undefined_tree(), e]), k2)
    } else if t.children.len() == 1 {
        let (p, k) = p_pat(t.children[0], is_ref, vis, ids);
        (fl_node(Node::BindingElem, t.span, seq![p, bool_tree(true)]), k)
    } else {
        (misplaced_tree(t), ids)
    }
}

/// An element of an array pattern.
pub open spec fn p_array_pat_elem(t: JsTree, is_ref: bool, vis: Set<IdView>, ids: u32) -> (JsTree, u32)
    decreases t, 3int,
{
    if t.kind == JsKind::Absent {
        (fl_node(Node::OmittedExpr, dummy_span(), Seq::empty()), ids)
    } else if t.kind == JsKind::AssignPat || t.kind == JsKind::RestPat {
        p_pat(t, is_ref, vis, ids)
    } else {
        let (p, k) = p_pat(t, is_ref, vis, ids);
        (fl_node(Node::BindingElem, pat_span(t), seq![p, bool_tree(false)]), k)
    }
}

/// A property of an object pattern.
pub open spec fn p_obj_pat_prop(t: JsTree, is_ref: bool, vis: Set<IdView>, ids: u32) -> (JsTree, u32)
    decreases t, 3int,
{
    if !arity_ok(t) {
        (misplaced_tree(t), ids)
    } else {
        match t.kind {
            JsKind::ObjAssignProp => if t.children[1].kind == JsKind::Absent {
                let (key, k) = ident_result(t.children[0], false, vis, ids);
                (fl_node(Node::BindingElem, t.span, seq![key, bool_tree(false)]), k)
            } else {
                let (key, k) = ident_result(t.children[0], true, vis, ids);
                let (value, k2) = p_expr(t.children[1], vis, k);
                (
                    fl_node(Node::BindingElem, t.span, seq![key, bool_tree(false), undefined_tree(), value]),
                    k2,
                )
            },
            JsKind::ObjKeyValueProp => {
                let key = t.children[0];
                let value = t.children[1];
                let is_assign = value.kind == JsKind::AssignPat && value.children.len() == 2;
                let (name, k) = if is_assign {
                    p_pat(value.children[0], is_ref, vis, ids)
                } else {
                    p_pat(value, is_ref, vis, ids)
                };
                let (prop, k2) = p_prop_name(key, vis, k);
                let (init, k3) = if is_assign {
                    p_expr(value.children[1], vis, k2)
                } else {
                    (undefined_tree(), k2)
                };
                (
                    fl_node(
                        Node::BindingElem,
                        spec_concat_span(key.span, pat_span(value)),
                        seq![name, bool_tree(false), prop, init],
                    ),
                    k3,
                )
            },
            JsKind::ObjRestProp => {
                let (p, k) = p_pat(t.children[0], is_ref, vis, ids);
                (fl_node(Node::BindingElem, t.span, seq![p, bool_tree(true)]), k)
            },
            _ => (misplaced_tree(t), ids),
        }
    }
}

/// Whether the transform accepts a node itself (its children aside): the
/// Functionless AST has no form for a TypeScript declaration inside a
/// closure, for `{ a = b }` in an object literal, for an accessor, method or
/// constructor without a body, for an empty sequence or a template without
/// literals.
pub open spec fn node_supported(t: JsTree) -> bool {
    match t.kind {
        JsKind::OpaqueDecl | JsKind::PropAssign => false,
        JsKind::PropGetter => t.children.len() > 1 && t.children[1].kind != JsKind::Absent,
        JsKind::PropSetter => t.children.len() > 2 && t.children[2].kind != JsKind::Absent,
        JsKind::Constructor => t.children.len() > 2 && t.children[2].kind != JsKind::Absent,
        JsKind::PropMethod | JsKind::ClassMethod | JsKind::PrivateMethod => t.children.len() > 1
            && t.children[1].children.len() > 1 && t.children[1].children[1].kind != JsKind::Absent,
        JsKind::SeqExpr => t.children.len() > 0,
        JsKind::Tpl => t.children.len() > 1 && t.children[1].children.len() > 0,
        _ => true,
    }
}

/// Whether the transform accepts a tree: every node in it is accepted.
#[verifier::opaque]
pub open spec fn supported(t: JsTree) -> bool
    decreases t,
{
    &&& node_supported(t)
    &&& forall|i: int| 0 <= i < t.children.len() ==> supported(#[trigger] t.children[i])
}

/// What a node's children are: as many as those of its view, each viewed
/// as the child of the view, and well formed and accepted where the node is.
pub proof fn lemma_node(n: JsNode)
    ensures
        n.children@.len() == view_node(n).children.len(),
        forall|k: int| #![trigger n.children@[k]] 0 <= k < n.children@.len() ==> n.children@[k]@ == view_node(n).children[k],
        well_formed(view_node(n)) ==> forall|k: int| #![trigger n.children@[k]] 0 <= k < n.children@.len() ==> well_formed(n.children@[k]@),
        supported(view_node(n)) ==> forall|k: int| #![trigger n.children@[k]] 0 <= k < n.children@.len() ==> supported(n.children@[k]@),
        well_formed(view_node(n)) ==> arity_ok(view_node(n)),
        supported(view_node(n)) ==> node_supported(view_node(n)),
{
    crate::js::lemma_view_nodes(n.children@);
    reveal(well_formed);
    reveal(supported);
    if well_formed(view_node(n)) {
        assert forall|k: int| #![trigger n.children@[k]] 0 <= k < n.children@.len() implies well_formed(n.children@[k]@) by {
            assert(n.children@[k]@ == view_node(n).children[k]);
        }
    }
    if supported(view_node(n)) {
        assert forall|k: int| #![trigger n.children@[k]] 0 <= k < n.children@.len() implies supported(n.children@[k]@) by {
            assert(n.children@[k]@ == view_node(n).children[k]);
        }
    }
}

/// A child of an accepted node is accepted.
pub broadcast proof fn lemma_supported_child(n: JsNode, i: int)
    requires
        0 <= i < n.children@.len(),
    ensures
        supported(view_node(n)) ==> supported(#[trigger] view_node(n.children@[i])),
{
    crate::js::lemma_view_nodes(n.children@);
    assert(view_node(n).children[i] == view_node(n.children@[i]));
    reveal(supported);
}

/// An identifier that is read is emitted as a reference, with a fresh id,
/// exactly when the closure does not see its name (and it is neither
/// `undefined` nor `arguments`); a name the closure sees, and any identifier
/// that is not read, is emitted as an identifier and takes no id. A fresh id
/// differs from the last one given.
pub proof fn law_free_identifier_is_reference(t: JsTree, vis: Set<IdView>, ids: u32)
    requires
        t.text != "undefined"@,
    ensures
        vis.contains(tree_id(t)) ==> ident_result(t, true, vis, ids) == (identifier_tree(t), ids),
        ident_result(t, false, vis, ids) == (identifier_tree(t), ids),
        !vis.contains(tree_id(t)) && t.text != "arguments"@ ==> ident_result(t, true, vis, ids) == (
            fl_node(
                Node::ReferenceExpr,
                t.span,
                seq![
                    str_tree(t.text),
                    ref_arrow_tree(t),
                    int_tree((t.span.ctxt as i32) as i64),
                    int_tree(next_id_spec(ids) as i64),
                ],
            ),
            next_id_spec(ids),
        ),
        next_id_spec(ids) != ids,
{
    reveal(ident_result);
}

/// A conditional expression is parsed into a `ConditionExpr` node whose
/// arguments are the parses of its test, its consequent and its alternate,
/// in that order (argument `i` is the parse of child `i`); the children are
/// parsed left to right, each taking ids after the one before it.
pub proof fn law_condition_keeps_branch_order(t: JsTree, vis: Set<IdView>, ids: u32)
    requires
        t.kind == JsKind::Cond,
        t.children.len() == 3,
    ensures
        ({
            let (a, k1) = p_expr(t.children[0], vis, ids);
            let (b, k2) = p_expr(t.children[1], vis, k1);
            let (c, k3) = p_expr(t.children[2], vis, k2);
            p_expr(t, vis, ids) == (fl_node(Node::ConditionExpr, t.span, seq![a, b, c]), k3)
        }),
{
    assert(arity(t.kind) == Some(3nat));
    assert(arity_ok(t));
    assert(p_expr(t, vis, ids) == p_e_cond(t, vis, ids));
}

} // verus!
