//! A second form of the Functionless AST: each node is a call
//! `functionless.Kind(...args)` on a private identifier that names the
//! Functionless module. It describes the shape of a closure (its
//! parameters, and the statements and expressions of declarations it holds)
//! without positions or references.
//!
//! Every parse function gives `None` exactly on the inputs this form cannot
//! describe: TypeScript declarations (`enum`, `interface`, `namespace`,
//! `type`), an assignment property in an object literal, an accessor, method
//! or constructor without a body, a sequence of fewer than two expressions,
//! and a pattern that did not parse.
use vstd::prelude::*;

use crate::parse::{assign_op_text, bin_op_text, jsx_text, lit_node_kind, unary_op_text, update_op_text};
use crate::validate::arity_fits;

use crate::ast::{node_kind_name, spec_node_kind_name, Node};
use crate::emit::{
    arity_ok, lemma_node, assign_op_str, bin_op_str, is_pat_kind, jsx_message, lit_kind, unary_op_str, update_op_str,
};
use crate::js::{
    absent_node, absent_tree, clone_node, lemma_view_nodes, lemma_view_nodes_concat, lemma_view_nodes_push, view_nodes,
    JsKind, JsNode, JsTree, Op, UnaryOp,
};
use crate::js_util::{
    array_elems_tree, array_expr, array_tree, bool_expr, bool_tree, call_expr, call_tree, eos, eos_tree, eos_trees,
    mk_inner, prop_access_expr, prop_access_tree, quote_ident, str_tree, string_expr, string_expr_of, undefined_expr,
    undefined_tree, empty_span,
};

verus! {

/// `import.Kind(...args)`: a node of the given kind.
pub open spec fn fcall(imp: JsTree, kind: Node, args: Seq<JsTree>) -> JsTree {
    call_tree(prop_access_tree(imp, spec_node_kind_name(kind)), eos_trees(args))
}

/// An error node with the given message.
pub open spec fn ferr(imp: JsTree, message: Seq<char>) -> JsTree {
    fcall(imp, Node::Error, seq![str_tree(message)])
}

/// The error node of a node that cannot stand where it was found.
pub open spec fn fmisplaced(imp: JsTree) -> JsTree {
    ferr(imp, "Syntax Error"@)
}

/// A node of one argument, when the argument could be parsed.
pub open spec fn k1(imp: JsTree, kind: Node, a: Option<JsTree>) -> Option<JsTree> {
    match a {
        Some(x) => Some(fcall(imp, kind, seq![x])),
        None => None,
    }
}

/// A node of two arguments, when both could be parsed.
pub open spec fn k2(imp: JsTree, kind: Node, a: Option<JsTree>, b: Option<JsTree>) -> Option<JsTree> {
    match (a, b) {
        (Some(x), Some(y)) => Some(fcall(imp, kind, seq![x, y])),
        _ => None,
    }
}

/// A node of three arguments, when all could be parsed.
pub open spec fn k3(imp: JsTree, kind: Node, a: Option<JsTree>, b: Option<JsTree>, c: Option<JsTree>) -> Option<JsTree> {
    match (a, b, c) {
        (Some(x), Some(y), Some(z)) => Some(fcall(imp, kind, seq![x, y, z])),
        _ => None,
    }
}

/// A node of four arguments, when all could be parsed.
pub open spec fn k4(
    imp: JsTree,
    kind: Node,
    a: Option<JsTree>,
    b: Option<JsTree>,
    c: Option<JsTree>,
    d: Option<JsTree>,
) -> Option<JsTree> {
    match (a, b, c, d) {
        (Some(x), Some(y), Some(z), Some(w)) => Some(fcall(imp, kind, seq![x, y, z, w])),
        _ => None,
    }
}

/// A node whose arguments are a parsed sequence.
pub open spec fn kv(imp: JsTree, kind: Node, s: Option<Seq<JsTree>>) -> Option<JsTree> {
    match s {
        Some(x) => Some(fcall(imp, kind, x)),
        None => None,
    }
}

/// An array literal of a parsed sequence.
pub open spec fn karray(s: Option<Seq<JsTree>>) -> Option<JsTree> {
    match s {
        Some(x) => Some(array_tree(x)),
        None => None,
    }
}

/// A sequence of one parsed node.
pub open spec fn one(a: Option<JsTree>) -> Option<Seq<JsTree>> {
    match a {
        Some(x) => Some(seq![x]),
        None => None,
    }
}

/// `undefined`, or what `t` is parsed as where it is there.
pub open spec fn or_undefined(t: JsTree, parsed: Option<JsTree>) -> Option<JsTree> {
    if t.kind == JsKind::Absent {
        Some(undefined_tree())
    } else {
        parsed
    }
}

/// The identifier node of a name: `Identifier(StringLiteralExpr("name"))`.
pub open spec fn f_ident(imp: JsTree, t: JsTree) -> JsTree {
    fcall(imp, Node::Identifier, seq![fcall(imp, Node::StringLiteralExpr, seq![str_tree(t.text)])])
}

/// The private identifier node of a private name `#x`.
pub open spec fn f_private(imp: JsTree, t: JsTree) -> JsTree {
    fcall(imp, Node::PrivateIdentifier, seq![str_tree(seq!['#'] + t.text)])
}

/// The string node of a piece of a template literal: its raw text.
pub open spec fn f_tpl_element(imp: JsTree, t: JsTree) -> JsTree {
    fcall(imp, Node::StringLiteralExpr, seq![str_tree(t.text)])
}

/// The text of the operator of an assignment or a binary expression.
pub open spec fn binary_op_str(op: Op) -> Seq<char> {
    match op {
        Op::Assign(a) => assign_op_str(a),
        Op::Bin(b) => bin_op_str(b),
        _ => Seq::empty(),
    }
}

/// The positions that the nodes of a list are parsed in.
#[derive(Clone, Copy, Debug)]
pub enum FMode {
    /// An element of an array literal; holes are left out.
    ArrayLitElem,
    /// A binding pattern.
    Pattern,
    /// A parameter of a function: its pattern.
    Param,
    /// A parameter of a function declaration: `ParameterDecl(pattern)`.
    FnDeclParam,
    /// A statement.
    Stmt,
    /// A class member; one that is not described leaves a hole.
    ClassMember,
    /// A property of an object literal.
    ObjProp,
    /// A case of a `switch`.
    Case,
    /// A parameter of a constructor.
    CtorParam,
    /// An element of an array pattern; holes are left out.
    ArrayPatElem,
    /// A property of an object pattern.
    ObjPatProp,
    /// An argument of a call: described only as an argument.
    Arg,
    /// A declarator: the name it declares, when it is an identifier.
    DeclName,
}

/// What a sequence of nodes at the position `mode` is parsed as: what each
/// is parsed as, in order.
pub open spec fn f_list(imp: JsTree, mode: FMode, s: Seq<JsTree>) -> Option<Seq<JsTree>>
    decreases s, 0int,
{
    if s.len() == 0 {
        Some(Seq::empty())
    } else {
        match (f_list(imp, mode, s.subrange(0, s.len() - 1)), f_item(imp, mode, s[s.len() - 1])) {
            (Some(a), Some(b)) => Some(a + b),
            _ => None,
        }
    }
}

/// What one node at the position `mode` is parsed as: none, one or more
/// nodes.
pub open spec fn f_item(imp: JsTree, mode: FMode, t: JsTree) -> Option<Seq<JsTree>>
    decreases t, 9int,
{
    match mode {
        FMode::ArrayLitElem => if t.kind == JsKind::Absent {
            Some(Seq::empty())
        } else if t.children.len() == 1 {
            one(f_expr(imp, t.children[0]))
        } else {
            Some(seq![fmisplaced(imp)])
        },
        FMode::Pattern => one(f_pattern(imp, t)),
        FMode::Param => if t.children.len() == 1 {
            one(f_pattern(imp, t.children[0]))
        } else {
            Some(seq![fmisplaced(imp)])
        },
        FMode::FnDeclParam => if t.children.len() == 1 {
            one(k1(imp, Node::ParameterDecl, f_pattern(imp, t.children[0])))
        } else {
            Some(seq![fmisplaced(imp)])
        },
        FMode::Stmt => one(f_stmt(imp, t)),
        FMode::ClassMember => match f_class_member(imp, t) {
            Some(Some(m)) => Some(seq![eos_tree(m)]),
            Some(None) => Some(seq![absent_tree()]),
            None => None,
        },
        FMode::ObjProp => one(f_obj_prop(imp, t)),
        FMode::Case => one(f_case(imp, t)),
        FMode::CtorParam => one(f_ctor_param(imp, t)),
        FMode::ArrayPatElem => if t.kind == JsKind::Absent {
            Some(Seq::empty())
        } else if t.kind == JsKind::BindingIdent {
            one(k2(imp, Node::BindingElem, f_pattern(imp, t), Some(bool_tree(false))))
        } else {
            one(f_pattern(imp, t))
        },
        FMode::ObjPatProp => one(f_obj_pat_prop(imp, t)),
        FMode::Arg => Some(seq![fcall(imp, Node::Argument, Seq::empty())]),
        FMode::DeclName => if t.children.len() > 0 && t.children[0].kind == JsKind::BindingIdent {
            Some(seq![f_ident(imp, t.children[0])])
        } else {
            Some(Seq::empty())
        },
    }
}

/// An expression: dispatched on its kind.
pub open spec fn f_expr(imp: JsTree, t: JsTree) -> Option<JsTree>
    decreases t, 1int,
{
    if !arity_ok(t) {
        Some(fmisplaced(imp))
    } else if jsx_message(t.kind) is Some {
        Some(ferr(imp, jsx_message(t.kind).unwrap()))
    } else if lit_kind(t.kind) is Some {
        Some(fcall(imp, lit_kind(t.kind).unwrap(), seq![t]))
    } else {
        match t.kind {
            JsKind::Array => kv(imp, Node::ArrayLiteralExpr, f_list(imp, FMode::ArrayLitElem, t.children)),
            JsKind::Arrow => k1(imp, Node::ArrowFunctionExpr, karray(f_list(imp, FMode::Pattern, t.children[0].children))),
            JsKind::Assign | JsKind::Bin => fe_binary(imp, t),
            JsKind::Await => k1(imp, Node::AwaitExpr, f_expr(imp, t.children[0])),
            JsKind::Paren => k1(imp, Node::ParenthesizedExpr, f_expr(imp, t.children[0])),
            JsKind::Call => fe_call(imp, t),
            JsKind::ClassExpr => fe_class(imp, Node::ClassExpr, t),
            JsKind::Cond => k3(
                imp,
                Node::ConditionExpr,
                f_expr(imp, t.children[0]),
                f_expr(imp, t.children[1]),
                f_expr(imp, t.children[2]),
            ),
            JsKind::FnExpr => fe_fn(imp, t),
            JsKind::Ident => Some(f_ident(imp, t)),
            JsKind::Invalid => Some(fmisplaced(imp)),
            JsKind::Member => fe_member(imp, t, false),
            JsKind::MetaProp => Some(ferr(imp, "MetaProp is not supported"@)),
            JsKind::New => fe_new(imp, t),
            JsKind::Object => kv(imp, Node::ObjectLiteralExpr, f_list(imp, FMode::ObjProp, t.children)),
            JsKind::OptChain => fe_opt_chain(imp, t),
            JsKind::PrivateName => Some(f_private(imp, t)),
            JsKind::SeqExpr => if t.children.len() < 2 {
                None
            } else {
                f_seq_fold(imp, t.children)
            },
            JsKind::SuperProp => fe_super_prop(imp, t),
            JsKind::TaggedTpl => k2(imp, Node::TaggedTemplateExpr, f_expr(imp, t.children[0]), f_template(imp, t.children[1])),
            JsKind::This => Some(fcall(imp, Node::ThisExpr, seq![t])),
            JsKind::Tpl => k1(imp, Node::TemplateExpr, f_template(imp, t)),
            JsKind::TsWrapper => f_expr(imp, t.children[0]),
            JsKind::Unary => fe_unary(imp, t),
            JsKind::Update => fe_update(imp, t),
            JsKind::Yield => k2(
                imp,
                Node::YieldExpr,
                or_undefined(t.children[0], f_expr(imp, t.children[0])),
                Some(bool_tree(t.flag)),
            ),
            _ => Some(fmisplaced(imp)),
        }
    }
}

/// An assignment or a binary expression: `BinaryExpr(left, "op", right)`;
/// the left side of an assignment is a pattern or an expression.
pub open spec fn fe_binary(imp: JsTree, t: JsTree) -> Option<JsTree>
    decreases t, 0int,
{
    if t.children.len() != 2 {
        Some(fmisplaced(imp))
    } else {
        let left = t.children[0];
        k3(
            imp,
            Node::BinaryExpr,
            if t.kind == JsKind::Assign && is_pat_kind(left.kind) {
                f_pattern(imp, left)
            } else {
                f_expr(imp, left)
            },
            Some(str_tree(binary_op_str(t.op))),
            f_expr(imp, t.children[1]),
        )
    }
}

/// The callee of a call: `super`, `import` or an expression.
pub open spec fn fe_callee(imp: JsTree, t: JsTree) -> Option<JsTree>
    decreases t, 2int,
{
    if t.kind == JsKind::Super {
        Some(fcall(imp, Node::SuperKeyword, Seq::empty()))
    } else if t.kind == JsKind::Import {
        Some(fcall(imp, Node::ImportKeyword, Seq::empty()))
    } else {
        f_expr(imp, t)
    }
}

/// A call: `CallExpr(callee, [Argument()..])`.
pub open spec fn fe_call(imp: JsTree, t: JsTree) -> Option<JsTree>
    decreases t, 0int,
{
    if t.children.len() != 2 {
        Some(fmisplaced(imp))
    } else {
        k2(imp, Node::CallExpr, fe_callee(imp, t.children[0]), karray(f_list(imp, FMode::Arg, t.children[1].children)))
    }
}

/// A class: `Kind(name, super, [member..])`; the name and the super class
/// are `undefined` where there is none.
pub open spec fn fe_class(imp: JsTree, kind: Node, t: JsTree) -> Option<JsTree>
    decreases t, 0int,
{
    if t.children.len() != 2 || t.children[1].children.len() != 2 {
        Some(fmisplaced(imp))
    } else {
        let class = t.children[1];
        k3(
            imp,
            kind,
            Some(
                if t.children[0].kind == JsKind::Absent {
                    undefined_tree()
                } else {
                    f_ident(imp, t.children[0])
                },
            ),
            or_undefined(class.children[1], f_expr(imp, class.children[1])),
            match f_list(imp, FMode::ClassMember, class.children[0].children) {
                Some(m) => Some(array_elems_tree(m)),
                None => None,
            },
        )
    }
}

/// A function expression: `FunctionExpr([param..])`.
pub open spec fn fe_fn(imp: JsTree, t: JsTree) -> Option<JsTree>
    decreases t, 0int,
{
    if t.children.len() != 2 || t.children[1].children.len() != 2 {
        Some(fmisplaced(imp))
    } else {
        k1(imp, Node::FunctionExpr, karray(f_list(imp, FMode::Param, t.children[1].children[0].children)))
    }
}

/// The property of a member access: an identifier, a private name or a
/// computed name.
pub open spec fn fe_member_prop(imp: JsTree, p: JsTree) -> Option<JsTree>
    decreases p, 0int,
{
    if p.kind == JsKind::Ident {
        Some(f_ident(imp, p))
    } else if p.kind == JsKind::PrivateName {
        Some(f_private(imp, p))
    } else if p.kind == JsKind::Computed && p.children.len() == 1 {
        k1(imp, Node::ComputedPropertyNameExpr, f_expr(imp, p.children[0]))
    } else {
        Some(fmisplaced(imp))
    }
}

/// A member access: `PropAccessExpr(obj, prop, optional)`.
pub open spec fn fe_member(imp: JsTree, t: JsTree, is_optional: bool) -> Option<JsTree>
    decreases t, 0int,
{
    if t.children.len() != 2 {
        Some(fmisplaced(imp))
    } else {
        k3(
            imp,
            Node::PropAccessExpr,
            f_expr(imp, t.children[0]),
            fe_member_prop(imp, t.children[1]),
            Some(bool_tree(is_optional)),
        )
    }
}

/// `new callee(..)`: `NewExpr(callee, [Argument()..])`.
pub open spec fn fe_new(imp: JsTree, t: JsTree) -> Option<JsTree>
    decreases t, 0int,
{
    if t.children.len() != 2 {
        Some(fmisplaced(imp))
    } else {
        k2(
            imp,
            Node::NewExpr,
            f_expr(imp, t.children[0]),
            if t.children[1].kind == JsKind::Absent {
                Some(array_tree(Seq::empty()))
            } else {
                karray(f_list(imp, FMode::Arg, t.children[1].children))
            },
        )
    }
}

/// An optional chain: a call or a member access marked optional.
pub open spec fn fe_opt_chain(imp: JsTree, t: JsTree) -> Option<JsTree>
    decreases t, 0int,
{
    if t.children.len() != 1 {
        Some(fmisplaced(imp))
    } else {
        let base = t.children[0];
        if base.kind == JsKind::OptCall && base.children.len() == 2 {
            k2(imp, Node::CallExpr, f_expr(imp, base.children[0]), karray(f_list(imp, FMode::Arg, base.children[1].children)))
        } else if base.kind == JsKind::Member {
            fe_member(imp, base, true)
        } else {
            Some(fmisplaced(imp))
        }
    }
}

/// The expressions of a sequence, folded from the left into comma
/// operations: `BinaryExpr(BinaryExpr(a, ",", b), ",", c)`.
pub open spec fn f_seq_fold(imp: JsTree, s: Seq<JsTree>) -> Option<JsTree>
    decreases s, 0int,
{
    if s.len() <= 1 {
        if s.len() == 1 {
            f_expr(imp, s[0])
        } else {
            None
        }
    } else {
        k3(imp, Node::BinaryExpr, f_seq_fold(imp, s.subrange(0, s.len() - 1)), Some(str_tree(","@)), f_expr(imp, s[s.len() - 1]))
    }
}

/// `super.prop`: `PropAccessExpr(SuperKeyword(), prop)`.
pub open spec fn fe_super_prop(imp: JsTree, t: JsTree) -> Option<JsTree>
    decreases t, 0int,
{
    if t.children.len() != 2 {
        Some(fmisplaced(imp))
    } else {
        let p = t.children[1];
        k2(
            imp,
            Node::PropAccessExpr,
            Some(fcall(imp, Node::SuperKeyword, Seq::empty())),
            if p.kind == JsKind::Ident {
                Some(f_ident(imp, p))
            } else if p.kind == JsKind::Computed && p.children.len() == 1 {
                k1(imp, Node::ComputedPropertyNameExpr, f_expr(imp, p.children[0]))
            } else {
                Some(fmisplaced(imp))
            },
        )
    }
}

/// A prefix operation: `typeof`, `void` and `delete` have nodes of their
/// own; the others are `UnaryExpr("op", arg)`.
pub open spec fn fe_unary(imp: JsTree, t: JsTree) -> Option<JsTree>
    decreases t, 0int,
{
    if t.children.len() != 1 {
        Some(fmisplaced(imp))
    } else {
        let arg = f_expr(imp, t.children[0]);
        match t.op {
            Op::Unary(UnaryOp::TypeOf) => k1(imp, Node::TypeOfExpr, arg),
            Op::Unary(UnaryOp::Void) => k1(imp, Node::VoidExpr, arg),
            Op::Unary(UnaryOp::Delete) => k1(imp, Node::DeleteExpr, arg),
            Op::Unary(u) => k2(imp, Node::UnaryExpr, Some(str_tree(unary_op_str(u))), arg),
            _ => Some(fmisplaced(imp)),
        }
    }
}

/// An increment or decrement: `UnaryExpr("op", arg)` when it is a prefix,
/// `PostfixUnaryExpr("op", arg)` otherwise.
pub open spec fn fe_update(imp: JsTree, t: JsTree) -> Option<JsTree>
    decreases t, 0int,
{
    if t.children.len() != 1 {
        Some(fmisplaced(imp))
    } else {
        k2(
            imp,
            if t.flag {
                Node::UnaryExpr
            } else {
                Node::PostfixUnaryExpr
            },
            Some(str_tree(
                match t.op {
                    Op::Update(u) => update_op_str(u),
                    _ => Seq::empty(),
                },
            )),
            f_expr(imp, t.children[0]),
        )
    }
}

/// The pieces of a template literal paired with its expressions: each
/// piece is followed by the expression after it, as far as both go.
pub open spec fn f_tpl_parts(imp: JsTree, exprs: Seq<JsTree>, quasis: Seq<JsTree>) -> Option<Seq<JsTree>>
    decreases exprs, 0int,
{
    if exprs.len() == 0 {
        Some(Seq::empty())
    } else if exprs.len() > quasis.len() {
        f_tpl_parts(imp, exprs.subrange(0, exprs.len() - 1), quasis)
    } else {
        let n = exprs.len() - 1;
        match (f_tpl_parts(imp, exprs.subrange(0, n), quasis), f_expr(imp, exprs[n])) {
            (Some(a), Some(e)) => Some(a + seq![f_tpl_element(imp, quasis[n]), e]),
            _ => None,
        }
    }
}

/// A template literal: the array of its pieces and expressions, in order,
/// ending with its last piece where it has more pieces than expressions.
pub open spec fn f_template(imp: JsTree, t: JsTree) -> Option<JsTree>
    decreases t, 0int,
{
    if t.children.len() != 2 {
        Some(fmisplaced(imp))
    } else {
        let exprs = t.children[0].children;
        let quasis = t.children[1].children;
        match f_tpl_parts(imp, exprs, quasis) {
            Some(parts) => Some(
                array_tree(
                    if quasis.len() > exprs.len() {
                        parts.push(f_tpl_element(imp, quasis[quasis.len() - 1]))
                    } else {
                        parts
                    },
                ),
            ),
            None => None,
        }
    }
}

/// A property name.
pub open spec fn f_prop_name(imp: JsTree, t: JsTree) -> Option<JsTree>
    decreases t, 0int,
{
    match t.kind {
        JsKind::Ident => Some(f_ident(imp, t)),
        JsKind::Computed => if t.children.len() == 1 {
            k1(imp, Node::ComputedPropertyNameExpr, f_expr(imp, t.children[0]))
        } else {
            Some(fmisplaced(imp))
        },
        JsKind::BigInt | JsKind::Num | JsKind::Str => Some(fcall(imp, Node::BigIntExpr, seq![t])),
        _ => Some(fmisplaced(imp)),
    }
}

/// A block: `BlockStmt(stmt..)`.
pub open spec fn f_block(imp: JsTree, t: JsTree) -> Option<JsTree>
    decreases t, 0int,
{
    kv(imp, Node::BlockStmt, f_list(imp, FMode::Stmt, t.children))
}

/// The body of a method or accessor: none (it cannot be described) when it
/// is not there.
pub open spec fn f_body(imp: JsTree, t: JsTree) -> Option<JsTree>
    decreases t, 1int,
{
    if t.kind == JsKind::Absent {
        None
    } else {
        f_block(imp, t)
    }
}

/// A method of a class or an object literal with the given name node:
/// `MethodDecl(name, [param..], body)`.
pub open spec fn f_method(imp: JsTree, name: Option<JsTree>, function: JsTree) -> Option<JsTree>
    decreases function, 0int,
{
    if function.children.len() != 2 {
        Some(fmisplaced(imp))
    } else {
        k3(
            imp,
            Node::MethodDecl,
            name,
            karray(f_list(imp, FMode::Param, function.children[0].children)),
            f_body(imp, function.children[1]),
        )
    }
}

/// A statement: dispatched on its kind.
pub open spec fn f_stmt(imp: JsTree, t: JsTree) -> Option<JsTree>
    decreases t, 2int,
{
    if !arity_ok(t) {
        Some(fmisplaced(imp))
    } else {
        match t.kind {
            JsKind::Block => f_block(imp, t),
            JsKind::Break => Some(fcall(imp, Node::BreakStmt, Seq::empty())),
            JsKind::Continue => Some(fcall(imp, Node::ContinueStmt, Seq::empty())),
            JsKind::Debugger => Some(fcall(imp, Node::DebuggerStmt, Seq::empty())),
            JsKind::Empty => Some(fcall(imp, Node::EmptyStmt, Seq::empty())),
            JsKind::ClassDecl | JsKind::FnDecl | JsKind::VarDecl | JsKind::OpaqueDecl => f_decl(imp, t),
            JsKind::DoWhile | JsKind::While => k2(imp, Node::WhileStmt, f_expr(imp, t.children[0]), f_stmt(imp, t.children[1])),
            JsKind::ExprStmt => k1(imp, Node::ExprStmt, f_expr(imp, t.children[0])),
            JsKind::For => k2(
                imp,
                Node::ForStmt,
                f_stmt(imp, t.children[3]),
                if t.children[0].kind == JsKind::Absent {
                    Some(undefined_tree())
                } else if t.children[0].kind == JsKind::VarDecl {
                    f_decl(imp, t.children[0])
                } else {
                    f_expr(imp, t.children[0])
                },
            ),
            JsKind::ForIn | JsKind::ForOf => k3(
                imp,
                Node::ForInStmt,
                if t.children[0].kind == JsKind::VarDecl {
                    f_decl(imp, t.children[0])
                } else {
                    f_pattern(imp, t.children[0])
                },
                f_expr(imp, t.children[1]),
                f_stmt(imp, t.children[2]),
            ),
            JsKind::If => k3(
                imp,
                Node::IfStmt,
                f_expr(imp, t.children[0]),
                f_stmt(imp, t.children[1]),
                or_undefined(t.children[2], f_stmt(imp, t.children[2])),
            ),
            JsKind::Labeled => k1(imp, Node::LabelledStmt, f_stmt(imp, t.children[1])),
            JsKind::Return => k1(
                imp,
                Node::ReturnStmt,
                if t.children[0].kind == JsKind::Absent {
                    Some(fcall(imp, Node::UndefinedLiteralExpr, Seq::empty()))
                } else {
                    f_expr(imp, t.children[0])
                },
            ),
            JsKind::Switch => k2(
                imp,
                Node::SwitchStmt,
                f_expr(imp, t.children[0]),
                karray(f_list(imp, FMode::Case, t.children[1].children)),
            ),
            JsKind::Throw => k1(imp, Node::ThrowStmt, f_expr(imp, t.children[0])),
            JsKind::Try => k3(
                imp,
                Node::TryStmt,
                f_block(imp, t.children[0]),
                f_handler(imp, t.children[1]),
                or_undefined(t.children[2], f_block(imp, t.children[2])),
            ),
            JsKind::With => k2(imp, Node::WithStmt, f_expr(imp, t.children[0]), f_stmt(imp, t.children[1])),
            _ => Some(fmisplaced(imp)),
        }
    }
}

/// The handler of a `try`: its parameter, `undefined` where there is no
/// handler or it has none.
pub open spec fn f_handler(imp: JsTree, t: JsTree) -> Option<JsTree>
    decreases t, 0int,
{
    if t.kind == JsKind::Absent || t.children.len() != 2 {
        Some(undefined_tree())
    } else {
        or_undefined(t.children[0], f_pattern(imp, t.children[0]))
    }
}

/// A case of a `switch`: `CaseClause(stmt..)`, or `DefaultClause(stmt..)`
/// where it has no test.
pub open spec fn f_case(imp: JsTree, t: JsTree) -> Option<JsTree>
    decreases t, 0int,
{
    if t.children.len() != 2 {
        Some(fmisplaced(imp))
    } else {
        kv(
            imp,
            if t.children[0].kind == JsKind::Absent {
                Node::DefaultClause
            } else {
                Node::CaseClause
            },
            f_list(imp, FMode::Stmt, t.children[1].children),
        )
    }
}

/// A declaration; TypeScript declarations cannot be described.
pub open spec fn f_decl(imp: JsTree, t: JsTree) -> Option<JsTree>
    decreases t, 1int,
{
    match t.kind {
        JsKind::ClassDecl => fe_class(imp, Node::ClassDecl, t),
        JsKind::FnDecl => if t.children.len() == 2 && t.children[1].children.len() == 2 {
            k1(imp, Node::FunctionDecl, karray(f_list(imp, FMode::FnDeclParam, t.children[1].children[0].children)))
        } else {
            Some(fmisplaced(imp))
        },
        JsKind::VarDecl => k1(imp, Node::VariableStmt, kv(imp, Node::VariableDeclList, f_list(imp, FMode::DeclName, t.children))),
        JsKind::OpaqueDecl => None,
        _ => Some(fmisplaced(imp)),
    }
}

/// A class member: `Some(None)` for one that is not described (an empty
/// member or an index signature).
pub open spec fn f_class_member(imp: JsTree, t: JsTree) -> Option<Option<JsTree>>
    decreases t, 0int,
{
    let r = if t.kind == JsKind::ClassProp && t.children.len() == 2 {
        k3(
            imp,
            Node::PropDecl,
            f_prop_name(imp, t.children[0]),
            Some(bool_tree(t.flag)),
            or_undefined(t.children[1], f_expr(imp, t.children[1])),
        )
    } else if t.kind == JsKind::PrivateProp && t.children.len() == 2 {
        k3(
            imp,
            Node::PropDecl,
            Some(f_private(imp, t.children[0])),
            Some(bool_tree(t.flag)),
            or_undefined(t.children[1], f_expr(imp, t.children[1])),
        )
    } else if t.kind == JsKind::Constructor && t.children.len() == 3 {
        k2(
            imp,
            Node::ConstructorDecl,
            karray(f_list(imp, FMode::CtorParam, t.children[1].children)),
            f_body(imp, t.children[2]),
        )
    } else if t.kind == JsKind::ClassMethod && t.children.len() == 2 {
        f_method(imp, f_prop_name(imp, t.children[0]), t.children[1])
    } else if t.kind == JsKind::PrivateMethod && t.children.len() == 2 {
        f_method(imp, Some(f_private(imp, t.children[0])), t.children[1])
    } else if t.kind == JsKind::StaticBlock && t.children.len() == 1 {
        k1(imp, Node::ClassStaticBlockDecl, f_block(imp, t.children[0]))
    } else {
        Some(fmisplaced(imp))
    };
    if t.kind == JsKind::EmptyMember || t.kind == JsKind::OpaqueMember {
        Some(None)
    } else {
        match r {
            Some(m) => Some(Some(m)),
            None => None,
        }
    }
}

/// A parameter of a constructor: a parameter's pattern, or
/// `ParameterDecl(..)` for a parameter property.
pub open spec fn f_ctor_param(imp: JsTree, t: JsTree) -> Option<JsTree>
    decreases t, 0int,
{
    if t.kind == JsKind::Param && t.children.len() == 1 {
        f_pattern(imp, t.children[0])
    } else if t.kind == JsKind::TsParamProp && t.children.len() == 1 {
        let p = t.children[0];
        if p.kind == JsKind::BindingIdent {
            Some(fcall(imp, Node::ParameterDecl, seq![f_ident(imp, p)]))
        } else if p.kind == JsKind::AssignPat && p.children.len() == 2 {
            k2(imp, Node::ParameterDecl, f_pattern(imp, p.children[0]), f_expr(imp, p.children[1]))
        } else {
            Some(fmisplaced(imp))
        }
    } else {
        Some(fmisplaced(imp))
    }
}

/// A property of an object literal; an assignment property cannot be
/// described, nor an accessor or method without a body.
pub open spec fn f_obj_prop(imp: JsTree, t: JsTree) -> Option<JsTree>
    decreases t, 0int,
{
    if !arity_ok(t) {
        Some(fmisplaced(imp))
    } else {
        match t.kind {
            JsKind::PropAssign => None,
            JsKind::PropGetter => k2(imp, Node::GetAccessorDecl, f_prop_name(imp, t.children[0]), f_body(imp, t.children[1])),
            JsKind::PropKeyValue => k2(imp, Node::PropAssignExpr, f_prop_name(imp, t.children[0]), f_expr(imp, t.children[1])),
            JsKind::PropMethod => f_method(imp, f_prop_name(imp, t.children[0]), t.children[1]),
            JsKind::PropSetter => k3(
                imp,
                Node::SetAccessorDecl,
                f_prop_name(imp, t.children[0]),
                f_pattern(imp, t.children[1]),
                f_body(imp, t.children[2]),
            ),
            JsKind::PropShorthand => Some(fcall(imp, Node::PropAssignExpr, seq![f_ident(imp, t.children[0]), f_ident(imp, t.children[0])])),
            JsKind::Spread => k1(imp, Node::SpreadAssignExpr, f_expr(imp, t.children[0])),
            _ => Some(fmisplaced(imp)),
        }
    }
}

/// A binding pattern; a pattern that did not parse cannot be described.
pub open spec fn f_pattern(imp: JsTree, t: JsTree) -> Option<JsTree>
    decreases t, 1int,
{
    if !arity_ok(t) {
        Some(fmisplaced(imp))
    } else {
        match t.kind {
            JsKind::ArrayPat => kv(imp, Node::ArrayBinding, f_list(imp, FMode::ArrayPatElem, t.children)),
            JsKind::ObjectPat => kv(imp, Node::ObjectBinding, f_list(imp, FMode::ObjPatProp, t.children)),
            JsKind::AssignPat => k4(
                imp,
                Node::BindingElem,
                f_pattern(imp, t.children[0]),
                Some(bool_tree(false)),
                Some(undefined_tree()),
                f_expr(imp, t.children[1]),
            ),
            JsKind::ExprPat => f_expr(imp, t.children[0]),
            JsKind::BindingIdent => Some(f_ident(imp, t)),
            JsKind::InvalidPat => None,
            JsKind::RestPat => Some(fcall(imp, Node::BindingElem, Seq::empty())),
            _ => Some(fmisplaced(imp)),
        }
    }
}

/// A property of an object pattern: `BindingElem(..)`.
pub open spec fn f_obj_pat_prop(imp: JsTree, t: JsTree) -> Option<JsTree>
    decreases t, 0int,
{
    if !arity_ok(t) {
        Some(fmisplaced(imp))
    } else {
        match t.kind {
            // {key = value} and {key}
            JsKind::ObjAssignProp => if t.children[1].kind == JsKind::Absent {
                Some(fcall(imp, Node::BindingElem, seq![t.children[0], bool_tree(false)]))
            } else {
                k3(imp, Node::BindingElem, f_expr(imp, t.children[1]), Some(bool_tree(false)), Some(t.children[0]))
            },
            // {key: value}, where value may be `name = init`
            JsKind::ObjKeyValueProp => {
                let v = t.children[1];
                if v.kind == JsKind::AssignPat && v.children.len() == 2 {
                    k4(
                        imp,
                        Node::BindingElem,
                        f_pattern(imp, v.children[0]),
                        Some(bool_tree(false)),
                        f_prop_name(imp, t.children[0]),
                        f_expr(imp, v.children[1]),
                    )
                } else {
                    k4(
                        imp,
                        Node::BindingElem,
                        f_pattern(imp, v),
                        Some(bool_tree(false)),
                        f_prop_name(imp, t.children[0]),
                        Some(undefined_tree()),
                    )
                }
            },
            // {...rest}
            JsKind::ObjRestProp => k2(imp, Node::BindingElem, f_pattern(imp, t.children[0]), Some(bool_tree(true))),
            _ => Some(fmisplaced(imp)),
        }
    }
}

/// Whether a tree is a Functionless node: a call `import.Kind(..)`.
pub open spec fn is_fnode(imp: JsTree, r: JsTree) -> bool {
    &&& r.kind == JsKind::Call
    &&& r.children.len() == 2
    &&& r.children[0].kind == JsKind::Member
    &&& r.children[0].children.len() == 2
    &&& r.children[0].children[0] == imp
}

/// A conditional expression is described by a `ConditionExpr` call whose
/// arguments are the descriptions of its test, its consequent and its
/// alternate, in that order; it has no description when one of them has none.
pub proof fn law_condition_described_in_order(imp: JsTree, t: JsTree)
    requires
        t.kind == JsKind::Cond,
        t.children.len() == 3,
    ensures
        match (f_expr(imp, t.children[0]), f_expr(imp, t.children[1]), f_expr(imp, t.children[2])) {
            (Some(x), Some(y), Some(z)) => f_expr(imp, t) == Some(fcall(imp, Node::ConditionExpr, seq![x, y, z])),
            _ => f_expr(imp, t) is None,
        },
{
    assert(arity_ok(t));
    assert(jsx_message(t.kind) is None);
    assert(lit_kind(t.kind) is None);
}

/// Every expression this form describes is described by a Functionless
/// node: a call on the module's identifier.
#[verifier::rlimit(60)]
pub proof fn law_expr_described_by_node(imp: JsTree, t: JsTree)
    ensures
        f_expr(imp, t) matches Some(r) ==> is_fnode(imp, r),
    decreases t,
{
    if arity_ok(t) && jsx_message(t.kind) is None && lit_kind(t.kind) is None {
        if t.kind == JsKind::TsWrapper {
            law_expr_described_by_node(imp, t.children[0]);
        } else if t.kind == JsKind::SeqExpr && t.children.len() >= 2 {
            let s = t.children;
            assert(f_seq_fold(imp, s) == k3(
                imp,
                Node::BinaryExpr,
                f_seq_fold(imp, s.subrange(0, s.len() - 1)),
                Some(str_tree(","@)),
                f_expr(imp, s[s.len() - 1]),
            ));
        } else if t.kind == JsKind::Assign || t.kind == JsKind::Bin {
            assert(f_expr(imp, t) == fe_binary(imp, t));
        } else if t.kind == JsKind::Call {
            assert(f_expr(imp, t) == fe_call(imp, t));
        } else if t.kind == JsKind::ClassExpr {
            assert(f_expr(imp, t) == fe_class(imp, Node::ClassExpr, t));
        } else if t.kind == JsKind::FnExpr {
            assert(f_expr(imp, t) == fe_fn(imp, t));
        } else if t.kind == JsKind::Member {
            assert(f_expr(imp, t) == fe_member(imp, t, false));
        } else if t.kind == JsKind::New {
            assert(f_expr(imp, t) == fe_new(imp, t));
        } else if t.kind == JsKind::OptChain {
            assert(f_expr(imp, t) == fe_opt_chain(imp, t));
            if t.children.len() == 1 && t.children[0].kind == JsKind::Member {
                assert(fe_opt_chain(imp, t) == fe_member(imp, t.children[0], true));
            }
        } else if t.kind == JsKind::SuperProp {
            assert(f_expr(imp, t) == fe_super_prop(imp, t));
        } else if t.kind == JsKind::Unary {
            assert(f_expr(imp, t) == fe_unary(imp, t));
        } else if t.kind == JsKind::Update {
            assert(f_expr(imp, t) == fe_update(imp, t));
        }
    }
}

/// What an optional node is, by its view.
pub open spec fn opt_tree(r: Option<JsNode>) -> Option<JsTree> {
    match r {
        Some(n) => Some(n@),
        None => None,
    }
}

/// What an optional list of nodes is, by its view.
pub open spec fn opt_trees(r: Option<Vec<JsNode>>) -> Option<Seq<JsTree>> {
    match r {
        Some(v) => Some(view_nodes(v@)),
        None => None,
    }
}

/// The parser; `import` is the identifier that names the Functionless
/// module in the emitted calls.
pub struct FunctionlessASTParser {
    pub import: JsNode,
}

/// Parses a closure (an expression) with the given identifier for the
/// Functionless module; see [`f_expr`]. The closure must be one this form
/// can describe.
pub fn parse_closure(import: JsNode, node: &JsNode) -> (r: JsNode)
    requires
        f_expr(import@, node@) is Some,
    ensures
        Some(r@) == f_expr(import@, node@),
{
    let parser = FunctionlessASTParser::new(import);
    parser.try_expr(node).unwrap()
}

/// Parses a closure, or gives `None` when this form cannot describe it; see
/// [`f_expr`].
pub fn try_parse_closure(import: JsNode, node: &JsNode) -> (r: Option<JsNode>)
    ensures
        opt_tree(r) == f_expr(import@, node@),
{
    let parser = FunctionlessASTParser::new(import);
    parser.try_expr(node)
}

impl FunctionlessASTParser {
    /// A parser that names the Functionless module by `import`.
    pub fn new(import: JsNode) -> (r: FunctionlessASTParser)
        ensures
            r.import == import,
    {
        FunctionlessASTParser { import }
    }

    /// `import.Kind(...args)`.
    fn node(&self, kind: Node, args: Vec<JsNode>) -> (r: JsNode)
        ensures
            r@ == fcall(self.import@, kind, view_nodes(args@)),
    {
        proof {
            reveal(array_tree);
        }
        let callee = prop_access_expr(clone_node(&self.import), quote_ident(node_kind_name(kind)));
        let arr = array_expr(args);
        proof {
            lemma_view_nodes(arr.children@);
        }
        call_expr(callee, arr.children)
    }

    fn node0(&self, kind: Node) -> (r: JsNode)
        ensures
            r@ == fcall(self.import@, kind, Seq::empty()),
    {
        let v: Vec<JsNode> = Vec::new();
        proof {
            lemma_view_nodes(v@);
            assert(view_nodes(v@) =~= Seq::<JsTree>::empty());
        }
        self.node(kind, v)
    }

    fn node1(&self, kind: Node, a: JsNode) -> (r: JsNode)
        ensures
            r@ == fcall(self.import@, kind, seq![a@]),
    {
        let ghost x = a@;
        let v = vec![a];
        proof {
            lemma_view_nodes(v@);
            assert(view_nodes(v@) =~= seq![x]);
        }
        self.node(kind, v)
    }

    fn node2(&self, kind: Node, a: JsNode, b: JsNode) -> (r: JsNode)
        ensures
            r@ == fcall(self.import@, kind, seq![a@, b@]),
    {
        let ghost (x, y) = (a@, b@);
        let v = vec![a, b];
        proof {
            lemma_view_nodes(v@);
            assert(view_nodes(v@) =~= seq![x, y]);
        }
        self.node(kind, v)
    }

    fn node3(&self, kind: Node, a: JsNode, b: JsNode, c: JsNode) -> (r: JsNode)
        ensures
            r@ == fcall(self.import@, kind, seq![a@, b@, c@]),
    {
        let ghost (x, y, z) = (a@, b@, c@);
        let v = vec![a, b, c];
        proof {
            lemma_view_nodes(v@);
            assert(view_nodes(v@) =~= seq![x, y, z]);
        }
        self.node(kind, v)
    }

    fn node4(&self, kind: Node, a: JsNode, b: JsNode, c: JsNode, d: JsNode) -> (r: JsNode)
        ensures
            r@ == fcall(self.import@, kind, seq![a@, b@, c@, d@]),
    {
        let ghost (x, y, z, w) = (a@, b@, c@, d@);
        let v = vec![a, b, c, d];
        proof {
            lemma_view_nodes(v@);
            assert(view_nodes(v@) =~= seq![x, y, z, w]);
        }
        self.node(kind, v)
    }

    /// An error node with the given message.
    fn err(&self, message: &str) -> (r: JsNode)
        ensures
            r@ == ferr(self.import@, message@),
    {
        self.node1(Node::Error, string_expr(message))
    }

    /// The error node of a misplaced node.
    fn misplaced(&self) -> (r: JsNode)
        ensures
            r@ == fmisplaced(self.import@),
    {
        proof {
            reveal_strlit("Syntax Error");
        }
        self.err("Syntax Error")
    }

    /// The identifier node of a name.
    fn ident(&self, t: &JsNode) -> (r: JsNode)
        ensures
            r@ == f_ident(self.import@, t@),
    {
        let s = self.node1(Node::StringLiteralExpr, string_expr_of(&t.text));
        self.node1(Node::Identifier, s)
    }

    /// The private identifier node of a private name.
    fn private(&self, t: &JsNode) -> (r: JsNode)
        ensures
            r@ == f_private(self.import@, t@),
    {
        let mut text = String::from_str("#");
        text.append(t.text.as_str());
        proof {
            reveal_strlit("#");
            assert(text@ =~= seq!['#'] + t@.text);
        }
        self.node1(Node::PrivateIdentifier, string_expr_of(&text))
    }

    /// The string node of a piece of a template literal.
    fn tpl_element(&self, t: &JsNode) -> (r: JsNode)
        ensures
            r@ == f_tpl_element(self.import@, t@),
    {
        self.node1(Node::StringLiteralExpr, string_expr_of(&t.text))
    }

    fn k1x(&self, kind: Node, a: Option<JsNode>) -> (r: Option<JsNode>)
        ensures
            opt_tree(r) == k1(self.import@, kind, opt_tree(a)),
    {
        match a {
            Some(x) => Some(self.node1(kind, x)),
            None => None,
        }
    }

    fn k2x(&self, kind: Node, a: Option<JsNode>, b: Option<JsNode>) -> (r: Option<JsNode>)
        ensures
            opt_tree(r) == k2(self.import@, kind, opt_tree(a), opt_tree(b)),
    {
        match (a, b) {
            (Some(x), Some(y)) => Some(self.node2(kind, x, y)),
            _ => None,
        }
    }

    fn k3x(&self, kind: Node, a: Option<JsNode>, b: Option<JsNode>, c: Option<JsNode>) -> (r: Option<JsNode>)
        ensures
            opt_tree(r) == k3(self.import@, kind, opt_tree(a), opt_tree(b), opt_tree(c)),
    {
        match (a, b, c) {
            (Some(x), Some(y), Some(z)) => Some(self.node3(kind, x, y, z)),
            _ => None,
        }
    }

    fn k4x(&self, kind: Node, a: Option<JsNode>, b: Option<JsNode>, c: Option<JsNode>, d: Option<JsNode>) -> (r: Option<JsNode>)
        ensures
            opt_tree(r) == k4(self.import@, kind, opt_tree(a), opt_tree(b), opt_tree(c), opt_tree(d)),
    {
        match (a, b, c, d) {
            (Some(x), Some(y), Some(z), Some(w)) => Some(self.node4(kind, x, y, z, w)),
            _ => None,
        }
    }

    fn kvx(&self, kind: Node, s: Option<Vec<JsNode>>) -> (r: Option<JsNode>)
        ensures
            opt_tree(r) == kv(self.import@, kind, opt_trees(s)),
    {
        match s {
            Some(v) => Some(self.node(kind, v)),
            None => None,
        }
    }

    fn karrayx(s: Option<Vec<JsNode>>) -> (r: Option<JsNode>)
        ensures
            opt_tree(r) == karray(opt_trees(s)),
    {
        match s {
            Some(v) => Some(array_expr(v)),
            None => None,
        }
    }

    fn onex(a: Option<JsNode>) -> (r: Option<Vec<JsNode>>)
        ensures
            opt_trees(r) == one(opt_tree(a)),
    {
        match a {
            Some(x) => {
                let ghost t = x@;
                let v = vec![x];
                proof {
                    lemma_view_nodes(v@);
                    assert(view_nodes(v@) =~= seq![t]);
                }
                Some(v)
            },
            None => None,
        }
    }

    fn or_undefined_x(t: &JsNode, parsed: Option<JsNode>) -> (r: Option<JsNode>)
        ensures
            opt_tree(r) == or_undefined(t@, opt_tree(parsed)),
    {
        if t.kind == JsKind::Absent {
            Some(undefined_expr())
        } else {
            parsed
        }
    }
}

/// The view of an optional class member.
pub open spec fn opt_member(r: Option<Option<JsNode>>) -> Option<Option<JsTree>> {
    match r {
        Some(Some(n)) => Some(Some(n@)),
        Some(None) => Some(None),
        None => None,
    }
}

/// Whether a kind is a JSX node, which this form does not describe.
fn is_jsx_kind(k: JsKind) -> (r: bool)
    ensures
        r == (jsx_message(k) is Some),
{
    match k {
        JsKind::JsxElement | JsKind::JsxEmpty | JsKind::JsxFragment | JsKind::JsxMember | JsKind::JsxNamespacedName
        | JsKind::JsxText => true,
        _ => false,
    }
}

/// Whether a kind is a literal.
fn is_lit_kind(k: JsKind) -> (r: bool)
    ensures
        r == (lit_kind(k) is Some),
{
    match k {
        JsKind::Bool | JsKind::BigInt | JsKind::Null | JsKind::Num | JsKind::Int | JsKind::Regex | JsKind::Str => true,
        _ => false,
    }
}

/// Whether a kind is a binding pattern.
fn is_pat_kind_exec(k: JsKind) -> (r: bool)
    ensures
        r == is_pat_kind(k),
{
    match k {
        JsKind::BindingIdent | JsKind::ArrayPat | JsKind::ObjectPat | JsKind::AssignPat | JsKind::RestPat
        | JsKind::InvalidPat | JsKind::ExprPat => true,
        _ => false,
    }
}

/// The string literal of the operator of an assignment or binary
/// expression.
fn binary_op_node(op: Op) -> (r: JsNode)
    ensures
        r@ == str_tree(binary_op_str(op)),
{
    match op {
        Op::Assign(a) => string_expr(assign_op_text(a)),
        Op::Bin(b) => string_expr(bin_op_text(b)),
        _ => {
            proof {
                reveal_strlit("");
                assert(""@ =~= Seq::<char>::empty());
            }
            string_expr("")
        },
    }
}

impl FunctionlessASTParser {
    /// Parses the nodes of a list at the position `mode`, in order; see
    /// [`f_list`].
    fn try_list(&self, mode: FMode, s: &Vec<JsNode>) -> (r: Option<Vec<JsNode>>)
        ensures
            opt_trees(r) == f_list(self.import@, mode, view_nodes(s@)),
        decreases s, 0int,
    {
        let ghost vs = view_nodes(s@);
        let ghost imp = self.import@;
        proof {
            lemma_view_nodes(s@);
            lemma_view_nodes(Seq::<JsNode>::empty());
            assert(vs.subrange(0, 0) =~= Seq::<JsTree>::empty());
            assert(view_nodes(Seq::<JsNode>::empty()) =~= Seq::<JsTree>::empty());
        }
        let mut out: Vec<JsNode> = Vec::new();
        let mut failed = false;
        let mut i: usize = 0;
        while i < s.len()
            invariant
                i <= s@.len(),
                vs == view_nodes(s@),
                vs.len() == s@.len(),
                forall|k: int| 0 <= k < s@.len() ==> #[trigger] vs[k] == s@[k]@,
                imp == self.import@,
                failed ==> f_list(imp, mode, vs.subrange(0, i as int)) is None,
                !failed ==> f_list(imp, mode, vs.subrange(0, i as int)) == Some(view_nodes(out@)),
            decreases s@.len() - i,
        {
            proof {
                assert(decreases_to!(s => s@));
                assert(decreases_to!(s@ => s@[i as int]));
                let q = vs.subrange(0, i + 1);
                assert(q.subrange(0, q.len() - 1) =~= vs.subrange(0, i as int));
            }
            if !failed {
                match self.try_item(mode, &s[i]) {
                    Some(v) => {
                        let ghost (a, b) = (out@, v@);
                        let mut v = v;
                        proof {
                            lemma_view_nodes_concat(a, b);
                        }
                        out.append(&mut v);
                        assert(out@ == a + b);
                    },
                    None => {
                        failed = true;
                    },
                }
            }
            i += 1;
        }
        proof {
            assert(vs.subrange(0, i as int) =~= vs);
        }
        if failed {
            None
        } else {
            Some(out)
        }
    }

    /// Parses one node at the position `mode`; see [`f_item`].
    fn try_item(&self, mode: FMode, t: &JsNode) -> (r: Option<Vec<JsNode>>)
        ensures
            opt_trees(r) == f_item(self.import@, mode, t@),
        decreases t, 9int,
    {
        proof {
            lemma_node(*t);
            lemma_view_nodes(Seq::<JsNode>::empty());
            assert(view_nodes(Seq::<JsNode>::empty()) =~= Seq::<JsTree>::empty());
        }
        match mode {
            FMode::ArrayLitElem => {
                if t.kind == JsKind::Absent {
                    Some(Vec::new())
                } else if t.children.len() == 1 {
                    Self::onex(self.try_expr(&t.children[0]))
                } else {
                    Self::onex(Some(self.misplaced()))
                }
            },
            FMode::Pattern => Self::onex(self.try_pattern(t)),
            FMode::Param => {
                if t.children.len() == 1 {
                    Self::onex(self.try_pattern(&t.children[0]))
                } else {
                    Self::onex(Some(self.misplaced()))
                }
            },
            FMode::FnDeclParam => {
                if t.children.len() == 1 {
                    Self::onex(self.k1x(Node::ParameterDecl, self.try_pattern(&t.children[0])))
                } else {
                    Self::onex(Some(self.misplaced()))
                }
            },
            FMode::Stmt => Self::onex(self.try_stmt(t)),
            FMode::ClassMember => match self.parse_class_member(t) {
                Some(Some(m)) => Self::onex(Some(eos(m))),
                Some(None) => Self::onex(Some(absent_node())),
                None => None,
            },
            FMode::ObjProp => Self::onex(self.parse_obj_prop(t)),
            FMode::Case => Self::onex(self.parse_case(t)),
            FMode::CtorParam => Self::onex(self.parse_ctor_param(t)),
            FMode::ArrayPatElem => {
                if t.kind == JsKind::Absent {
                    Some(Vec::new())
                } else if t.kind == JsKind::BindingIdent {
                    Self::onex(self.k2x(Node::BindingElem, self.try_pattern(t), Some(bool_expr(false))))
                } else {
                    Self::onex(self.try_pattern(t))
                }
            },
            FMode::ObjPatProp => Self::onex(self.parse_obj_pat_prop(t)),
            FMode::Arg => Self::onex(Some(self.node0(Node::Argument))),
            FMode::DeclName => {
                if t.children.len() > 0 && t.children[0].kind == JsKind::BindingIdent {
                    Self::onex(Some(self.ident(&t.children[0])))
                } else {
                    Some(Vec::new())
                }
            },
        }
    }

    /// Parses an expression, or gives `None` where this form has no
    /// description of it; see [`f_expr`].
    fn try_expr(&self, t: &JsNode) -> (r: Option<JsNode>)
        ensures
            opt_tree(r) == f_expr(self.import@, t@),
        decreases t, 1int,
    {
        proof {
            lemma_node(*t);
        }
        if !arity_fits(t.kind, t.children.len()) {
            return Some(self.misplaced());
        }
        if is_jsx_kind(t.kind) {
            return Some(self.err(jsx_text(t.kind)));
        }
        if is_lit_kind(t.kind) {
            return Some(self.node1(lit_node_kind(t.kind), clone_node(t)));
        }
        match t.kind {
            JsKind::Array => self.kvx(Node::ArrayLiteralExpr, self.try_list(FMode::ArrayLitElem, &t.children)),
            JsKind::Arrow => self.k1x(Node::ArrowFunctionExpr, Self::karrayx(self.try_list(FMode::Pattern, &t.children[0].children))),
            JsKind::Assign | JsKind::Bin => self.parse_binary(t),
            JsKind::Await => self.k1x(Node::AwaitExpr, self.try_expr(&t.children[0])),
            JsKind::Paren => self.k1x(Node::ParenthesizedExpr, self.try_expr(&t.children[0])),
            JsKind::Call => self.parse_call(t),
            JsKind::ClassExpr => self.parse_class(Node::ClassExpr, t),
            JsKind::Cond => {
                let a = self.try_expr(&t.children[0]);
                let b = self.try_expr(&t.children[1]);
                let c = self.try_expr(&t.children[2]);
                self.k3x(Node::ConditionExpr, a, b, c)
            },
            JsKind::FnExpr => self.parse_fn_expr(t),
            JsKind::Ident => Some(self.ident(t)),
            JsKind::Member => self.parse_member(t, false),
            JsKind::MetaProp => {
                proof {
                    reveal_strlit("MetaProp is not supported");
                }
                Some(self.err("MetaProp is not supported"))
            },
            JsKind::New => self.parse_new(t),
            JsKind::Object => self.kvx(Node::ObjectLiteralExpr, self.try_list(FMode::ObjProp, &t.children)),
            JsKind::OptChain => self.parse_opt_chain(t),
            JsKind::PrivateName => Some(self.private(t)),
            JsKind::SeqExpr => {
                if t.children.len() < 2 {
                    None
                } else {
                    self.parse_seq_fold(&t.children)
                }
            },
            JsKind::SuperProp => self.parse_super_prop(t),
            JsKind::TaggedTpl => {
                let tag = self.try_expr(&t.children[0]);
                let tpl = self.parse_template(&t.children[1]);
                self.k2x(Node::TaggedTemplateExpr, tag, tpl)
            },
            JsKind::This => Some(self.node1(Node::ThisExpr, clone_node(t))),
            JsKind::Tpl => self.k1x(Node::TemplateExpr, self.parse_template(t)),
            JsKind::TsWrapper => self.try_expr(&t.children[0]),
            JsKind::Unary => self.parse_unary(t),
            JsKind::Update => self.parse_update(t),
            JsKind::Yield => {
                let arg = Self::or_undefined_x(&t.children[0], self.try_expr(&t.children[0]));
                self.k2x(Node::YieldExpr, arg, Some(bool_expr(t.flag)))
            },
            _ => Some(self.misplaced()),
        }
    }
}

impl FunctionlessASTParser {
    /// An assignment or binary expression; see [`fe_binary`].
    fn parse_binary(&self, t: &JsNode) -> (r: Option<JsNode>)
        ensures
            opt_tree(r) == fe_binary(self.import@, t@),
        decreases t, 0int,
    {
        proof {
            lemma_node(*t);
        }
        if t.children.len() != 2 {
            return Some(self.misplaced());
        }
        let left = &t.children[0];
        let l = if t.kind == JsKind::Assign && is_pat_kind_exec(left.kind) {
            self.try_pattern(left)
        } else {
            self.try_expr(left)
        };
        let right = self.try_expr(&t.children[1]);
        self.k3x(Node::BinaryExpr, l, Some(binary_op_node(t.op)), right)
    }

    /// The callee of a call; see [`fe_callee`].
    fn parse_callee(&self, t: &JsNode) -> (r: Option<JsNode>)
        ensures
            opt_tree(r) == fe_callee(self.import@, t@),
        decreases t, 2int,
    {
        if t.kind == JsKind::Super {
            Some(self.node0(Node::SuperKeyword))
        } else if t.kind == JsKind::Import {
            Some(self.node0(Node::ImportKeyword))
        } else {
            self.try_expr(t)
        }
    }

    /// A call; see [`fe_call`].
    fn parse_call(&self, t: &JsNode) -> (r: Option<JsNode>)
        ensures
            opt_tree(r) == fe_call(self.import@, t@),
        decreases t, 0int,
    {
        proof {
            lemma_node(*t);
        }
        if t.children.len() != 2 {
            return Some(self.misplaced());
        }
        let callee = self.parse_callee(&t.children[0]);
        let args = Self::karrayx(self.try_list(FMode::Arg, &t.children[1].children));
        self.k2x(Node::CallExpr, callee, args)
    }

    /// A class declaration or expression; see [`fe_class`].
    fn parse_class(&self, kind: Node, t: &JsNode) -> (r: Option<JsNode>)
        ensures
            opt_tree(r) == fe_class(self.import@, kind, t@),
        decreases t, 0int,
    {
        proof {
            lemma_node(*t);
        }
        if t.children.len() != 2 {
            return Some(self.misplaced());
        }
        let class = &t.children[1];
        proof {
            lemma_node(*class);
        }
        if class.children.len() != 2 {
            return Some(self.misplaced());
        }
        let name = if t.children[0].kind == JsKind::Absent {
            undefined_expr()
        } else {
            self.ident(&t.children[0])
        };
        let sup = Self::or_undefined_x(&class.children[1], self.try_expr(&class.children[1]));
        let members = match self.try_list(FMode::ClassMember, &class.children[0].children) {
            Some(m) => Some(mk_inner(JsKind::Array, empty_span(), m)),
            None => None,
        };
        self.k3x(kind, Some(name), sup, members)
    }

    /// A function expression; see [`fe_fn`].
    fn parse_fn_expr(&self, t: &JsNode) -> (r: Option<JsNode>)
        ensures
            opt_tree(r) == fe_fn(self.import@, t@),
        decreases t, 0int,
    {
        proof {
            lemma_node(*t);
        }
        if t.children.len() != 2 {
            return Some(self.misplaced());
        }
        let function = &t.children[1];
        proof {
            lemma_node(*function);
        }
        if function.children.len() != 2 {
            return Some(self.misplaced());
        }
        self.k1x(Node::FunctionExpr, Self::karrayx(self.try_list(FMode::Param, &function.children[0].children)))
    }

    /// The property of a member access; see [`fe_member_prop`].
    fn parse_member_prop(&self, p: &JsNode) -> (r: Option<JsNode>)
        ensures
            opt_tree(r) == fe_member_prop(self.import@, p@),
        decreases p, 0int,
    {
        proof {
            lemma_node(*p);
        }
        if p.kind == JsKind::Ident {
            Some(self.ident(p))
        } else if p.kind == JsKind::PrivateName {
            Some(self.private(p))
        } else if p.kind == JsKind::Computed && p.children.len() == 1 {
            self.k1x(Node::ComputedPropertyNameExpr, self.try_expr(&p.children[0]))
        } else {
            Some(self.misplaced())
        }
    }

    /// A member access; see [`fe_member`].
    fn parse_member(&self, t: &JsNode, is_optional: bool) -> (r: Option<JsNode>)
        ensures
            opt_tree(r) == fe_member(self.import@, t@, is_optional),
        decreases t, 0int,
    {
        proof {
            lemma_node(*t);
        }
        if t.children.len() != 2 {
            return Some(self.misplaced());
        }
        let obj = self.try_expr(&t.children[0]);
        let prop = self.parse_member_prop(&t.children[1]);
        self.k3x(Node::PropAccessExpr, obj, prop, Some(bool_expr(is_optional)))
    }

    /// `new callee(..)`; see [`fe_new`].
    fn parse_new(&self, t: &JsNode) -> (r: Option<JsNode>)
        ensures
            opt_tree(r) == fe_new(self.import@, t@),
        decreases t, 0int,
    {
        proof {
            lemma_node(*t);
            reveal(array_tree);
        }
        if t.children.len() != 2 {
            return Some(self.misplaced());
        }
        let callee = self.try_expr(&t.children[0]);
        let args = if t.children[1].kind == JsKind::Absent {
            let e = array_expr(Vec::new());
            proof {
                lemma_view_nodes(Seq::<JsNode>::empty());
                assert(view_nodes(Seq::<JsNode>::empty()) =~= Seq::<JsTree>::empty());
            }
            Some(e)
        } else {
            Self::karrayx(self.try_list(FMode::Arg, &t.children[1].children))
        };
        self.k2x(Node::NewExpr, callee, args)
    }

    /// An optional chain; see [`fe_opt_chain`].
    fn parse_opt_chain(&self, t: &JsNode) -> (r: Option<JsNode>)
        ensures
            opt_tree(r) == fe_opt_chain(self.import@, t@),
        decreases t, 0int,
    {
        proof {
            lemma_node(*t);
        }
        if t.children.len() != 1 {
            return Some(self.misplaced());
        }
        let base = &t.children[0];
        proof {
            lemma_node(*base);
        }
        if base.kind == JsKind::OptCall && base.children.len() == 2 {
            let callee = self.try_expr(&base.children[0]);
            let args = Self::karrayx(self.try_list(FMode::Arg, &base.children[1].children));
            self.k2x(Node::CallExpr, callee, args)
        } else if base.kind == JsKind::Member {
            self.parse_member(base, true)
        } else {
            Some(self.misplaced())
        }
    }

    /// The expressions of a sequence folded into comma operations; see
    /// [`f_seq_fold`].
    fn parse_seq_fold(&self, s: &Vec<JsNode>) -> (r: Option<JsNode>)
        requires
            s@.len() >= 1,
        ensures
            opt_tree(r) == f_seq_fold(self.import@, view_nodes(s@)),
        decreases s, 0int,
    {
        let ghost vs = view_nodes(s@);
        let ghost imp = self.import@;
        proof {
            lemma_view_nodes(s@);
            let q = vs.subrange(0, 1);
            assert(q[0] == vs[0]);
        }
        proof {
            assert(decreases_to!(s => s@));
            assert(decreases_to!(s@ => s@[0]));
        }
        let mut acc = self.try_expr(&s[0]);
        let mut i: usize = 1;
        while i < s.len()
            invariant
                1 <= i <= s@.len(),
                vs == view_nodes(s@),
                vs.len() == s@.len(),
                forall|k: int| 0 <= k < s@.len() ==> #[trigger] vs[k] == s@[k]@,
                imp == self.import@,
                opt_tree(acc) == f_seq_fold(imp, vs.subrange(0, i as int)),
            decreases s@.len() - i,
        {
            proof {
                assert(decreases_to!(s => s@));
                assert(decreases_to!(s@ => s@[i as int]));
                let q = vs.subrange(0, i + 1);
                assert(q.subrange(0, q.len() - 1) =~= vs.subrange(0, i as int));
            }
            let right = self.try_expr(&s[i]);
            proof {
                reveal_strlit(",");
            }
            acc = self.k3x(Node::BinaryExpr, acc, Some(string_expr(",")), right);
            i += 1;
        }
        proof {
            assert(vs.subrange(0, i as int) =~= vs);
        }
        acc
    }

    /// `super.prop`; see [`fe_super_prop`].
    fn parse_super_prop(&self, t: &JsNode) -> (r: Option<JsNode>)
        ensures
            opt_tree(r) == fe_super_prop(self.import@, t@),
        decreases t, 0int,
    {
        proof {
            lemma_node(*t);
        }
        if t.children.len() != 2 {
            return Some(self.misplaced());
        }
        let p = &t.children[1];
        proof {
            lemma_node(*p);
        }
        let prop = if p.kind == JsKind::Ident {
            Some(self.ident(p))
        } else if p.kind == JsKind::Computed && p.children.len() == 1 {
            self.k1x(Node::ComputedPropertyNameExpr, self.try_expr(&p.children[0]))
        } else {
            Some(self.misplaced())
        };
        self.k2x(Node::PropAccessExpr, Some(self.node0(Node::SuperKeyword)), prop)
    }

    /// A prefix operation; see [`fe_unary`].
    fn parse_unary(&self, t: &JsNode) -> (r: Option<JsNode>)
        ensures
            opt_tree(r) == fe_unary(self.import@, t@),
        decreases t, 0int,
    {
        proof {
            lemma_node(*t);
        }
        if t.children.len() != 1 {
            return Some(self.misplaced());
        }
        let arg = self.try_expr(&t.children[0]);
        match t.op {
            Op::Unary(UnaryOp::TypeOf) => self.k1x(Node::TypeOfExpr, arg),
            Op::Unary(UnaryOp::Void) => self.k1x(Node::VoidExpr, arg),
            Op::Unary(UnaryOp::Delete) => self.k1x(Node::DeleteExpr, arg),
            Op::Unary(u) => {
                let op = unary_op_text(u);
                self.k2x(Node::UnaryExpr, Some(string_expr_of(&op)), arg)
            },
            _ => Some(self.misplaced()),
        }
    }

    /// An increment or decrement; see [`fe_update`].
    fn parse_update(&self, t: &JsNode) -> (r: Option<JsNode>)
        ensures
            opt_tree(r) == fe_update(self.import@, t@),
        decreases t, 0int,
    {
        proof {
            lemma_node(*t);
        }
        if t.children.len() != 1 {
            return Some(self.misplaced());
        }
        let kind = if t.flag {
            Node::UnaryExpr
        } else {
            Node::PostfixUnaryExpr
        };
        let op = match t.op {
            Op::Update(u) => string_expr(update_op_text(u)),
            _ => {
                proof {
                    reveal_strlit("");
                    assert(""@ =~= Seq::<char>::empty());
                }
                string_expr("")
            },
        };
        let arg = self.try_expr(&t.children[0]);
        self.k2x(kind, Some(op), arg)
    }

    /// The pieces of a template literal paired with its expressions; see
    /// [`f_tpl_parts`].
    fn parse_tpl_parts(&self, exprs: &Vec<JsNode>, quasis: &Vec<JsNode>) -> (r: Option<Vec<JsNode>>)
        ensures
            opt_trees(r) == f_tpl_parts(self.import@, view_nodes(exprs@), view_nodes(quasis@)),
        decreases exprs, 0int,
    {
        let ghost ve = view_nodes(exprs@);
        let ghost vq = view_nodes(quasis@);
        let ghost imp = self.import@;
        proof {
            lemma_view_nodes(exprs@);
            lemma_view_nodes(quasis@);
            lemma_view_nodes(Seq::<JsNode>::empty());
            assert(ve.subrange(0, 0) =~= Seq::<JsTree>::empty());
            assert(view_nodes(Seq::<JsNode>::empty()) =~= Seq::<JsTree>::empty());
        }
        let mut out: Vec<JsNode> = Vec::new();
        let mut failed = false;
        let mut i: usize = 0;
        while i < exprs.len()
            invariant
                i <= exprs@.len(),
                ve == view_nodes(exprs@),
                ve.len() == exprs@.len(),
                vq == view_nodes(quasis@),
                vq.len() == quasis@.len(),
                forall|k: int| 0 <= k < exprs@.len() ==> #[trigger] ve[k] == exprs@[k]@,
                forall|k: int| 0 <= k < quasis@.len() ==> #[trigger] vq[k] == quasis@[k]@,
                imp == self.import@,
                failed ==> f_tpl_parts(imp, ve.subrange(0, i as int), vq) is None,
                !failed ==> f_tpl_parts(imp, ve.subrange(0, i as int), vq) == Some(view_nodes(out@)),
            decreases exprs@.len() - i,
        {
            proof {
                assert(decreases_to!(exprs => exprs@));
                assert(decreases_to!(exprs@ => exprs@[i as int]));
                let q = ve.subrange(0, i + 1);
                assert(q.subrange(0, q.len() - 1) =~= ve.subrange(0, i as int));
                assert(q[q.len() - 1] == ve[i as int]);
            }
            if !failed && i < quasis.len() {
                match self.try_expr(&exprs[i]) {
                    Some(e) => {
                        let piece = self.tpl_element(&quasis[i]);
                        let ghost (a, p, x) = (out@, piece@, e@);
                        proof {
                            lemma_view_nodes_push(out@, piece);
                            lemma_view_nodes_push(out@.push(piece), e);
                        }
                        out.push(piece);
                        out.push(e);
                        proof {
                            assert(view_nodes(out@) =~= view_nodes(a) + seq![p, x]);
                        }
                    },
                    None => {
                        failed = true;
                    },
                }
            }
            i += 1;
        }
        proof {
            assert(ve.subrange(0, i as int) =~= ve);
        }
        if failed {
            None
        } else {
            Some(out)
        }
    }

    /// A template literal; see [`f_template`].
    fn parse_template(&self, t: &JsNode) -> (r: Option<JsNode>)
        ensures
            opt_tree(r) == f_template(self.import@, t@),
        decreases t, 0int,
    {
        proof {
            lemma_node(*t);
        }
        if t.children.len() != 2 {
            return Some(self.misplaced());
        }
        let exprs = &t.children[0].children;
        let quasis = &t.children[1].children;
        proof {
            lemma_node(t.children@[0]);
            lemma_node(t.children@[1]);
            lemma_view_nodes(quasis@);
        }
        match self.parse_tpl_parts(exprs, quasis) {
            Some(parts) => {
                let mut parts = parts;
                if quasis.len() > exprs.len() {
                    let last = self.tpl_element(&quasis[quasis.len() - 1]);
                    proof {
                        lemma_view_nodes_push(parts@, last);
                    }
                    parts.push(last);
                }
                Some(array_expr(parts))
            },
            None => None,
        }
    }
}

impl FunctionlessASTParser {
    /// A property name; see [`f_prop_name`].
    fn parse_prop_name(&self, t: &JsNode) -> (r: Option<JsNode>)
        ensures
            opt_tree(r) == f_prop_name(self.import@, t@),
        decreases t, 0int,
    {
        proof {
            lemma_node(*t);
        }
        match t.kind {
            JsKind::Ident => Some(self.ident(t)),
            JsKind::Computed => {
                if t.children.len() == 1 {
                    self.k1x(Node::ComputedPropertyNameExpr, self.try_expr(&t.children[0]))
                } else {
                    Some(self.misplaced())
                }
            },
            JsKind::BigInt | JsKind::Num | JsKind::Str => Some(self.node1(Node::BigIntExpr, clone_node(t))),
            _ => Some(self.misplaced()),
        }
    }

    /// A block; see [`f_block`].
    fn parse_block(&self, t: &JsNode) -> (r: Option<JsNode>)
        ensures
            opt_tree(r) == f_block(self.import@, t@),
        decreases t, 0int,
    {
        self.kvx(Node::BlockStmt, self.try_list(FMode::Stmt, &t.children))
    }

    /// The body of a method or accessor; see [`f_body`].
    fn parse_body(&self, t: &JsNode) -> (r: Option<JsNode>)
        ensures
            opt_tree(r) == f_body(self.import@, t@),
        decreases t, 1int,
    {
        if t.kind == JsKind::Absent {
            None
        } else {
            self.parse_block(t)
        }
    }

    /// A method with the given name node; see [`f_method`].
    fn parse_method(&self, name: Option<JsNode>, function: &JsNode) -> (r: Option<JsNode>)
        ensures
            opt_tree(r) == f_method(self.import@, opt_tree(name), function@),
        decreases function, 0int,
    {
        proof {
            lemma_node(*function);
        }
        if function.children.len() != 2 {
            return Some(self.misplaced());
        }
        let params = Self::karrayx(self.try_list(FMode::Param, &function.children[0].children));
        let body = self.parse_body(&function.children[1]);
        self.k3x(Node::MethodDecl, name, params, body)
    }

    /// A statement, or `None` where this form has no description of it
    /// (a TypeScript declaration in it, say); see [`f_stmt`].
    pub fn try_stmt(&self, t: &JsNode) -> (r: Option<JsNode>)
        ensures
            opt_tree(r) == f_stmt(self.import@, t@),
        decreases t, 2int,
    {
        proof {
            lemma_node(*t);
        }
        if !arity_fits(t.kind, t.children.len()) {
            return Some(self.misplaced());
        }
        match t.kind {
            JsKind::Block => self.parse_block(t),
            JsKind::Break => Some(self.node0(Node::BreakStmt)),
            JsKind::Continue => Some(self.node0(Node::ContinueStmt)),
            JsKind::Debugger => Some(self.node0(Node::DebuggerStmt)),
            JsKind::Empty => Some(self.node0(Node::EmptyStmt)),
            JsKind::ClassDecl | JsKind::FnDecl | JsKind::VarDecl | JsKind::OpaqueDecl => self.try_decl(t),
            JsKind::DoWhile | JsKind::While => {
                let test = self.try_expr(&t.children[0]);
                let body = self.try_stmt(&t.children[1]);
                self.k2x(Node::WhileStmt, test, body)
            },
            JsKind::ExprStmt => self.k1x(Node::ExprStmt, self.try_expr(&t.children[0])),
            JsKind::For => self.parse_for(t),
            JsKind::ForIn | JsKind::ForOf => self.parse_for_in(t),
            JsKind::If => {
                let test = self.try_expr(&t.children[0]);
                let cons = self.try_stmt(&t.children[1]);
                let alt = Self::or_undefined_x(&t.children[2], self.try_stmt(&t.children[2]));
                self.k3x(Node::IfStmt, test, cons, alt)
            },
            JsKind::Labeled => self.k1x(Node::LabelledStmt, self.try_stmt(&t.children[1])),
            JsKind::Return => {
                let arg = if t.children[0].kind == JsKind::Absent {
                    Some(self.node0(Node::UndefinedLiteralExpr))
                } else {
                    self.try_expr(&t.children[0])
                };
                self.k1x(Node::ReturnStmt, arg)
            },
            JsKind::Switch => {
                let disc = self.try_expr(&t.children[0]);
                let cases = Self::karrayx(self.try_list(FMode::Case, &t.children[1].children));
                self.k2x(Node::SwitchStmt, disc, cases)
            },
            JsKind::Throw => self.k1x(Node::ThrowStmt, self.try_expr(&t.children[0])),
            JsKind::Try => {
                let block = self.parse_block(&t.children[0]);
                let handler = self.parse_handler(&t.children[1]);
                let finalizer = Self::or_undefined_x(&t.children[2], self.parse_block(&t.children[2]));
                self.k3x(Node::TryStmt, block, handler, finalizer)
            },
            JsKind::With => {
                let obj = self.try_expr(&t.children[0]);
                let body = self.try_stmt(&t.children[1]);
                self.k2x(Node::WithStmt, obj, body)
            },
            _ => Some(self.misplaced()),
        }
    }

    /// A `for` statement: `ForStmt(body, init)`.
    fn parse_for(&self, t: &JsNode) -> (r: Option<JsNode>)
        requires
            t@.kind == JsKind::For,
            arity_ok(t@),
        ensures
            opt_tree(r) == f_stmt(self.import@, t@),
        decreases t, 1int,
    {
        proof {
            lemma_node(*t);
        }
        let body = self.try_stmt(&t.children[3]);
        let init = &t.children[0];
        let i = if init.kind == JsKind::Absent {
            Some(undefined_expr())
        } else if init.kind == JsKind::VarDecl {
            self.try_decl(init)
        } else {
            self.try_expr(init)
        };
        self.k2x(Node::ForStmt, body, i)
    }

    /// A `for .. in` or `for .. of` statement: `ForInStmt(left, right, body)`.
    fn parse_for_in(&self, t: &JsNode) -> (r: Option<JsNode>)
        requires
            t@.kind == JsKind::ForIn || t@.kind == JsKind::ForOf,
            arity_ok(t@),
        ensures
            opt_tree(r) == f_stmt(self.import@, t@),
        decreases t, 1int,
    {
        proof {
            lemma_node(*t);
        }
        let left = &t.children[0];
        let l = if left.kind == JsKind::VarDecl {
            self.try_decl(left)
        } else {
            self.try_pattern(left)
        };
        let right = self.try_expr(&t.children[1]);
        let body = self.try_stmt(&t.children[2]);
        self.k3x(Node::ForInStmt, l, right, body)
    }

    /// The handler of a `try`; see [`f_handler`].
    fn parse_handler(&self, t: &JsNode) -> (r: Option<JsNode>)
        ensures
            opt_tree(r) == f_handler(self.import@, t@),
        decreases t, 0int,
    {
        proof {
            lemma_node(*t);
        }
        if t.kind == JsKind::Absent || t.children.len() != 2 {
            Some(undefined_expr())
        } else {
            Self::or_undefined_x(&t.children[0], self.try_pattern(&t.children[0]))
        }
    }

    /// A case of a `switch`; see [`f_case`].
    fn parse_case(&self, t: &JsNode) -> (r: Option<JsNode>)
        ensures
            opt_tree(r) == f_case(self.import@, t@),
        decreases t, 0int,
    {
        proof {
            lemma_node(*t);
        }
        if t.children.len() != 2 {
            return Some(self.misplaced());
        }
        let kind = if t.children[0].kind == JsKind::Absent {
            Node::DefaultClause
        } else {
            Node::CaseClause
        };
        self.kvx(kind, self.try_list(FMode::Stmt, &t.children[1].children))
    }

    /// A declaration, or `None` for a TypeScript declaration, which this
    /// form does not describe; see [`f_decl`].
    pub fn try_decl(&self, t: &JsNode) -> (r: Option<JsNode>)
        ensures
            opt_tree(r) == f_decl(self.import@, t@),
        decreases t, 1int,
    {
        proof {
            lemma_node(*t);
        }
        match t.kind {
            JsKind::ClassDecl => self.parse_class(Node::ClassDecl, t),
            JsKind::FnDecl => {
                if t.children.len() == 2 {
                    let function = &t.children[1];
                    proof {
                        lemma_node(*function);
                    }
                    if function.children.len() == 2 {
                        let params = Self::karrayx(self.try_list(FMode::FnDeclParam, &function.children[0].children));
                        return self.k1x(Node::FunctionDecl, params);
                    }
                }
                Some(self.misplaced())
            },
            JsKind::VarDecl => {
                let list = self.kvx(Node::VariableDeclList, self.try_list(FMode::DeclName, &t.children));
                self.k1x(Node::VariableStmt, list)
            },
            JsKind::OpaqueDecl => None,
            _ => Some(self.misplaced()),
        }
    }

    /// A class member; see [`f_class_member`].
    fn parse_class_member(&self, t: &JsNode) -> (r: Option<Option<JsNode>>)
        ensures
            opt_member(r) == f_class_member(self.import@, t@),
        decreases t, 0int,
    {
        proof {
            lemma_node(*t);
        }
        if t.kind == JsKind::EmptyMember || t.kind == JsKind::OpaqueMember {
            return Some(None);
        }
        let n = t.children.len();
        let r = if t.kind == JsKind::ClassProp && n == 2 {
            let key = self.parse_prop_name(&t.children[0]);
            let value = Self::or_undefined_x(&t.children[1], self.try_expr(&t.children[1]));
            self.k3x(Node::PropDecl, key, Some(bool_expr(t.flag)), value)
        } else if t.kind == JsKind::PrivateProp && n == 2 {
            let key = self.private(&t.children[0]);
            let value = Self::or_undefined_x(&t.children[1], self.try_expr(&t.children[1]));
            self.k3x(Node::PropDecl, Some(key), Some(bool_expr(t.flag)), value)
        } else if t.kind == JsKind::Constructor && n == 3 {
            let params = Self::karrayx(self.try_list(FMode::CtorParam, &t.children[1].children));
            let body = self.parse_body(&t.children[2]);
            self.k2x(Node::ConstructorDecl, params, body)
        } else if t.kind == JsKind::ClassMethod && n == 2 {
            self.parse_method(self.parse_prop_name(&t.children[0]), &t.children[1])
        } else if t.kind == JsKind::PrivateMethod && n == 2 {
            self.parse_method(Some(self.private(&t.children[0])), &t.children[1])
        } else if t.kind == JsKind::StaticBlock && n == 1 {
            self.k1x(Node::ClassStaticBlockDecl, self.parse_block(&t.children[0]))
        } else {
            Some(self.misplaced())
        };
        match r {
            Some(m) => Some(Some(m)),
            None => None,
        }
    }

    /// A parameter of a constructor; see [`f_ctor_param`].
    fn parse_ctor_param(&self, t: &JsNode) -> (r: Option<JsNode>)
        ensures
            opt_tree(r) == f_ctor_param(self.import@, t@),
        decreases t, 0int,
    {
        proof {
            lemma_node(*t);
        }
        if t.kind == JsKind::Param && t.children.len() == 1 {
            self.try_pattern(&t.children[0])
        } else if t.kind == JsKind::TsParamProp && t.children.len() == 1 {
            let p = &t.children[0];
            proof {
                lemma_node(*p);
            }
            if p.kind == JsKind::BindingIdent {
                Some(self.node1(Node::ParameterDecl, self.ident(p)))
            } else if p.kind == JsKind::AssignPat && p.children.len() == 2 {
                let left = self.try_pattern(&p.children[0]);
                let right = self.try_expr(&p.children[1]);
                self.k2x(Node::ParameterDecl, left, right)
            } else {
                Some(self.misplaced())
            }
        } else {
            Some(self.misplaced())
        }
    }

    /// A property of an object literal; see [`f_obj_prop`].
    fn parse_obj_prop(&self, t: &JsNode) -> (r: Option<JsNode>)
        ensures
            opt_tree(r) == f_obj_prop(self.import@, t@),
        decreases t, 0int,
    {
        proof {
            lemma_node(*t);
        }
        if !arity_fits(t.kind, t.children.len()) {
            return Some(self.misplaced());
        }
        match t.kind {
            JsKind::PropAssign => None,
            JsKind::PropGetter => {
                let key = self.parse_prop_name(&t.children[0]);
                let body = self.parse_body(&t.children[1]);
                self.k2x(Node::GetAccessorDecl, key, body)
            },
            JsKind::PropKeyValue => {
                let key = self.parse_prop_name(&t.children[0]);
                let value = self.try_expr(&t.children[1]);
                self.k2x(Node::PropAssignExpr, key, value)
            },
            JsKind::PropMethod => self.parse_method(self.parse_prop_name(&t.children[0]), &t.children[1]),
            JsKind::PropSetter => {
                let key = self.parse_prop_name(&t.children[0]);
                let param = self.try_pattern(&t.children[1]);
                let body = self.parse_body(&t.children[2]);
                self.k3x(Node::SetAccessorDecl, key, param, body)
            },
            JsKind::PropShorthand => Some(self.node2(Node::PropAssignExpr, self.ident(&t.children[0]), self.ident(&t.children[0]))),
            JsKind::Spread => self.k1x(Node::SpreadAssignExpr, self.try_expr(&t.children[0])),
            _ => Some(self.misplaced()),
        }
    }

    /// A binding pattern, or `None` where this form has no description of
    /// it; see [`f_pattern`].
    fn try_pattern(&self, t: &JsNode) -> (r: Option<JsNode>)
        ensures
            opt_tree(r) == f_pattern(self.import@, t@),
        decreases t, 1int,
    {
        proof {
            lemma_node(*t);
        }
        if !arity_fits(t.kind, t.children.len()) {
            return Some(self.misplaced());
        }
        match t.kind {
            JsKind::ArrayPat => self.kvx(Node::ArrayBinding, self.try_list(FMode::ArrayPatElem, &t.children)),
            JsKind::ObjectPat => self.kvx(Node::ObjectBinding, self.try_list(FMode::ObjPatProp, &t.children)),
            JsKind::AssignPat => {
                let left = self.try_pattern(&t.children[0]);
                let right = self.try_expr(&t.children[1]);
                self.k4x(Node::BindingElem, left, Some(bool_expr(false)), Some(undefined_expr()), right)
            },
            JsKind::ExprPat => self.try_expr(&t.children[0]),
            JsKind::BindingIdent => Some(self.ident(t)),
            JsKind::InvalidPat => None,
            JsKind::RestPat => Some(self.node0(Node::BindingElem)),
            _ => Some(self.misplaced()),
        }
    }

    /// A property of an object pattern; see [`f_obj_pat_prop`].
    fn parse_obj_pat_prop(&self, t: &JsNode) -> (r: Option<JsNode>)
        ensures
            opt_tree(r) == f_obj_pat_prop(self.import@, t@),
        decreases t, 0int,
    {
        proof {
            lemma_node(*t);
        }
        if !arity_fits(t.kind, t.children.len()) {
            return Some(self.misplaced());
        }
        match t.kind {
            JsKind::ObjAssignProp => {
                if t.children[1].kind == JsKind::Absent {
                    Some(self.node2(Node::BindingElem, clone_node(&t.children[0]), bool_expr(false)))
                } else {
                    let value = self.try_expr(&t.children[1]);
                    self.k3x(Node::BindingElem, value, Some(bool_expr(false)), Some(clone_node(&t.children[0])))
                }
            },
            JsKind::ObjKeyValueProp => {
                let v = &t.children[1];
                proof {
                    lemma_node(*v);
                }
                let key = self.parse_prop_name(&t.children[0]);
                if v.kind == JsKind::AssignPat && v.children.len() == 2 {
                    let name = self.try_pattern(&v.children[0]);
                    let init = self.try_expr(&v.children[1]);
                    self.k4x(Node::BindingElem, name, Some(bool_expr(false)), key, init)
                } else {
                    let name = self.try_pattern(v);
                    self.k4x(Node::BindingElem, name, Some(bool_expr(false)), key, Some(undefined_expr()))
                }
            },
            JsKind::ObjRestProp => {
                let pat = self.try_pattern(&t.children[0]);
                self.k2x(Node::BindingElem, pat, Some(bool_expr(true)))
            },
            _ => Some(self.misplaced()),
        }
    }
}

impl FunctionlessASTParser {
    /// Parses an expression this form can describe; see [`f_expr`].
    pub fn parse_expr(&self, t: &JsNode) -> (r: JsNode)
        requires
            f_expr(self.import@, t@) is Some,
        ensures
            Some(r@) == f_expr(self.import@, t@),
    {
        self.try_expr(t).unwrap()
    }

    /// Parses a statement this form can describe; see [`f_stmt`].
    pub fn parse_stmt(&self, t: &JsNode) -> (r: JsNode)
        requires
            f_stmt(self.import@, t@) is Some,
        ensures
            Some(r@) == f_stmt(self.import@, t@),
    {
        self.try_stmt(t).unwrap()
    }

    /// Parses a declaration this form can describe (not a TypeScript
    /// declaration); see [`f_decl`].
    pub fn parse_decl(&self, t: &JsNode) -> (r: JsNode)
        requires
            f_decl(self.import@, t@) is Some,
        ensures
            Some(r@) == f_decl(self.import@, t@),
    {
        self.try_decl(t).unwrap()
    }

    /// Parses a binding pattern this form can describe; see [`f_pattern`].
    pub fn parse_pattern(&self, t: &JsNode) -> (r: JsNode)
        requires
            f_pattern(self.import@, t@) is Some,
        ensures
            Some(r@) == f_pattern(self.import@, t@),
    {
        self.try_pattern(t).unwrap()
    }
}

} // verus!
