//! What the transform makes of a module: every closure and class decorated
//! with its Functionless AST, every `.bind` and `new Proxy` recorded.
//!
//! The functions below say what the walk over the tree gives for each node,
//! with the counter of reference ids before and after. The walk never
//! changes the names visible to the parser, so those are fixed in [`Ctx`].
use vstd::prelude::*;

use crate::closure_decorator::{
    global_this_decl_tree, import_util_decl_tree, register_seq_tree, register_stmt_tree, stash_decl_tree,
    wrap_bind_tree, wrap_proxy_tree, ClosureDecorator,
};
use crate::emit::{lemma_node, p_arrow, p_class_like, p_fn_decl, p_fn_expr, p_method, supported};
use crate::js::{
    absent_node, absent_tree, clone_node, dummy_span, lemma_view_nodes, lemma_view_nodes_push, view_node, view_nodes,
    well_formed, JsKind, JsNode, JsTree, MethodKind, Op,
};
use crate::js_util::{
    call_expr, call_tree, eos, eos_tree, ident_tree, mk1, mk2, mk_node, mk_tree, prop_access_expr, prop_access_tree,
    quote_ident, str_tree, string_expr_of, this_expr, this_tree, vec2, vec3,
};
use crate::parse::{parse_frame, visible};
use crate::prepend::prepend;
use crate::virtual_machine::IdView;

verus! {

/// What the walk reads but does not change: the names visible to the
/// parser and the private identifiers it emits.
pub struct Ctx {
    pub vis: Set<IdView>,
    pub stash: JsTree,
    pub global: JsTree,
    pub util: JsTree,
}

/// Whether a node kind is an expression.
pub open spec fn is_expr_kind(k: JsKind) -> bool {
    match k {
        JsKind::Array | JsKind::Arrow | JsKind::Assign | JsKind::Await | JsKind::Bin | JsKind::Call
        | JsKind::ClassExpr | JsKind::Cond | JsKind::FnExpr | JsKind::Ident | JsKind::Invalid
        | JsKind::JsxElement | JsKind::JsxEmpty | JsKind::JsxFragment | JsKind::JsxMember
        | JsKind::JsxNamespacedName | JsKind::Str | JsKind::Bool | JsKind::Null | JsKind::Num
        | JsKind::Int | JsKind::BigInt | JsKind::Regex | JsKind::JsxText | JsKind::Member
        | JsKind::MetaProp | JsKind::New | JsKind::Object | JsKind::OptChain | JsKind::Paren
        | JsKind::PrivateName | JsKind::SeqExpr | JsKind::SuperProp | JsKind::Tpl | JsKind::TaggedTpl
        | JsKind::This | JsKind::TsWrapper | JsKind::Unary | JsKind::Update | JsKind::Yield => true,
        _ => false,
    }
}

/// Whether a node kind is a property of an object literal (not a spread).
pub open spec fn is_prop_kind(k: JsKind) -> bool {
    match k {
        JsKind::PropKeyValue | JsKind::PropAssign | JsKind::PropGetter | JsKind::PropSetter
        | JsKind::PropMethod | JsKind::PropShorthand => true,
        _ => false,
    }
}

/// Whether a function expression has a body.
pub open spec fn has_body(t: JsTree) -> bool {
    t.children.len() == 2 && t.children[1].children.len() == 2 && t.children[1].children[1].kind
        != JsKind::Absent
}

/// Whether `t` is `new Proxy(...)` with an argument list.
pub open spec fn is_new_proxy(t: JsTree) -> bool {
    &&& t.kind == JsKind::New
    &&& t.children.len() == 2
    &&& t.children[1].kind != JsKind::Absent
    &&& t.children[0].kind == JsKind::Ident
    &&& t.children[0].text == "Proxy"@
}

/// Whether `t` is a call of `obj.bind`.
pub open spec fn is_bind_call(t: JsTree) -> bool {
    &&& t.kind == JsKind::Call
    &&& t.children.len() == 2
    &&& t.children[0].kind == JsKind::Member
    &&& t.children[0].children.len() == 2
    &&& t.children[0].children[1].kind == JsKind::Ident
    &&& t.children[0].children[1].text == "bind"@
}

/// Whether a statement is a directive such as `"use strict"`: an expression
/// statement of a string literal.
pub open spec fn is_directive(s: JsTree) -> bool {
    s.kind == JsKind::ExprStmt && s.children.len() == 1 && s.children[0].kind == JsKind::Str
}

/// The number of directives that a list of statements starts with.
pub open spec fn directive_count(s: Seq<JsTree>) -> nat
    decreases s.len(),
{
    if s.len() > 0 && is_directive(s[0]) {
        1 + directive_count(s.subrange(1, s.len() as int))
    } else {
        0
    }
}

/// `stmts` with `inserted` put in after its directives.
pub open spec fn insert_after_directives(stmts: Seq<JsTree>, inserted: Seq<JsTree>) -> Seq<JsTree> {
    let p = directive_count(stmts) as int;
    stmts.subrange(0, p) + inserted + stmts.subrange(p, stmts.len() as int)
}

/// `t` with its children replaced.
pub open spec fn with_children(t: JsTree, children: Seq<JsTree>) -> JsTree {
    JsTree { children, ..t }
}

/// The function declaration that a statement or module item declares, if
/// it declares one (an exported declaration counts).
pub open spec fn registered_fn(s: JsTree) -> Option<JsTree> {
    let f = if s.kind == JsKind::ExportDecl && s.children.len() == 1 {
        s.children[0]
    } else {
        s
    };
    if f.kind == JsKind::FnDecl && f.children.len() == 2 {
        Some(f)
    } else {
        None
    }
}

/// The registrations of the function declarations among `s` (statements or
/// module items; an exported declaration counts), in order.
pub open spec fn reg_fn_decls(c: Ctx, s: Seq<JsTree>, ids: u32) -> (Seq<JsTree>, u32)
    decreases s.len(),
{
    if s.len() == 0 {
        (Seq::empty(), ids)
    } else {
        let (a, k) = reg_fn_decls(c, s.drop_last(), ids);
        match registered_fn(s.last()) {
            Some(f) => {
                let (ast, k2) = p_fn_decl(f, true, c.vis, k);
                (a.push(register_stmt_tree(c.stash, c.global, f.children[0], ast)), k2)
            },
            None => (a, k),
        }
    }
}

/// The property name of a method as the name of a member access:
/// `obj.name` for an identifier, `obj[expr]` otherwise.
pub open spec fn method_member_prop(key: JsTree) -> JsTree {
    if key.kind == JsKind::Ident || key.kind == JsKind::Computed {
        key
    } else {
        mk_tree(JsKind::Computed, Op::NoOp, false, seq![key])
    }
}

/// `Object.getOwnPropertyDescriptor(this, name)` for the accessor `key`.
pub open spec fn property_descriptor_tree(this: JsTree, key: JsTree) -> JsTree {
    call_tree(
        prop_access_tree(ident_tree("Object"@, dummy_span()), "getOwnPropertyDescriptor"@),
        seq![
            eos_tree(this),
            eos_tree(
                if key.kind == JsKind::Ident {
                    str_tree(key.text)
                } else {
                    key.children[0]
                },
            ),
        ],
    )
}

/// Whether the transform can register a class method: an accessor is found
/// again by its name only when that is an identifier or computed.
pub open spec fn method_registrable(m: JsTree) -> bool {
    (m.op == Op::Method(MethodKind::Getter) || m.op == Op::Method(MethodKind::Setter)) ==> (
    m.children.len() > 0 && (m.children[0].kind == JsKind::Ident || (m.children[0].kind
        == JsKind::Computed && m.children[0].children.len() == 1)))
}

/// The statement that registers a class method, read from the class as
/// `this`: from its prototype unless it is static, through its property
/// descriptor for an accessor.
pub open spec fn register_method(c: Ctx, m: JsTree, ids: u32) -> (JsTree, u32) {
    let (ast, k) = p_method(m, true, c.vis, ids);
    let this = if m.flag {
        this_tree()
    } else {
        prop_access_tree(this_tree(), "prototype"@)
    };
    let key = if m.children.len() > 0 {
        m.children[0]
    } else {
        absent_tree()
    };
    let method_ref = match m.op {
        Op::Method(MethodKind::Getter) => prop_access_tree(property_descriptor_tree(this, key), "get"@),
        Op::Method(MethodKind::Setter) => prop_access_tree(property_descriptor_tree(this, key), "set"@),
        _ => mk_tree(JsKind::Member, Op::NoOp, false, seq![this, method_member_prop(key)]),
    };
    (register_stmt_tree(c.stash, c.global, method_ref, ast), k)
}

/// The registrations of the methods among the members of a class, in order.
pub open spec fn reg_methods(c: Ctx, s: Seq<JsTree>, ids: u32) -> (Seq<JsTree>, u32)
    decreases s.len(),
{
    if s.len() == 0 {
        (Seq::empty(), ids)
    } else {
        let (a, k) = reg_methods(c, s.drop_last(), ids);
        if s.last().kind == JsKind::ClassMethod {
            let (r, k2) = register_method(c, s.last(), k);
            (a.push(r), k2)
        } else {
            (a, k)
        }
    }
}

/// `static { ...stmts }`.
pub open spec fn static_block_tree(stmts: Seq<JsTree>) -> JsTree {
    mk_tree(JsKind::StaticBlock, Op::NoOp, false, seq![mk_tree(JsKind::Block, Op::NoOp, false, stmts)])
}

/// A node at any position.
pub open spec fn v_pos(c: Ctx, t: JsTree, ids: u32) -> (JsTree, u32)
    decreases t, 4int,
{
    if is_expr_kind(t.kind) {
        v_expr(c, t, ids)
    } else if t.kind == JsKind::Block {
        v_stmt_list(c, t, ids)
    } else if t.kind == JsKind::ClassDecl {
        v_class_like(c, t, ids)
    } else if is_prop_kind(t.kind) {
        v_prop(c, t, ids)
    } else if t.kind == JsKind::ExportDefaultDecl && t.children.len() == 1 {
        let (d, k) = if t.children[0].kind == JsKind::FnExpr {
            v_children(c, t.children[0], ids)
        } else {
            v_pos(c, t.children[0], ids)
        };
        (with_children(t, seq![d]), k)
    } else if t.kind == JsKind::SwitchCase && t.children.len() == 2 && t.children[1].kind == JsKind::List {
        let (test, k) = v_pos(c, t.children[0], ids);
        let (cons, k2) = v_stmt_list(c, t.children[1], k);
        (with_children(t, seq![test, cons]), k2)
    } else if t.kind == JsKind::TsModuleBlock {
        let (items, k) = v_module(c, t.children, ids);
        (with_children(t, items), k)
    } else {
        v_children(c, t, ids)
    }
}

/// The children of a node, in order.
pub open spec fn v_list(c: Ctx, s: Seq<JsTree>, ids: u32) -> (Seq<JsTree>, u32)
    decreases s, 0int,
{
    if s.len() == 0 {
        (Seq::empty(), ids)
    } else {
        let (a, k) = v_list(c, s.subrange(0, s.len() - 1), ids);
        let (b, k2) = v_pos(c, s[s.len() - 1], k);
        (a.push(b), k2)
    }
}

/// A node whose own kind needs nothing: its children are walked.
pub open spec fn v_children(c: Ctx, t: JsTree, ids: u32) -> (JsTree, u32)
    decreases t, 0int,
{
    let (cs, k) = v_list(c, t.children, ids);
    (with_children(t, cs), k)
}

/// A list of statements: the function declarations in it are registered at
/// its top, after its directives, and each statement is walked.
pub open spec fn v_stmts(c: Ctx, s: Seq<JsTree>, ids: u32) -> (Seq<JsTree>, u32)
    decreases s, 1int,
{
    let (regs, k) = reg_fn_decls(c, s, ids);
    let (stmts, k2) = v_list(c, s, k);
    (
        if regs.len() > 0 {
            insert_after_directives(stmts, regs)
        } else {
            stmts
        },
        k2,
    )
}

/// A node that holds a list of statements (a block, or the statements of a
/// case); see [`v_stmts`].
pub open spec fn v_stmt_list(c: Ctx, t: JsTree, ids: u32) -> (JsTree, u32)
    decreases t, 1int,
{
    let (stmts, k) = v_stmts(c, t.children, ids);
    (with_children(t, stmts), k)
}

/// The children of an expression: those of a class expression are walked
/// as those of a class.
pub open spec fn v_expr_children(c: Ctx, t: JsTree, ids: u32) -> (JsTree, u32)
    decreases t, 2int,
{
    if t.kind == JsKind::ClassExpr {
        v_class_like(c, t, ids)
    } else {
        v_children(c, t, ids)
    }
}

/// An expression: an arrow function or a function expression with a body is
/// registered with its AST, parsed before its body is walked; `new Proxy(..)`
/// and `obj.bind(..)` are rewritten once their arguments are walked.
pub open spec fn v_expr(c: Ctx, t: JsTree, ids: u32) -> (JsTree, u32)
    decreases t, 3int,
{
    if t.kind == JsKind::Arrow {
        let (ast, k) = p_arrow(t, true, c.vis, ids);
        let (t2, k2) = v_children(c, t, k);
        (register_seq_tree(c.stash, c.global, t2, ast), k2)
    } else if t.kind == JsKind::FnExpr && has_body(t) {
        let (ast, k) = p_fn_expr(t, true, c.vis, ids);
        let (t2, k2) = v_children(c, t, k);
        (register_seq_tree(c.stash, c.global, t2, ast), k2)
    } else if is_new_proxy(t) {
        let (args, k) = v_list(c, t.children[1].children, ids);
        (wrap_proxy_tree(c.stash, c.global, t.children[0], args), k)
    } else if is_bind_call(t) && t.children[1].children.len() > 0 {
        let (args, k) = v_list(c, t.children[1].children, ids);
        let (func, k2) = v_expr_children(c, t.children[0].children[0], k);
        let this = if args[0].children.len() > 0 {
            args[0].children[0]
        } else {
            absent_tree()
        };
        (wrap_bind_tree(c.stash, c.global, func, this, args.subrange(1, args.len() as int)), k2)
    } else {
        v_expr_children(c, t, ids)
    }
}

/// A class declaration or expression: its AST and those of its methods are
/// registered in a static block put first in its body, the class last; the
/// rest of the class is walked.
pub open spec fn v_class_like(c: Ctx, t: JsTree, ids: u32) -> (JsTree, u32)
    decreases t, 1int,
{
    if t.children.len() != 2 || t.children[1].children.len() != 2 {
        v_children(c, t, ids)
    } else {
        let (class_ast, k) = p_class_like(t, true, c.vis, ids);
        let class = t.children[1];
        let (method_regs, k2) = reg_methods(c, class.children[0].children, k);
        let regs = method_regs.push(register_stmt_tree(c.stash, c.global, this_tree(), class_ast));
        let (class2, k3) = v_children(c, class, k2);
        let members = class2.children[0];
        let members2 = with_children(members, seq![static_block_tree(regs)] + members.children);
        (with_children(t, seq![t.children[0], with_children(class2, seq![members2, class2.children[1]])]), k3)
    }
}

/// A property of an object literal: a method `m() {..}` becomes
/// `m: function m() {..}` registered with its AST.
pub open spec fn v_prop(c: Ctx, t: JsTree, ids: u32) -> (JsTree, u32)
    decreases t, 1int,
{
    if t.kind == JsKind::PropMethod && t.children.len() == 2 {
        let (ast, k) = p_method(t, false, c.vis, ids);
        let (t2, k2) = v_children(c, t, k);
        let key = t2.children[0];
        let func = mk_tree(
            JsKind::FnExpr,
            Op::NoOp,
            false,
            seq![
                if key.kind == JsKind::Ident {
                    key
                } else {
                    absent_tree()
                },
                t2.children[1],
            ],
        );
        (mk_tree(JsKind::PropKeyValue, Op::NoOp, false, seq![key, register_seq_tree(c.stash, c.global, func, ast)]), k2)
    } else {
        v_children(c, t, ids)
    }
}

/// The items of a module: the declarations of the stash, of `globalThis` and
/// of `util`, then the registrations of its function declarations, are put
/// in after its directives; each item is walked.
pub open spec fn v_module(c: Ctx, items: Seq<JsTree>, ids: u32) -> (Seq<JsTree>, u32)
    decreases items, 2int,
{
    let (regs, k) = reg_fn_decls(c, items, ids);
    let (items2, k2) = v_list(c, items, k);
    let header = seq![stash_decl_tree(c.stash), global_this_decl_tree(c.global), import_util_decl_tree(c.util)];
    (insert_after_directives(items2, header + regs), k2)
}

/// Walking a list gives one node for each node.
pub proof fn lemma_v_list_len(c: Ctx, s: Seq<JsTree>, ids: u32)
    ensures
        v_list(c, s, ids).0.len() == s.len(),
    decreases s.len(),
{
    if s.len() > 0 {
        lemma_v_list_len(c, s.subrange(0, s.len() - 1), ids);
    }
}

/// What a node is walked into is of its own kind, a sequence expression
/// (a registration or a rewritten call), or a key-value property (a method
/// of an object literal).
pub proof fn lemma_v_pos_kind(c: Ctx, t: JsTree, ids: u32)
    ensures
        v_pos(c, t, ids).0.kind == t.kind || v_pos(c, t, ids).0.kind == JsKind::SeqExpr || v_pos(c, t, ids).0.kind
            == JsKind::PropKeyValue,
        v_pos(c, t, ids).0.kind != t.kind ==> (t.kind == JsKind::Arrow || t.kind == JsKind::FnExpr || t.kind
            == JsKind::New || t.kind == JsKind::Call || t.kind == JsKind::PropMethod),
{
    let r = v_pos(c, t, ids).0;
    if is_expr_kind(t.kind) {
        assert(r == v_expr(c, t, ids).0);
        if t.kind == JsKind::Arrow || (t.kind == JsKind::FnExpr && has_body(t)) {
            assert(r.kind == JsKind::SeqExpr);
        } else if is_new_proxy(t) {
            assert(r.kind == JsKind::SeqExpr);
        } else if is_bind_call(t) && t.children[1].children.len() > 0 {
            assert(r.kind == JsKind::SeqExpr);
        } else {
            assert(r == v_expr_children(c, t, ids).0);
            if t.kind == JsKind::ClassExpr {
                assert(r == v_class_like(c, t, ids).0);
                assert(r.kind == t.kind);
            } else {
                assert(r == v_children(c, t, ids).0);
            }
        }
    } else if t.kind == JsKind::Block {
        assert(r == v_stmt_list(c, t, ids).0);
    } else if t.kind == JsKind::ClassDecl {
        assert(r == v_class_like(c, t, ids).0);
        assert(r.kind == t.kind);
    } else if is_prop_kind(t.kind) {
        assert(r == v_prop(c, t, ids).0);
    } else if t.kind == JsKind::ExportDefaultDecl && t.children.len() == 1 {
    } else if t.kind == JsKind::SwitchCase && t.children.len() == 2 && t.children[1].kind == JsKind::List {
    } else if t.kind == JsKind::TsModuleBlock {
    } else {
        assert(r == v_children(c, t, ids).0);
    }
}

/// A node is walked into a directive exactly when it is one.
pub proof fn lemma_v_pos_directive(c: Ctx, t: JsTree, ids: u32)
    ensures
        is_directive(v_pos(c, t, ids).0) == is_directive(t),
{
    lemma_v_pos_kind(c, t, ids);
    if t.kind == JsKind::ExprStmt {
        lemma_v_list_len(c, t.children, ids);
        assert(v_pos(c, t, ids).0 == v_children(c, t, ids).0);
        if t.children.len() == 1 {
            let u = t.children[0];
            lemma_v_pos_kind(c, u, ids);
            let e = t.children.subrange(0, 0);
            assert(e =~= Seq::<JsTree>::empty());
            assert(v_list(c, e, ids) == (Seq::<JsTree>::empty(), ids));
            assert(v_list(c, t.children, ids).0 == Seq::<JsTree>::empty().push(v_pos(c, u, ids).0));
            assert(v_list(c, t.children, ids).0[0] == v_pos(c, u, ids).0);
            assert(v_pos(c, t, ids).0 == v_children(c, t, ids).0);
        }
    }
}

/// Walking a list keeps, at each place, whether the node there is a
/// directive.
pub proof fn lemma_v_list_directives(c: Ctx, s: Seq<JsTree>, ids: u32)
    ensures
        v_list(c, s, ids).0.len() == s.len(),
        forall|k: int| 0 <= k < s.len() ==> is_directive(#[trigger] v_list(c, s, ids).0[k]) == is_directive(s[k]),
    decreases s.len(),
{
    lemma_v_list_len(c, s, ids);
    if s.len() > 0 {
        let pre = s.subrange(0, s.len() - 1);
        lemma_v_list_directives(c, pre, ids);
        let k0 = v_list(c, pre, ids).1;
        lemma_v_pos_directive(c, s[s.len() - 1], k0);
        assert forall|k: int| 0 <= k < s.len() implies is_directive(#[trigger] v_list(c, s, ids).0[k]) == is_directive(s[k]) by {
            if k < s.len() - 1 {
                assert(v_list(c, s, ids).0[k] == v_list(c, pre, ids).0[k]);
                assert(pre[k] == s[k]);
            }
        }
    }
}

/// Two lists that have directives at the same places start with as many.
pub proof fn lemma_directive_count_eq(a: Seq<JsTree>, b: Seq<JsTree>)
    requires
        a.len() == b.len(),
        forall|k: int| 0 <= k < a.len() ==> is_directive(#[trigger] a[k]) == is_directive(b[k]),
    ensures
        directive_count(a) == directive_count(b),
    decreases a.len(),
{
    if a.len() > 0 && is_directive(a[0]) {
        let (a1, b1) = (a.subrange(1, a.len() as int), b.subrange(1, b.len() as int));
        assert forall|k: int| 0 <= k < a1.len() implies is_directive(#[trigger] a1[k]) == is_directive(b1[k]) by {
            assert(a1[k] == a[k + 1] && b1[k] == b[k + 1]);
        }
        lemma_directive_count_eq(a1, b1);
    } else if b.len() > 0 {
        assert(is_directive(a[0]) == is_directive(b[0]));
    }
}

/// A list starts with its directives.
pub proof fn lemma_directive_prefix(s: Seq<JsTree>)
    ensures
        directive_count(s) <= s.len(),
        forall|k: int| 0 <= k < directive_count(s) ==> is_directive(#[trigger] s[k]),
    decreases s.len(),
{
    if s.len() > 0 && is_directive(s[0]) {
        let s1 = s.subrange(1, s.len() as int);
        lemma_directive_prefix(s1);
        assert forall|k: int| 0 <= k < directive_count(s) implies is_directive(#[trigger] s[k]) by {
            if k > 0 {
                assert(s[k] == s1[k - 1]);
            }
        }
    }
}

/// The walk of a module keeps its directives on top and keeps every item,
/// in order: right after the directives come the three declarations the
/// transform needs (the stash, `globalThis` and `util`), then one
/// registration for each function declaration of the module, then the rest
/// of the items, each walked.
pub proof fn law_module_layout(c: Ctx, items: Seq<JsTree>, ids: u32)
    ensures
        ({
            let out = v_module(c, items, ids).0;
            let (regs, k) = reg_fn_decls(c, items, ids);
            let walked = v_list(c, items, k).0;
            let p = directive_count(items) as int;
            let header = seq![stash_decl_tree(c.stash), global_this_decl_tree(c.global), import_util_decl_tree(c.util)];
            &&& p <= items.len()
            &&& out.len() == items.len() + 3 + regs.len()
            &&& forall|i: int| 0 <= i < p ==> is_directive(#[trigger] out[i])
            &&& out.subrange(p, p + 3) == header
            &&& out.subrange(p + 3, p + 3 + regs.len()) == regs
            &&& out.subrange(p + 3 + regs.len(), out.len() as int) == walked.subrange(p, walked.len() as int)
            &&& walked.len() == items.len()
        }),
{
    let (regs, k) = reg_fn_decls(c, items, ids);
    let walked = v_list(c, items, k).0;
    lemma_v_list_directives(c, items, k);
    lemma_directive_count_eq(walked, items);
    lemma_directive_prefix(items);
    lemma_directive_prefix(walked);
    let p = directive_count(items) as int;
    let header = seq![stash_decl_tree(c.stash), global_this_decl_tree(c.global), import_util_decl_tree(c.util)];
    let out = v_module(c, items, ids).0;
    assert(out == walked.subrange(0, p) + (header + regs) + walked.subrange(p, walked.len() as int));
    assert(out.subrange(p, p + 3) =~= header);
    assert(out.subrange(p + 3, p + 3 + regs.len()) =~= regs);
    assert(out.subrange(p + 3 + regs.len(), out.len() as int) =~= walked.subrange(p, walked.len() as int));
    assert forall|i: int| 0 <= i < p implies is_directive(#[trigger] out[i]) by {
        assert(out[i] == walked[i]);
    }
}

/// Whether a node is neither a closure, a class, a method of an object
/// literal, a function declaration, `new Proxy(..)` nor a `.bind(..)` call:
/// none of what the walk rewrites or registers.
pub open spec fn node_plain(t: JsTree) -> bool {
    &&& t.kind != JsKind::Arrow
    &&& t.kind != JsKind::FnExpr
    &&& t.kind != JsKind::FnDecl
    &&& t.kind != JsKind::ClassDecl
    &&& t.kind != JsKind::ClassExpr
    &&& t.kind != JsKind::PropMethod
    &&& t.kind != JsKind::TsModuleBlock
    &&& !is_new_proxy(t)
    &&& !is_bind_call(t)
}

/// Whether no node of a tree is rewritten or registered by the walk.
pub open spec fn plain(t: JsTree) -> bool
    decreases t,
{
    &&& node_plain(t)
    &&& forall|i: int| 0 <= i < t.children.len() ==> plain(#[trigger] t.children[i])
}

/// A list of plain statements declares no function to register.
pub proof fn lemma_plain_no_registrations(c: Ctx, s: Seq<JsTree>, ids: u32)
    requires
        forall|i: int| 0 <= i < s.len() ==> plain(#[trigger] s[i]),
    ensures
        reg_fn_decls(c, s, ids) == (Seq::<JsTree>::empty(), ids),
    decreases s.len(),
{
    if s.len() > 0 {
        let p = s.drop_last();
        assert forall|i: int| 0 <= i < p.len() implies plain(#[trigger] p[i]) by {
            assert(p[i] == s[i]);
        }
        lemma_plain_no_registrations(c, p, ids);
        let last = s.last();
        assert(plain(s[s.len() - 1]));
        if last.kind == JsKind::ExportDecl && last.children.len() == 1 {
            assert(plain(last.children[0]));
        }
    }
}

/// A plain node is walked into itself, and takes no id.
pub proof fn lemma_plain_pos(c: Ctx, t: JsTree, ids: u32)
    requires
        plain(t),
    ensures
        v_pos(c, t, ids) == (t, ids),
    decreases t, 4int,
{
    if is_expr_kind(t.kind) {
        lemma_plain_children(c, t, ids);
        assert(v_expr_children(c, t, ids) == v_children(c, t, ids));
        assert(v_expr(c, t, ids) == v_expr_children(c, t, ids));
        assert(v_pos(c, t, ids) == v_expr(c, t, ids));
    } else if t.kind == JsKind::Block {
        lemma_plain_stmt_list(c, t, ids);
        assert(v_pos(c, t, ids) == v_stmt_list(c, t, ids));
    } else if is_prop_kind(t.kind) {
        lemma_plain_children(c, t, ids);
        assert(v_prop(c, t, ids) == v_children(c, t, ids));
        assert(v_pos(c, t, ids) == v_prop(c, t, ids));
    } else if t.kind == JsKind::ExportDefaultDecl && t.children.len() == 1 {
        let d = t.children[0];
        assert(plain(d));
        lemma_plain_pos(c, d, ids);
        assert(seq![d] =~= t.children);
        assert(with_children(t, seq![d]) == t);
    } else if t.kind == JsKind::SwitchCase && t.children.len() == 2 && t.children[1].kind == JsKind::List {
        assert(plain(t.children[0]));
        assert(plain(t.children[1]));
        lemma_plain_pos(c, t.children[0], ids);
        lemma_plain_stmt_list(c, t.children[1], ids);
        assert(seq![t.children[0], t.children[1]] =~= t.children);
        assert(with_children(t, seq![t.children[0], t.children[1]]) == t);
    } else {
        lemma_plain_children(c, t, ids);
        assert(v_pos(c, t, ids) == v_children(c, t, ids));
    }
}

/// The children of a plain node are walked into themselves.
pub proof fn lemma_plain_children(c: Ctx, t: JsTree, ids: u32)
    requires
        plain(t),
    ensures
        v_children(c, t, ids) == (t, ids),
    decreases t, 0int,
{
    lemma_plain_list(c, t.children, ids);
    assert(with_children(t, t.children) == t);
}

/// A node of plain statements is walked into itself.
pub proof fn lemma_plain_stmt_list(c: Ctx, t: JsTree, ids: u32)
    requires
        plain(t),
    ensures
        v_stmt_list(c, t, ids) == (t, ids),
    decreases t, 1int,
{
    lemma_plain_no_registrations(c, t.children, ids);
    lemma_plain_list(c, t.children, ids);
    assert(with_children(t, t.children) == t);
}

/// A list of plain nodes is walked into itself.
pub proof fn lemma_plain_list(c: Ctx, s: Seq<JsTree>, ids: u32)
    requires
        forall|i: int| 0 <= i < s.len() ==> plain(#[trigger] s[i]),
    ensures
        v_list(c, s, ids) == (s, ids),
    decreases s, 0int,
{
    if s.len() > 0 {
        let p = s.subrange(0, s.len() - 1);
        assert forall|i: int| 0 <= i < p.len() implies plain(#[trigger] p[i]) by {
            assert(p[i] == s[i]);
        }
        lemma_plain_list(c, p, ids);
        assert(plain(s[s.len() - 1]));
        lemma_plain_pos(c, s[s.len() - 1], ids);
        assert(p.push(s[s.len() - 1]) =~= s);
    }
}

/// The walk changes nothing of a module that holds no closure, class,
/// method of an object literal, function declaration, `new Proxy(..)` or
/// `.bind(..)` call: it only puts its three declarations after the
/// directives, and takes no id.
pub proof fn law_plain_module_unchanged(c: Ctx, items: Seq<JsTree>, ids: u32)
    requires
        forall|i: int| 0 <= i < items.len() ==> plain(#[trigger] items[i]),
    ensures
        v_module(c, items, ids) == (
            insert_after_directives(
                items,
                seq![stash_decl_tree(c.stash), global_this_decl_tree(c.global), import_util_decl_tree(c.util)],
            ),
            ids,
        ),
{
    lemma_plain_no_registrations(c, items, ids);
    lemma_plain_list(c, items, ids);
    let header = seq![stash_decl_tree(c.stash), global_this_decl_tree(c.global), import_util_decl_tree(c.util)];
    assert(header + Seq::<JsTree>::empty() =~= header);
}

/// The walk leaves a plain node as it was and takes no id.
pub proof fn law_plain_unchanged(c: Ctx, t: JsTree, ids: u32)
    requires
        plain(t),
    ensures
        v_pos(c, t, ids) == (t, ids),
{
    lemma_plain_pos(c, t, ids);
}

/// Whether the walk accepts a node itself (its children aside): a closure,
/// class or method it parses must be accepted by the parser, an accessor of
/// a class must be named by an identifier or a computed name, `.bind` must
/// be given an argument, and a function declaration in a list of statements
/// must be accepted by the parser.
pub open spec fn node_decoratable(t: JsTree) -> bool {
    &&& (t.kind == JsKind::Arrow || t.kind == JsKind::PropMethod || t.kind == JsKind::ClassDecl || t.kind
        == JsKind::ClassExpr || (t.kind == JsKind::FnExpr && has_body(t))) ==> supported(t)
    &&& (t.kind == JsKind::ClassDecl || t.kind == JsKind::ClassExpr) ==> (t.children.len() == 2 ==> t.children[1].children.len() == 2 ==> forall|i: int|
        0 <= i < t.children[1].children[0].children.len() ==> #[trigger] method_registrable(
            t.children[1].children[0].children[i],
        ))
    &&& is_bind_call(t) ==> t.children[1].children.len() > 0
    &&& (t.kind == JsKind::Block || t.kind == JsKind::List || t.kind == JsKind::TsModuleBlock) ==> forall|i: int|
        0 <= i < t.children.len() ==> (#[trigger] registered_fn(t.children[i]) matches Some(f) ==> supported(f))
}

/// Whether the walk accepts a tree: it is well formed and every node in it
/// is accepted.
#[verifier::opaque]
pub open spec fn decoratable(t: JsTree) -> bool
    decreases t,
{
    &&& node_decoratable(t)
    &&& forall|i: int| 0 <= i < t.children.len() ==> decoratable(#[trigger] t.children[i])
}

/// What the walk reads of the transform's state.
pub open spec fn ctx_of(d: ClosureDecorator) -> Ctx {
    Ctx { vis: visible(d), stash: d.stash@, global: d.global@, util: d.util@ }
}

/// What every walk function asks for: a scope to parse in, and a well
/// formed tree that the walk accepts.
pub open spec fn walk_pre(d: ClosureDecorator, t: JsTree) -> bool {
    d.vm@.len() > 0 && well_formed(t) && decoratable(t)
}

/// What every element of a list given to a walk function must be.
pub open spec fn walk_pre_all(d: ClosureDecorator, s: Seq<JsNode>) -> bool {
    d.vm@.len() > 0 && forall|k: int| #![trigger s[k]] 0 <= k < s.len() ==> well_formed(s[k]@) && decoratable(s[k]@)
}

/// The children of a node the walk accepts are accepted, and so is the node
/// itself.
pub proof fn lemma_decoratable_node(n: JsNode)
    ensures
        decoratable(view_node(n)) ==> node_decoratable(view_node(n)),
        decoratable(view_node(n)) ==> forall|k: int| #![trigger n.children@[k]] 0 <= k < n.children@.len() ==> decoratable(n.children@[k]@),
{
    lemma_node(n);
    reveal(decoratable);
    if decoratable(view_node(n)) {
        assert forall|k: int| #![trigger n.children@[k]] 0 <= k < n.children@.len() implies decoratable(n.children@[k]@) by {
            assert(n.children@[k]@ == view_node(n).children[k]);
        }
    }
}

/// Whether a statement is a directive such as `"use strict"`.
pub fn is_directive_node(s: &JsNode) -> (r: bool)
    ensures
        r == is_directive(s@),
{
    proof {
        lemma_node(*s);
    }
    s.kind == JsKind::ExprStmt && s.children.len() == 1 && s.children[0].kind == JsKind::Str
}

/// Puts `stmts` into `to` after its directives.
pub fn prepend_stmts(to: &mut Vec<JsNode>, stmts: Vec<JsNode>)
    ensures
        view_nodes(final(to)@) == insert_after_directives(view_nodes(old(to)@), view_nodes(stmts@)),
{
    let ghost vs = view_nodes(to@);
    proof {
        lemma_view_nodes(to@);
        assert(vs.subrange(0, vs.len() as int) =~= vs);
    }
    let mut p: usize = 0;
    while p < to.len() && is_directive_node(&to[p])
        invariant
            p <= to@.len(),
            vs == view_nodes(to@),
            vs.len() == to@.len(),
            forall|k: int| 0 <= k < to@.len() ==> #[trigger] vs[k] == to@[k]@,
            directive_count(vs) == p + directive_count(vs.subrange(p as int, vs.len() as int)),
        decreases to@.len() - p,
    {
        proof {
            let rest = vs.subrange(p as int, vs.len() as int);
            assert(rest.subrange(1, rest.len() as int) =~= vs.subrange(p + 1, vs.len() as int));
        }
        p += 1;
    }
    proof {
        let rest = vs.subrange(p as int, vs.len() as int);
        if p < to@.len() {
            assert(!is_directive(rest[0]));
        }
    }
    let ghost head = to@.subrange(0, p as int);
    let ghost tail = to@.subrange(p as int, to@.len() as int);
    let ghost inserted = stmts@;
    let mut rest = to.split_off(p);
    let mut stmts = stmts;
    to.append(&mut stmts);
    to.append(&mut rest);
    proof {
        assert(to@ =~= head + inserted + tail);
        crate::js::lemma_view_nodes_concat(head + inserted, tail);
        crate::js::lemma_view_nodes_concat(head, inserted);
        lemma_view_nodes(head);
        lemma_view_nodes(tail);
        assert(view_nodes(head) =~= vs.subrange(0, p as int));
        assert(view_nodes(tail) =~= vs.subrange(p as int, vs.len() as int));
    }
}

/// `t` with its children replaced.
fn rebuilt(t: &JsNode, children: Vec<JsNode>) -> (r: JsNode)
    ensures
        r@ == with_children(t@, view_nodes(children@)),
{
    mk_node(t.kind, t.span, t.op, t.text.clone(), t.flag, t.flag2, t.num, children)
}

/// `static { ...stmts }`.
fn static_block(stmts: Vec<JsNode>) -> (r: JsNode)
    ensures
        r@ == static_block_tree(view_nodes(stmts@)),
{
    let body = crate::js_util::mkv(JsKind::Block, Op::NoOp, false, stmts);
    mk1(JsKind::StaticBlock, Op::NoOp, false, body)
}

/// The property name of a method as the name of a member access.
fn method_member_name(key: &JsNode) -> (r: JsNode)
    ensures
        r@ == method_member_prop(key@),
{
    if key.kind == JsKind::Ident || key.kind == JsKind::Computed {
        clone_node(key)
    } else {
        mk1(JsKind::Computed, Op::NoOp, false, clone_node(key))
    }
}

/// `Object.getOwnPropertyDescriptor(this, name)` for the accessor `key`.
fn property_descriptor(this: JsNode, key: &JsNode) -> (r: JsNode)
    requires
        key@.kind == JsKind::Ident || (key@.kind == JsKind::Computed && key@.children.len() == 1),
    ensures
        r@ == property_descriptor_tree(this@, key@),
{
    proof {
        lemma_node(*key);
    }
    let callee = prop_access_expr(quote_ident("Object"), quote_ident("getOwnPropertyDescriptor"));
    let name = if key.kind == JsKind::Ident {
        string_expr_of(&key.text)
    } else {
        clone_node(&key.children[0])
    };
    call_expr(callee, vec2(eos(this), eos(name)))
}

impl ClosureDecorator {
    /// The statement that registers a class method; see [`register_method`].
    pub fn register_class_method(&mut self, method: &JsNode) -> (r: JsNode)
        requires
            old(self).vm@.len() > 0,
            well_formed(method@),
            supported(method@),
            method_registrable(method@),
        ensures
            parse_frame(*old(self), *final(self)),
            (r@, final(self).ids) == register_method(ctx_of(*old(self)), method@, old(self).ids),
    {
        proof {
            lemma_node(*method);
        }
        let ast = self.parse_method_like(method, true);
        let this = if method.flag {
            this_expr()
        } else {
            prop_access_expr(this_expr(), quote_ident("prototype"))
        };
        let key = if method.children.len() > 0 {
            clone_node(&method.children[0])
        } else {
            absent_node()
        };
        let method_ref = match method.op {
            Op::Method(MethodKind::Getter) => prop_access_expr(property_descriptor(this, &key), quote_ident("get")),
            Op::Method(MethodKind::Setter) => prop_access_expr(property_descriptor(this, &key), quote_ident("set")),
            _ => mk2(JsKind::Member, Op::NoOp, false, this, method_member_name(&key)),
        };
        self.register_ast_stmt(method_ref, ast)
    }

    /// The statement that registers a function declaration with its AST.
    pub fn register_func_decl(&mut self, func: &JsNode) -> (r: JsNode)
        requires
            old(self).vm@.len() > 0,
            well_formed(func@),
            supported(func@),
            func@.kind == JsKind::FnDecl,
        ensures
            parse_frame(*old(self), *final(self)),
            (r@, final(self).ids) == (
                register_stmt_tree(old(self).stash@, old(self).global@, func@.children[0], p_fn_decl(func@, true, visible(*old(self)), old(self).ids).0),
                p_fn_decl(func@, true, visible(*old(self)), old(self).ids).1,
            ),
    {
        proof {
            lemma_node(*func);
        }
        let ast = self.parse_function_decl(func, true);
        self.register_ast_stmt(clone_node(&func.children[0]), ast)
    }

    /// The registrations of the function declarations among `s`; see
    /// [`reg_fn_decls`].
    pub fn register_fn_decls(&mut self, s: &Vec<JsNode>) -> (r: Vec<JsNode>)
        requires
            old(self).vm@.len() > 0,
            forall|k: int| #![trigger s@[k]] 0 <= k < s@.len() ==> well_formed(s@[k]@),
            forall|k: int| #![trigger s@[k]] 0 <= k < s@.len() ==> (registered_fn(s@[k]@) matches Some(f) ==> supported(f)),
        ensures
            parse_frame(*old(self), *final(self)),
            (view_nodes(r@), final(self).ids) == reg_fn_decls(ctx_of(*old(self)), view_nodes(s@), old(self).ids),
    {
        let ghost vs = view_nodes(s@);
        let ghost c = ctx_of(*self);
        let ghost ids0 = self.ids;
        proof {
            lemma_view_nodes(s@);
            assert(vs.subrange(0, 0) =~= Seq::<JsTree>::empty());
            lemma_view_nodes(Seq::<JsNode>::empty());
            assert(view_nodes(Seq::<JsNode>::empty()) =~= Seq::<JsTree>::empty());
        }
        let mut out: Vec<JsNode> = Vec::new();
        let mut i: usize = 0;
        while i < s.len()
            invariant
                i <= s@.len(),
                vs == view_nodes(s@),
                vs.len() == s@.len(),
                forall|k: int| 0 <= k < s@.len() ==> #[trigger] vs[k] == s@[k]@,
                forall|k: int| #![trigger s@[k]] 0 <= k < s@.len() ==> well_formed(s@[k]@),
                forall|k: int| #![trigger s@[k]] 0 <= k < s@.len() ==> (registered_fn(s@[k]@) matches Some(f) ==> supported(f)),
                parse_frame(*old(self), *self),
                self.vm@.len() > 0,
                c == ctx_of(*old(self)),
                ids0 == old(self).ids,
                (view_nodes(out@), self.ids) == reg_fn_decls(c, vs.subrange(0, i as int), ids0),
            decreases s@.len() - i,
        {
            let item = &s[i];
            proof {
                lemma_node(*item);
                let q = vs.subrange(0, i + 1);
                assert(q.drop_last() =~= vs.subrange(0, i as int));
            }
            let f = if item.kind == JsKind::ExportDecl && item.children.len() == 1 {
                &item.children[0]
            } else {
                item
            };
            proof {
                lemma_node(*f);
            }
            if f.kind == JsKind::FnDecl && f.children.len() == 2 {
                let reg = self.register_func_decl(f);
                proof {
                    lemma_view_nodes_push(out@, reg);
                }
                out.push(reg);
            }
            i += 1;
        }
        proof {
            assert(vs.subrange(0, i as int) =~= vs);
        }
        out
    }

    /// The registrations of the methods among the members of a class; see
    /// [`reg_methods`].
    pub fn register_methods(&mut self, members: &Vec<JsNode>) -> (r: Vec<JsNode>)
        requires
            old(self).vm@.len() > 0,
            forall|k: int| #![trigger members@[k]] 0 <= k < members@.len() ==> well_formed(members@[k]@)
                && supported(members@[k]@) && method_registrable(members@[k]@),
        ensures
            parse_frame(*old(self), *final(self)),
            (view_nodes(r@), final(self).ids) == reg_methods(ctx_of(*old(self)), view_nodes(members@), old(self).ids),
    {
        let ghost vs = view_nodes(members@);
        let ghost c = ctx_of(*self);
        let ghost ids0 = self.ids;
        proof {
            lemma_view_nodes(members@);
            assert(vs.subrange(0, 0) =~= Seq::<JsTree>::empty());
            lemma_view_nodes(Seq::<JsNode>::empty());
            assert(view_nodes(Seq::<JsNode>::empty()) =~= Seq::<JsTree>::empty());
        }
        let mut out: Vec<JsNode> = Vec::new();
        let mut i: usize = 0;
        while i < members.len()
            invariant
                i <= members@.len(),
                vs == view_nodes(members@),
                vs.len() == members@.len(),
                forall|k: int| 0 <= k < members@.len() ==> #[trigger] vs[k] == members@[k]@,
                forall|k: int| #![trigger members@[k]] 0 <= k < members@.len() ==> well_formed(members@[k]@)
                    && supported(members@[k]@) && method_registrable(members@[k]@),
                parse_frame(*old(self), *self),
                self.vm@.len() > 0,
                c == ctx_of(*old(self)),
                ids0 == old(self).ids,
                (view_nodes(out@), self.ids) == reg_methods(c, vs.subrange(0, i as int), ids0),
            decreases members@.len() - i,
        {
            let m = &members[i];
            proof {
                let q = vs.subrange(0, i + 1);
                assert(q.drop_last() =~= vs.subrange(0, i as int));
            }
            if m.kind == JsKind::ClassMethod {
                let reg = self.register_class_method(m);
                proof {
                    lemma_view_nodes_push(out@, reg);
                }
                out.push(reg);
            }
            i += 1;
        }
        proof {
            assert(vs.subrange(0, i as int) =~= vs);
        }
        out
    }

    /// A node at any position; see [`v_pos`].
    pub fn visit_pos(&mut self, t: &JsNode) -> (r: JsNode)
        requires
            walk_pre(*old(self), t@),
        ensures
            parse_frame(*old(self), *final(self)),
            (r@, final(self).ids) == v_pos(ctx_of(*old(self)), t@, old(self).ids),
        decreases t, 4int,
    {
        proof {
            lemma_node(*t);
            lemma_decoratable_node(*t);
        }
        if is_expr_kind_exec(t.kind) {
            self.visit_expr(t)
        } else if t.kind == JsKind::Block {
            self.visit_stmt_list(t)
        } else if t.kind == JsKind::ClassDecl {
            self.visit_class_like(t)
        } else if is_prop_kind_exec(t.kind) {
            self.visit_prop(t)
        } else if t.kind == JsKind::ExportDefaultDecl && t.children.len() == 1 {
            let d = if t.children[0].kind == JsKind::FnExpr {
                self.visit_children(&t.children[0])
            } else {
                self.visit_pos(&t.children[0])
            };
            let ghost dv = d@;
            let children = vec![d];
            proof {
                lemma_view_nodes(children@);
                assert(view_nodes(children@) =~= seq![dv]);
            }
            rebuilt(t, children)
        } else if t.kind == JsKind::SwitchCase && t.children.len() == 2 && t.children[1].kind == JsKind::List {
            let test = self.visit_pos(&t.children[0]);
            let cons = self.visit_stmt_list(&t.children[1]);
            rebuilt(t, vec2(test, cons))
        } else if t.kind == JsKind::TsModuleBlock {
            self.visit_module_block(t)
        } else {
            self.visit_children(t)
        }
    }

    /// Walks the nodes of a list, in order; see [`v_list`].
    pub fn visit_list(&mut self, s: &Vec<JsNode>) -> (r: Vec<JsNode>)
        requires
            walk_pre_all(*old(self), s@),
        ensures
            parse_frame(*old(self), *final(self)),
            r@.len() == s@.len(),
            (view_nodes(r@), final(self).ids) == v_list(ctx_of(*old(self)), view_nodes(s@), old(self).ids),
        decreases s, 0int,
    {
        let ghost vs = view_nodes(s@);
        let ghost c = ctx_of(*self);
        let ghost ids0 = self.ids;
        proof {
            lemma_view_nodes(s@);
            assert(vs.subrange(0, 0) =~= Seq::<JsTree>::empty());
            lemma_view_nodes(Seq::<JsNode>::empty());
            assert(view_nodes(Seq::<JsNode>::empty()) =~= Seq::<JsTree>::empty());
        }
        let mut out: Vec<JsNode> = Vec::new();
        let mut i: usize = 0;
        while i < s.len()
            invariant
                i <= s@.len(),
                vs == view_nodes(s@),
                vs.len() == s@.len(),
                forall|k: int| 0 <= k < s@.len() ==> #[trigger] vs[k] == s@[k]@,
                walk_pre_all(*self, s@),
                parse_frame(*old(self), *self),
                c == ctx_of(*old(self)),
                ids0 == old(self).ids,
                out@.len() == i,
                (view_nodes(out@), self.ids) == v_list(c, vs.subrange(0, i as int), ids0),
            decreases s@.len() - i,
        {
            proof {
                assert(decreases_to!(s => s@));
                assert(decreases_to!(s@ => s@[i as int]));
            }
            let item = self.visit_pos(&s[i]);
            proof {
                let q = vs.subrange(0, i + 1);
                assert(q.subrange(0, q.len() - 1) =~= vs.subrange(0, i as int));
                lemma_view_nodes_push(out@, item);
            }
            out.push(item);
            i += 1;
        }
        proof {
            assert(vs.subrange(0, i as int) =~= vs);
        }
        out
    }

    /// Walks the children of a node; see [`v_children`].
    pub fn visit_children(&mut self, t: &JsNode) -> (r: JsNode)
        requires
            walk_pre(*old(self), t@),
        ensures
            parse_frame(*old(self), *final(self)),
            (r@, final(self).ids) == v_children(ctx_of(*old(self)), t@, old(self).ids),
            r@.children.len() == t@.children.len(),
        decreases t, 0int,
    {
        proof {
            lemma_node(*t);
            lemma_decoratable_node(*t);
        }
        let children = self.visit_list(&t.children);
        proof {
            lemma_view_nodes(children@);
        }
        rebuilt(t, children)
    }

    /// A list of statements; see [`v_stmts`].
    pub fn visit_stmts(&mut self, stmts: &Vec<JsNode>) -> (r: Vec<JsNode>)
        requires
            walk_pre_all(*old(self), stmts@),
            forall|k: int| #![trigger stmts@[k]] 0 <= k < stmts@.len() ==> (registered_fn(stmts@[k]@) matches Some(f) ==> supported(f)),
        ensures
            parse_frame(*old(self), *final(self)),
            (view_nodes(r@), final(self).ids) == v_stmts(ctx_of(*old(self)), view_nodes(stmts@), old(self).ids),
        decreases stmts, 1int,
    {
        let regs = self.register_fn_decls(stmts);
        let mut out = self.visit_list(stmts);
        if regs.len() > 0 {
            prepend_stmts(&mut out, regs);
        }
        out
    }

    /// A node that holds a list of statements; see [`v_stmt_list`].
    pub fn visit_stmt_list(&mut self, t: &JsNode) -> (r: JsNode)
        requires
            walk_pre(*old(self), t@),
            t@.kind == JsKind::Block || t@.kind == JsKind::List,
        ensures
            parse_frame(*old(self), *final(self)),
            (r@, final(self).ids) == v_stmt_list(ctx_of(*old(self)), t@, old(self).ids),
        decreases t, 1int,
    {
        proof {
            lemma_node(*t);
            lemma_decoratable_node(*t);
        }
        let stmts = self.visit_stmts(&t.children);
        rebuilt(t, stmts)
    }

    /// Walks the statements of a script or a block in place; see
    /// [`v_stmts`].
    pub fn visit_mut_stmts(&mut self, stmts: &mut Vec<JsNode>)
        requires
            walk_pre_all(*old(self), old(stmts)@),
            forall|k: int| #![trigger old(stmts)@[k]] 0 <= k < old(stmts)@.len() ==> (registered_fn(old(stmts)@[k]@) matches Some(f) ==> supported(f)),
        ensures
            parse_frame(*old(self), *final(self)),
            (view_nodes(final(stmts)@), final(self).ids) == v_stmts(ctx_of(*old(self)), view_nodes(old(stmts)@), old(self).ids),
    {
        let r = self.visit_stmts(stmts);
        *stmts = r;
    }

    /// Walks the items of a module in place; see [`v_module`].
    pub fn visit_mut_module_items(&mut self, items: &mut Vec<JsNode>)
        requires
            walk_pre_all(*old(self), old(items)@),
            forall|k: int| #![trigger old(items)@[k]] 0 <= k < old(items)@.len() ==> (registered_fn(old(items)@[k]@) matches Some(f) ==> supported(f)),
        ensures
            parse_frame(*old(self), *final(self)),
            (view_nodes(final(items)@), final(self).ids) == v_module(ctx_of(*old(self)), view_nodes(old(items)@), old(self).ids),
    {
        let r = self.visit_module_items(items);
        *items = r;
    }

    /// The body of a namespace, walked as a module; see [`v_module`].
    pub fn visit_module_block(&mut self, t: &JsNode) -> (r: JsNode)
        requires
            walk_pre(*old(self), t@),
            t@.kind == JsKind::TsModuleBlock,
        ensures
            parse_frame(*old(self), *final(self)),
            (r@, final(self).ids) == v_pos(ctx_of(*old(self)), t@, old(self).ids),
        decreases t, 1int,
    {
        proof {
            lemma_node(*t);
            lemma_decoratable_node(*t);
        }
        let items = self.visit_module_items(&t.children);
        rebuilt(t, items)
    }

    /// The items of a module; see [`v_module`].
    pub fn visit_module_items(&mut self, items: &Vec<JsNode>) -> (r: Vec<JsNode>)
        requires
            walk_pre_all(*old(self), items@),
            forall|k: int| #![trigger items@[k]] 0 <= k < items@.len() ==> (registered_fn(items@[k]@) matches Some(f) ==> supported(f)),
        ensures
            parse_frame(*old(self), *final(self)),
            (view_nodes(r@), final(self).ids) == v_module(ctx_of(*old(self)), view_nodes(items@), old(self).ids),
        decreases items, 2int,
    {
        let ghost c = ctx_of(*self);
        let mut new_stmts = vec3(self.create_stash_decl(), self.create_global_this(), self.create_import_util());
        let ghost header = view_nodes(new_stmts@);
        let mut regs = self.register_fn_decls(items);
        let ghost rv = view_nodes(regs@);
        let ghost nv = view_nodes(new_stmts@);
        proof {
            crate::js::lemma_view_nodes_concat(new_stmts@, regs@);
        }
        new_stmts.append(&mut regs);
        let mut out = self.visit_list(items);
        prepend_stmts(&mut out, new_stmts);
        out
    }

    /// Walks an expression in place; see [`v_expr`].
    pub fn visit_mut_expr(&mut self, expr: &mut JsNode)
        requires
            walk_pre(*old(self), old(expr)@),
        ensures
            parse_frame(*old(self), *final(self)),
            (final(expr)@, final(self).ids) == v_expr(ctx_of(*old(self)), old(expr)@, old(self).ids),
    {
        let r = self.visit_expr(expr);
        *expr = r;
    }

    /// Walks a property of an object literal in place; see [`v_prop`].
    pub fn visit_mut_prop(&mut self, prop: &mut JsNode)
        requires
            walk_pre(*old(self), old(prop)@),
        ensures
            parse_frame(*old(self), *final(self)),
            (final(prop)@, final(self).ids) == v_prop(ctx_of(*old(self)), old(prop)@, old(self).ids),
    {
        let r = self.visit_prop(prop);
        *prop = r;
    }

    /// Walks a class declaration in place; see [`v_class_like`].
    pub fn visit_mut_class_decl(&mut self, class_decl: &mut JsNode)
        requires
            walk_pre(*old(self), old(class_decl)@),
            old(class_decl)@.kind == JsKind::ClassDecl,
        ensures
            parse_frame(*old(self), *final(self)),
            (final(class_decl)@, final(self).ids) == v_class_like(ctx_of(*old(self)), old(class_decl)@, old(self).ids),
    {
        let r = self.visit_class_like(class_decl);
        *class_decl = r;
    }

    /// Walks a class expression in place; see [`v_class_like`].
    pub fn visit_mut_class_expr(&mut self, class_expr: &mut JsNode)
        requires
            walk_pre(*old(self), old(class_expr)@),
            old(class_expr)@.kind == JsKind::ClassExpr,
        ensures
            parse_frame(*old(self), *final(self)),
            (final(class_expr)@, final(self).ids) == v_class_like(ctx_of(*old(self)), old(class_expr)@, old(self).ids),
    {
        let r = self.visit_class_like(class_expr);
        *class_expr = r;
    }

    /// The children of an expression; see [`v_expr_children`].
    pub fn visit_expr_children(&mut self, t: &JsNode) -> (r: JsNode)
        requires
            walk_pre(*old(self), t@),
        ensures
            parse_frame(*old(self), *final(self)),
            (r@, final(self).ids) == v_expr_children(ctx_of(*old(self)), t@, old(self).ids),
        decreases t, 2int,
    {
        if t.kind == JsKind::ClassExpr {
            self.visit_class_like(t)
        } else {
            self.visit_children(t)
        }
    }

    /// An expression; see [`v_expr`].
    pub fn visit_expr(&mut self, t: &JsNode) -> (r: JsNode)
        requires
            walk_pre(*old(self), t@),
        ensures
            parse_frame(*old(self), *final(self)),
            (r@, final(self).ids) == v_expr(ctx_of(*old(self)), t@, old(self).ids),
        decreases t, 3int,
    {
        proof {
            lemma_node(*t);
            lemma_decoratable_node(*t);
        }
        if t.kind == JsKind::Arrow {
            let ast = self.parse_arrow(t, true);
            let t2 = self.visit_children(t);
            self.register_ast_seq(t2, ast)
        } else if t.kind == JsKind::FnExpr && has_body_node(t) {
            let ast = self.parse_function_expr(t, true);
            let t2 = self.visit_children(t);
            self.register_mut_ast(t2, ast)
        } else if is_new_proxy_node(t) {
            let list = &t.children[1];
            proof {
                lemma_node(*list);
                lemma_decoratable_node(*list);
            }
            let args = self.visit_list(&list.children);
            self.wrap_proxy(clone_node(&t.children[0]), args)
        } else if is_bind_call_node(t) && t.children[1].children.len() > 0 {
            let list = &t.children[1];
            let member = &t.children[0];
            proof {
                lemma_node(*list);
                lemma_decoratable_node(*list);
                lemma_node(*member);
                lemma_decoratable_node(*member);
            }
            let mut args = self.visit_list(&list.children);
            let func = self.visit_expr_children(&member.children[0]);
            let ghost va = view_nodes(args@);
            proof {
                lemma_view_nodes(args@);
            }
            let first = args.remove(0);
            proof {
                lemma_node(first);
                lemma_view_nodes(args@);
                assert(view_nodes(args@) =~= va.subrange(1, va.len() as int));
            }
            let this = if first.children.len() > 0 {
                clone_node(&first.children[0])
            } else {
                absent_node()
            };
            self.wrap_bind(func, this, args)
        } else {
            self.visit_expr_children(t)
        }
    }

    /// A class declaration or expression; see [`v_class_like`].
    #[verifier::rlimit(30)]
    pub fn visit_class_like(&mut self, t: &JsNode) -> (r: JsNode)
        requires
            walk_pre(*old(self), t@),
            t@.kind == JsKind::ClassDecl || t@.kind == JsKind::ClassExpr,
        ensures
            parse_frame(*old(self), *final(self)),
            (r@, final(self).ids) == v_class_like(ctx_of(*old(self)), t@, old(self).ids),
        decreases t, 1int,
    {
        proof {
            lemma_node(*t);
            lemma_decoratable_node(*t);
        }
        if t.children.len() != 2 {
            return self.visit_children(t);
        }
        proof {
            lemma_node(t.children@[1]);
        }
        if t.children[1].children.len() != 2 {
            return self.visit_children(t);
        }
        let class_ast = self.parse_class_like(t, true);
        let class = &t.children[1];
        let list = &class.children[0];
        proof {
            lemma_decoratable_node(*class);
            lemma_node(*list);
            lemma_decoratable_node(*list);
            assert forall|k: int| #![trigger list.children@[k]] 0 <= k < list.children@.len() implies method_registrable(list.children@[k]@) by {
                assert(list.children@[k]@ == t@.children[1].children[0].children[k]);
            }
        }
        let mut regs = self.register_methods(&list.children);
        let reg_class = self.register_ast_stmt(this_expr(), class_ast);
        proof {
            lemma_view_nodes_push(regs@, reg_class);
        }
        regs.push(reg_class);
        let class2 = self.visit_children(class);
        proof {
            lemma_node(class2);
        }
        let ghost c2 = class2@;
        let JsNode { kind, span, op, text, flag, flag2, num, children } = class2;
        let mut children = children;
        let sup = children.pop().unwrap();
        let members = children.pop().unwrap();
        proof {
            lemma_node(members);
        }
        let ghost mv = members@;
        let JsNode { kind: mkind, span: mspan, op: mop, text: mtext, flag: mflag, flag2: mflag2, num: mnum, children: mchildren } = members;
        let mut mchildren = mchildren;
        let block = static_block(regs);
        let ghost (bv, mcv) = (block@, view_nodes(mchildren@));
        prepend(&mut mchildren, block);
        proof {
            lemma_view_nodes(mchildren@);
            crate::js::lemma_view_nodes_concat(seq![block], mchildren@.subrange(1, mchildren@.len() as int));
        }
        let members2 = mk_node(mkind, mspan, mop, mtext, mflag, mflag2, mnum, mchildren);
        let class3 = mk_node(kind, span, op, text, flag, flag2, num, vec2(members2, sup));
        let ident = clone_node(&t.children[0]);
        let r = rebuilt(t, vec2(ident, class3));
        proof {
            assert(view_nodes(mchildren@) =~= seq![bv] + mcv);
        }
        r
    }

    /// A property of an object literal; see [`v_prop`].
    pub fn visit_prop(&mut self, t: &JsNode) -> (r: JsNode)
        requires
            walk_pre(*old(self), t@),
        ensures
            parse_frame(*old(self), *final(self)),
            (r@, final(self).ids) == v_prop(ctx_of(*old(self)), t@, old(self).ids),
        decreases t, 1int,
    {
        proof {
            lemma_node(*t);
            lemma_decoratable_node(*t);
        }
        if t.kind == JsKind::PropMethod && t.children.len() == 2 {
            let ast = self.parse_method_like(t, false);
            let t2 = self.visit_children(t);
            proof {
                lemma_node(t2);
            }
            let JsNode { kind, span, op, text, flag, flag2, num, children } = t2;
            let mut children = children;
            let func = children.pop().unwrap();
            let key = children.pop().unwrap();
            let name = if key.kind == JsKind::Ident {
                clone_node(&key)
            } else {
                absent_node()
            };
            let fn_expr = mk2(JsKind::FnExpr, Op::NoOp, false, name, func);
            let value = self.register_ast_seq(fn_expr, ast);
            mk2(JsKind::PropKeyValue, Op::NoOp, false, key, value)
        } else {
            self.visit_children(t)
        }
    }
}

/// Whether a node kind is an expression.
fn is_expr_kind_exec(k: JsKind) -> (r: bool)
    ensures
        r == is_expr_kind(k),
{
    match k {
        JsKind::Array | JsKind::Arrow | JsKind::Assign | JsKind::Await | JsKind::Bin | JsKind::Call
        | JsKind::ClassExpr | JsKind::Cond | JsKind::FnExpr | JsKind::Ident | JsKind::Invalid
        | JsKind::JsxElement | JsKind::JsxEmpty | JsKind::JsxFragment | JsKind::JsxMember
        | JsKind::JsxNamespacedName | JsKind::Str | JsKind::Bool | JsKind::Null | JsKind::Num
        | JsKind::Int | JsKind::BigInt | JsKind::Regex | JsKind::JsxText | JsKind::Member
        | JsKind::MetaProp | JsKind::New | JsKind::Object | JsKind::OptChain | JsKind::Paren
        | JsKind::PrivateName | JsKind::SeqExpr | JsKind::SuperProp | JsKind::Tpl | JsKind::TaggedTpl
        | JsKind::This | JsKind::TsWrapper | JsKind::Unary | JsKind::Update | JsKind::Yield => true,
        _ => false,
    }
}

/// Whether a node kind is a property of an object literal.
fn is_prop_kind_exec(k: JsKind) -> (r: bool)
    ensures
        r == is_prop_kind(k),
{
    match k {
        JsKind::PropKeyValue | JsKind::PropAssign | JsKind::PropGetter | JsKind::PropSetter
        | JsKind::PropMethod | JsKind::PropShorthand => true,
        _ => false,
    }
}

/// Whether a function expression has a body.
pub(crate) fn has_body_node(t: &JsNode) -> (r: bool)
    ensures
        r == has_body(t@),
{
    proof {
        lemma_node(*t);
    }
    if t.children.len() != 2 {
        return false;
    }
    let f = &t.children[1];
    proof {
        lemma_node(*f);
    }
    f.children.len() == 2 && f.children[1].kind != JsKind::Absent
}

/// Whether `t` is `new Proxy(...)` with an argument list.
fn is_new_proxy_node(t: &JsNode) -> (r: bool)
    ensures
        r == is_new_proxy(t@),
{
    proof {
        lemma_node(*t);
    }
    let proxy = String::from_str("Proxy");
    t.kind == JsKind::New && t.children.len() == 2 && t.children[1].kind != JsKind::Absent && t.children[0].kind
        == JsKind::Ident && t.children[0].text == proxy
}

/// Whether `t` is a call of `obj.bind`.
pub(crate) fn is_bind_call_node(t: &JsNode) -> (r: bool)
    ensures
        r == is_bind_call(t@),
{
    proof {
        lemma_node(*t);
    }
    if !(t.kind == JsKind::Call && t.children.len() == 2 && t.children[0].kind == JsKind::Member) {
        return false;
    }
    let member = &t.children[0];
    proof {
        lemma_node(*member);
    }
    let bind = String::from_str("bind");
    member.children.len() == 2 && member.children[1].kind == JsKind::Ident && member.children[1].text == bind
}

} // verus!
