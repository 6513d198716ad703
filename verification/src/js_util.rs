//! Builders of the small JavaScript expressions that the transform emits.
use vstd::prelude::*;

use crate::ast::Node;
use crate::js::{
    absent_tree, dummy_span, group_js_node, inner_tree, leaf_tree, view_nodes, AssignOp, BinaryOp, JsKind, JsNode,
    JsTree, Op, Span, UnaryOp,
};
use crate::emit::fl_node;
use crate::parse::node3;
use crate::span::{expr_span, get_expr_span};

verus! {

broadcast use group_js_node;

/// A string literal.
pub open spec fn str_tree(s: Seq<char>) -> JsTree {
    leaf_tree(JsKind::Str, dummy_span(), s, false, 0)
}

/// A number made by the transform.
pub open spec fn int_tree(n: i64) -> JsTree {
    leaf_tree(JsKind::Int, dummy_span(), Seq::empty(), false, n)
}

/// A boolean literal.
pub open spec fn bool_tree(b: bool) -> JsTree {
    leaf_tree(JsKind::Bool, dummy_span(), Seq::empty(), b, 0)
}

/// An identifier with the given name and span.
pub open spec fn ident_tree(name: Seq<char>, span: Span) -> JsTree {
    leaf_tree(JsKind::Ident, span, name, false, 0)
}

/// The identifier expression of an identifier or binding identifier node:
/// its name, span and optional mark.
pub open spec fn as_ident_tree(t: JsTree) -> JsTree {
    leaf_tree(JsKind::Ident, t.span, t.text, t.flag, 0)
}

/// `undefined`.
pub open spec fn undefined_tree() -> JsTree {
    ident_tree("undefined"@, dummy_span())
}

/// `__filename`.
pub open spec fn filename_tree() -> JsTree {
    ident_tree("__filename"@, dummy_span())
}

/// `this`.
pub open spec fn this_tree() -> JsTree {
    leaf_tree(JsKind::This, dummy_span(), Seq::empty(), false, 0)
}

/// An array element holding `e`, not spread.
pub open spec fn eos_tree(e: JsTree) -> JsTree {
    inner_tree(JsKind::ExprOrSpread, dummy_span(), seq![e])
}

/// The elements of an array literal of the given expressions.
pub open spec fn eos_trees(s: Seq<JsTree>) -> Seq<JsTree> {
    s.map_values(|e: JsTree| eos_tree(e))
}

/// An array literal of the given expressions, in order.
#[verifier::opaque]
pub open spec fn array_tree(s: Seq<JsTree>) -> JsTree {
    inner_tree(JsKind::Array, dummy_span(), eos_trees(s))
}

/// An array literal with the given elements (holes are `Absent`).
pub open spec fn array_elems_tree(elems: Seq<JsTree>) -> JsTree {
    inner_tree(JsKind::Array, dummy_span(), elems)
}

/// `typeof e`.
pub open spec fn type_of_tree(e: JsTree) -> JsTree {
    JsTree {
        kind: JsKind::Unary,
        span: dummy_span(),
        op: Op::Unary(UnaryOp::TypeOf),
        text: Seq::empty(),
        flag: false,
        flag2: false,
        num: 0,
        children: seq![e],
    }
}

/// `left !== right`.
pub open spec fn not_eq_eq_tree(left: JsTree, right: JsTree) -> JsTree {
    JsTree {
        kind: JsKind::Bin,
        span: dummy_span(),
        op: Op::Bin(BinaryOp::NotEqEq),
        text: Seq::empty(),
        flag: false,
        flag2: false,
        num: 0,
        children: seq![left, right],
    }
}

/// `require(module)`.
pub open spec fn require_tree(module: Seq<char>) -> JsTree {
    inner_tree(
        JsKind::Call,
        dummy_span(),
        seq![
            ident_tree("require"@, dummy_span()),
            inner_tree(JsKind::List, dummy_span(), seq![eos_tree(str_tree(module))]),
        ],
    )
}

/// `e.prop`.
pub open spec fn prop_access_tree(e: JsTree, prop: Seq<char>) -> JsTree {
    inner_tree(JsKind::Member, dummy_span(), seq![e, ident_tree(prop, dummy_span())])
}

/// `() => e`, spanned by `e`.
#[verifier::opaque]
pub open spec fn arrow_pointer_tree(e: JsTree) -> JsTree {
    inner_tree(JsKind::Arrow, expr_span(e), seq![inner_tree(JsKind::List, dummy_span(), Seq::empty()), e])
}

/// A reference node pointing at `e`: its name is empty and its syntax
/// context `-1`.
#[verifier::opaque]
pub open spec fn ref_tree(e: JsTree) -> JsTree {
    fl_node(Node::ReferenceExpr, expr_span(e), seq![str_tree(Seq::empty()), arrow_pointer_tree(e), int_tree(-1i64)])
}

/// A node with the given kind, span, scalars and children.
pub fn mk_node(kind: JsKind, span: Span, op: Op, text: String, flag: bool, flag2: bool, num: i64, children: Vec<JsNode>) -> (r: JsNode)
    ensures
        r@ == (JsTree { kind, span, op, text: text@, flag, flag2, num, children: view_nodes(children@) }),
{
    JsNode { kind, span, op, text, flag, flag2, num, children }
}

/// The span of a node the transform makes.
pub fn empty_span() -> (r: Span)
    ensures
        r == dummy_span(),
{
    Span { lo: 0, hi: 0, ctxt: 0, line: 0, col: 0 }
}

/// A leaf with the given kind, span and scalars.
pub fn mk_leaf(kind: JsKind, span: Span, text: String, flag: bool, num: i64) -> (r: JsNode)
    ensures
        r@ == leaf_tree(kind, span, text@, flag, num),
{
    let r = mk_node(kind, span, Op::NoOp, text, flag, false, num, Vec::new());
    assert(view_nodes(Seq::<JsNode>::empty()) =~= Seq::<JsTree>::empty());
    r
}

/// An inner node with no scalars.
pub fn mk_inner(kind: JsKind, span: Span, children: Vec<JsNode>) -> (r: JsNode)
    ensures
        r@ == inner_tree(kind, span, view_nodes(children@)),
{
    mk_node(kind, span, Op::NoOp, String::new(), false, false, 0, children)
}

/// The identifier expression of an identifier node.
pub fn ident_expr(ident: &JsNode) -> (r: JsNode)
    ensures
        r@ == as_ident_tree(ident@),
{
    mk_leaf(JsKind::Ident, ident.span, ident.text.clone(), ident.flag, 0)
}

/// An identifier with the given name and no place in the source.
pub fn quote_ident(name: &str) -> (r: JsNode)
    ensures
        r@ == ident_tree(name@, dummy_span()),
{
    mk_leaf(JsKind::Ident, empty_span(), String::from_str(name), false, 0)
}

/// `require(module)`.
pub fn require_expr(module: &str) -> (r: JsNode)
    ensures
        r@ == require_tree(module@),
{
    let callee = quote_ident("require");
    let arg = eos(string_expr(module));
    let ghost a = arg@;
    let items = vec![arg];
    proof {
        crate::js::lemma_view_nodes(items@);
        assert(view_nodes(items@) =~= seq![a]);
    }
    let args = mk_inner(JsKind::List, empty_span(), items);
    let ghost (c, l) = (callee@, args@);
    let children = vec![callee, args];
    proof {
        crate::js::lemma_view_nodes(children@);
        assert(view_nodes(children@) =~= seq![c, l]);
    }
    mk_inner(JsKind::Call, empty_span(), children)
}

/// A string literal.
pub fn string_expr(s: &str) -> (r: JsNode)
    ensures
        r@ == str_tree(s@),
{
    mk_leaf(JsKind::Str, empty_span(), String::from_str(s), false, 0)
}

/// A string literal holding a copy of `s`.
pub fn string_expr_of(s: &String) -> (r: JsNode)
    ensures
        r@ == str_tree(s@),
{
    mk_leaf(JsKind::Str, empty_span(), s.clone(), false, 0)
}

/// `typeof expr`.
pub fn type_of(expr: JsNode) -> (r: JsNode)
    ensures
        r@ == type_of_tree(expr@),
{
    let ghost e = expr@;
    let r = mk_node(JsKind::Unary, empty_span(), Op::Unary(UnaryOp::TypeOf), String::new(), false, false, 0, vec![expr]);
    proof {
        crate::js::lemma_view_nodes(r.children@);
        assert(view_nodes(r.children@) =~= seq![e]);
    }
    r
}

/// `left !== right`.
pub fn not_eq_eq(left: JsNode, right: JsNode) -> (r: JsNode)
    ensures
        r@ == not_eq_eq_tree(left@, right@),
{
    let ghost (l, rt) = (left@, right@);
    let r = mk_node(JsKind::Bin, empty_span(), Op::Bin(BinaryOp::NotEqEq), String::new(), false, false, 0, vec![left, right]);
    proof {
        crate::js::lemma_view_nodes(r.children@);
        assert(view_nodes(r.children@) =~= seq![l, rt]);
    }
    r
}

/// A number.
pub fn number_u32(i: u32) -> (r: JsNode)
    ensures
        r@ == int_tree(i as i64),
{
    mk_leaf(JsKind::Int, empty_span(), String::new(), false, i as i64)
}

/// A number.
pub fn number_i32(i: i32) -> (r: JsNode)
    ensures
        r@ == int_tree(i as i64),
{
    mk_leaf(JsKind::Int, empty_span(), String::new(), false, i as i64)
}

/// `expr.prop`.
pub fn prop_access_expr(expr: JsNode, prop: JsNode) -> (r: JsNode)
    requires
        prop@ == ident_tree(prop@.text, dummy_span()),
    ensures
        r@ == prop_access_tree(expr@, prop@.text),
{
    let ghost (e, p) = (expr@, prop@);
    let r = mk_inner(JsKind::Member, empty_span(), vec![expr, prop]);
    proof {
        crate::js::lemma_view_nodes(r.children@);
        assert(view_nodes(r.children@) =~= seq![e, p]);
    }
    r
}

/// A reference node pointing at `expr`.
pub fn ref_expr(expr: JsNode) -> (r: JsNode)
    ensures
        r@ == ref_tree(expr@),
{
    proof {
        reveal(ref_tree);
    }
    let span = get_expr_span(&expr);
    let pointer = arrow_pointer(expr);
    let name = string_expr("");
    let id = number_i32(-1);
    proof {
        reveal_strlit("");
        assert(""@ =~= Seq::<char>::empty());
    }
    node3(Node::ReferenceExpr, &span, name, pointer, id)
}

/// `() => expr`.
pub fn arrow_pointer(expr: JsNode) -> (r: JsNode)
    ensures
        r@ == arrow_pointer_tree(expr@),
{
    proof {
        reveal(arrow_pointer_tree);
    }
    let ghost e = expr@;
    let span = get_expr_span(&expr);
    let params = mk_inner(JsKind::List, empty_span(), Vec::new());
    let r = mk_inner(JsKind::Arrow, span, vec![params, expr]);
    proof {
        crate::js::lemma_view_nodes(params.children@);
        assert(view_nodes(params.children@) =~= Seq::<JsTree>::empty());
        crate::js::lemma_view_nodes(r.children@);
        assert(view_nodes(r.children@) =~= seq![inner_tree(JsKind::List, dummy_span(), Seq::empty()), e]);
    }
    r
}

/// `this`.
pub fn this_expr() -> (r: JsNode)
    ensures
        r@ == this_tree(),
{
    mk_leaf(JsKind::This, empty_span(), String::new(), false, 0)
}

/// A boolean literal.
pub fn bool_expr(value: bool) -> (r: JsNode)
    ensures
        r@ == bool_tree(value),
{
    mk_leaf(JsKind::Bool, empty_span(), String::new(), value, 0)
}

/// `true`.
pub fn true_expr() -> (r: JsNode)
    ensures
        r@ == bool_tree(true),
{
    bool_expr(true)
}

/// `false`.
pub fn false_expr() -> (r: JsNode)
    ensures
        r@ == bool_tree(false),
{
    bool_expr(false)
}

/// `undefined`.
pub fn undefined_expr() -> (r: JsNode)
    ensures
        r@ == undefined_tree(),
{
    quote_ident("undefined")
}

/// `[]`.
pub fn empty_array_expr() -> (r: JsNode)
    ensures
        r@ == array_tree(Seq::empty()),
{
    proof {
        reveal(array_tree);
    }
    let r = mk_inner(JsKind::Array, empty_span(), Vec::new());
    assert(view_nodes(Seq::<JsNode>::empty()) =~= eos_trees(Seq::<JsTree>::empty()));
    r
}

/// `__filename`.
pub fn filename_expr() -> (r: JsNode)
    ensures
        r@ == filename_tree(),
{
    quote_ident("__filename")
}

/// An array element holding `e`, not spread.
pub fn eos(e: JsNode) -> (r: JsNode)
    ensures
        r@ == eos_tree(e@),
{
    let ghost t = e@;
    let r = mk_inner(JsKind::ExprOrSpread, empty_span(), vec![e]);
    proof {
        crate::js::lemma_view_nodes(r.children@);
        assert(view_nodes(r.children@) =~= seq![t]);
    }
    r
}

/// An array literal of the given expressions, in order.
pub fn array_expr(exprs: Vec<JsNode>) -> (r: JsNode)
    ensures
        r@ == array_tree(view_nodes(exprs@)),
{
    proof {
        reveal(array_tree);
    }
    let ghost s = view_nodes(exprs@);
    proof {
        crate::js::lemma_view_nodes(exprs@);
    }
    let mut exprs = exprs;
    let mut elems: Vec<JsNode> = Vec::new();
    let mut rev: Vec<JsNode> = Vec::new();
    // take the expressions out from the back, then put them back in order
    while exprs.len() > 0
        invariant
            exprs@.len() + rev@.len() == s.len(),
            forall|k: int| 0 <= k < exprs@.len() ==> #[trigger] exprs@[k]@ == s[k],
            forall|k: int| 0 <= k < rev@.len() ==> #[trigger] rev@[k]@ == s[s.len() - 1 - k],
        decreases exprs@.len(),
    {
        let e = exprs.pop().unwrap();
        rev.push(e);
    }
    while rev.len() > 0
        invariant
            elems@.len() + rev@.len() == s.len(),
            forall|k: int| 0 <= k < rev@.len() ==> #[trigger] rev@[k]@ == s[s.len() - 1 - k],
            forall|k: int| 0 <= k < elems@.len() ==> #[trigger] elems@[k]@ == eos_tree(s[k]),
        decreases rev@.len(),
    {
        let e = rev.pop().unwrap();
        elems.push(eos(e));
    }
    let r = mk_inner(JsKind::Array, empty_span(), elems);
    proof {
        crate::js::lemma_view_nodes(elems@);
        assert(elems@.len() == s.len());
        assert forall|k: int| 0 <= k < s.len() implies view_nodes(elems@)[k] == eos_trees(s)[k] by {
            assert(elems@[k]@ == eos_tree(s[k]));
        }
        assert(view_nodes(elems@) =~= eos_trees(s));
    }
    r
}

/// A node the transform makes: no place in the source, no text.
pub open spec fn mk_tree(kind: JsKind, op: Op, flag: bool, children: Seq<JsTree>) -> JsTree {
    JsTree { kind, span: dummy_span(), op, text: Seq::empty(), flag, flag2: false, num: 0, children }
}

/// `left = right`.
pub open spec fn assign_tree(left: JsTree, right: JsTree) -> JsTree {
    mk_tree(JsKind::Assign, Op::Assign(AssignOp::Assign), false, seq![left, right])
}

/// `left op right`.
pub open spec fn bin_tree(op: BinaryOp, left: JsTree, right: JsTree) -> JsTree {
    mk_tree(JsKind::Bin, Op::Bin(op), false, seq![left, right])
}

/// A list of nodes standing in one position.
pub open spec fn list_tree(s: Seq<JsTree>) -> JsTree {
    mk_tree(JsKind::List, Op::NoOp, false, s)
}

/// `obj[e]`.
pub open spec fn computed_member_tree(obj: JsTree, e: JsTree) -> JsTree {
    mk_tree(JsKind::Member, Op::NoOp, false, seq![obj, mk_tree(JsKind::Computed, Op::NoOp, false, seq![e])])
}

/// `callee(...args)`, the arguments given as array elements.
pub open spec fn call_tree(callee: JsTree, args: Seq<JsTree>) -> JsTree {
    mk_tree(JsKind::Call, Op::NoOp, false, seq![callee, list_tree(args)])
}

/// `new callee(...args)`, or `new callee` when there is no argument list.
pub open spec fn new_tree(callee: JsTree, args: Option<Seq<JsTree>>) -> JsTree {
    mk_tree(
        JsKind::New,
        Op::NoOp,
        false,
        seq![
            callee,
            match args {
                Some(a) => list_tree(a),
                None => absent_tree(),
            },
        ],
    )
}

/// `(a, b, ...)`.
pub open spec fn seq_expr_tree(s: Seq<JsTree>) -> JsTree {
    mk_tree(JsKind::SeqExpr, Op::NoOp, false, s)
}

/// `{ ...props }`.
pub open spec fn object_tree(props: Seq<JsTree>) -> JsTree {
    mk_tree(JsKind::Object, Op::NoOp, false, props)
}

/// The property `key: value`.
pub open spec fn kv_tree(key: Seq<char>, value: JsTree) -> JsTree {
    mk_tree(JsKind::PropKeyValue, Op::NoOp, false, seq![ident_tree(key, dummy_span()), value])
}

/// The property `...e` of an object literal.
pub open spec fn spread_prop_tree(e: JsTree) -> JsTree {
    mk_tree(JsKind::Spread, Op::NoOp, false, seq![e])
}

/// The spread argument `...e`.
pub open spec fn spread_arg_tree(e: JsTree) -> JsTree {
    mk_tree(JsKind::ExprOrSpread, Op::NoOp, true, seq![e])
}

/// `() => body`, with no place in the source.
pub open spec fn arrow_expr_tree(body: JsTree) -> JsTree {
    mk_tree(JsKind::Arrow, Op::NoOp, false, seq![list_tree(Seq::empty()), body])
}

/// A node with the given kind, operator, flag and one child.
pub fn mk1(kind: JsKind, op: Op, flag: bool, a: JsNode) -> (r: JsNode)
    ensures
        r@ == mk_tree(kind, op, flag, seq![a@]),
{
    let ghost v = seq![a@];
    let children = vec![a];
    proof {
        crate::js::lemma_view_nodes(children@);
        assert(view_nodes(children@) =~= v);
    }
    mk_node(kind, empty_span(), op, String::new(), flag, false, 0, children)
}

/// A node with the given kind, operator, flag and two children.
pub fn mk2(kind: JsKind, op: Op, flag: bool, a: JsNode, b: JsNode) -> (r: JsNode)
    ensures
        r@ == mk_tree(kind, op, flag, seq![a@, b@]),
{
    let ghost v = seq![a@, b@];
    let children = vec![a, b];
    proof {
        crate::js::lemma_view_nodes(children@);
        assert(view_nodes(children@) =~= v);
    }
    mk_node(kind, empty_span(), op, String::new(), flag, false, 0, children)
}

/// A node with the given kind, operator, flag and children.
pub fn mkv(kind: JsKind, op: Op, flag: bool, children: Vec<JsNode>) -> (r: JsNode)
    ensures
        r@ == mk_tree(kind, op, flag, view_nodes(children@)),
{
    mk_node(kind, empty_span(), op, String::new(), flag, false, 0, children)
}

/// A vector of three nodes and its view.
pub fn vec3(a: JsNode, b: JsNode, c: JsNode) -> (r: Vec<JsNode>)
    ensures
        view_nodes(r@) == seq![a@, b@, c@],
{
    let ghost v = seq![a@, b@, c@];
    let r = vec![a, b, c];
    proof {
        crate::js::lemma_view_nodes(r@);
        assert(view_nodes(r@) =~= v);
    }
    r
}

/// A vector of two nodes and its view.
pub fn vec2(a: JsNode, b: JsNode) -> (r: Vec<JsNode>)
    ensures
        view_nodes(r@) == seq![a@, b@],
{
    let ghost v = seq![a@, b@];
    let r = vec![a, b];
    proof {
        crate::js::lemma_view_nodes(r@);
        assert(view_nodes(r@) =~= v);
    }
    r
}

/// A vector of one node and its view.
pub fn vec1(a: JsNode) -> (r: Vec<JsNode>)
    ensures
        view_nodes(r@) == seq![a@],
{
    let ghost v = seq![a@];
    let r = vec![a];
    proof {
        crate::js::lemma_view_nodes(r@);
        assert(view_nodes(r@) =~= v);
    }
    r
}

/// `left = right`.
pub fn assign_expr(left: JsNode, right: JsNode) -> (r: JsNode)
    ensures
        r@ == assign_tree(left@, right@),
{
    mk2(JsKind::Assign, Op::Assign(AssignOp::Assign), false, left, right)
}

/// `left op right`.
pub fn bin_expr(op: BinaryOp, left: JsNode, right: JsNode) -> (r: JsNode)
    ensures
        r@ == bin_tree(op, left@, right@),
{
    mk2(JsKind::Bin, Op::Bin(op), false, left, right)
}

/// `obj[e]`.
pub fn computed_member_expr(obj: JsNode, e: JsNode) -> (r: JsNode)
    ensures
        r@ == computed_member_tree(obj@, e@),
{
    let c = mk1(JsKind::Computed, Op::NoOp, false, e);
    mk2(JsKind::Member, Op::NoOp, false, obj, c)
}

/// `callee(...args)`.
pub fn call_expr(callee: JsNode, args: Vec<JsNode>) -> (r: JsNode)
    ensures
        r@ == call_tree(callee@, view_nodes(args@)),
{
    let list = mkv(JsKind::List, Op::NoOp, false, args);
    mk2(JsKind::Call, Op::NoOp, false, callee, list)
}

/// `new callee(...args)`.
pub fn new_expr(callee: JsNode, args: Vec<JsNode>) -> (r: JsNode)
    ensures
        r@ == new_tree(callee@, Some(view_nodes(args@))),
{
    let a = mkv(JsKind::List, Op::NoOp, false, args);
    let ghost c = callee@;
    let r = mk2(JsKind::New, Op::NoOp, false, callee, a);
    assert(new_tree(c, Some(view_nodes(args@))).children =~= r@.children);
    r
}

/// `new callee`, with no argument list.
pub fn new_expr_bare(callee: JsNode) -> (r: JsNode)
    ensures
        r@ == new_tree(callee@, None),
{
    let ghost c = callee@;
    let r = mk2(JsKind::New, Op::NoOp, false, callee, crate::js::absent_node());
    assert(new_tree(c, None).children =~= r@.children);
    r
}

/// The property `key: value`.
pub fn kv_prop(key: &str, value: JsNode) -> (r: JsNode)
    ensures
        r@ == kv_tree(key@, value@),
{
    mk2(JsKind::PropKeyValue, Op::NoOp, false, quote_ident(key), value)
}

/// `() => body`.
pub fn arrow_expr(body: JsNode) -> (r: JsNode)
    ensures
        r@ == arrow_expr_tree(body@),
{
    let params = mkv(JsKind::List, Op::NoOp, false, Vec::new());
    proof {
        crate::js::lemma_view_nodes(Seq::<JsNode>::empty());
        assert(view_nodes(Seq::<JsNode>::empty()) =~= Seq::<JsTree>::empty());
    }
    mk2(JsKind::Arrow, Op::NoOp, false, params, body)
}

} // verus!
