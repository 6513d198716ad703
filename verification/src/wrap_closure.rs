//! Wrapping a closure in a call that hands the runtime the closure together
//! with its metadata: `global.wrapClosure(closure, () => ({ __filename,
//! free: [{ name: x }, ..] }))`.
use vstd::prelude::*;

use crate::js::{dummy_span, lemma_view_nodes, lemma_view_nodes_push, view_nodes, JsKind, JsNode, JsTree, Op};
use crate::js_util::{
    array_expr, array_tree, arrow_expr, arrow_expr_tree, call_expr, call_tree, eos, eos_tree, ident_tree, kv_prop,
    kv_tree, mk_tree, mkv, object_tree, prop_access_expr, prop_access_tree, quote_ident, vec1, vec2,
};
use crate::lexical_scope::{empty_scope, LexicalScope};

verus! {

/// The shorthand property `{ name }`.
pub open spec fn short_hand_prop_tree(name: Seq<char>) -> JsTree {
    mk_tree(JsKind::PropShorthand, Op::NoOp, false, seq![ident_tree(name, dummy_span())])
}

/// The objects `{ name: x }` of the free variables, in order.
pub open spec fn free_variable_trees(names: Seq<Seq<char>>) -> Seq<JsTree> {
    names.map_values(|n: Seq<char>| object_tree(seq![kv_tree("name"@, ident_tree(n, dummy_span()))]))
}

/// `global.wrapClosure(expr, () => ({ __filename, free: [{ name: x }, ..] }))`.
pub open spec fn wrap_closure_call_tree(expr: JsTree, names: Seq<Seq<char>>) -> JsTree {
    let metadata = object_tree(
        seq![short_hand_prop_tree("__filename"@), kv_tree("free"@, array_tree(free_variable_trees(names)))],
    );
    call_tree(
        prop_access_tree(ident_tree("global"@, dummy_span()), "wrapClosure"@),
        seq![eos_tree(expr), eos_tree(arrow_expr_tree(metadata))],
    )
}

/// An object literal of the given properties.
pub fn create_object_lit(props: Vec<JsNode>) -> (r: JsNode)
    ensures
        r@ == object_tree(view_nodes(props@)),
{
    mkv(JsKind::Object, Op::NoOp, false, props)
}

/// The shorthand property `{ name }`.
pub fn create_short_hand_prop(name: &str) -> (r: JsNode)
    ensures
        r@ == short_hand_prop_tree(name@),
{
    let ident = quote_ident(name);
    let ghost i = ident@;
    let r = mkv(JsKind::PropShorthand, Op::NoOp, false, vec1(ident));
    assert(view_nodes(r.children@) =~= seq![i]);
    r
}

/// The property `key: value`.
pub fn create_prop(key: &str, value: JsNode) -> (r: JsNode)
    ensures
        r@ == kv_tree(key@, value@),
{
    kv_prop(key, value)
}

/// An array literal of the given expressions, in order.
pub fn create_array(items: Vec<JsNode>) -> (r: JsNode)
    ensures
        r@ == array_tree(view_nodes(items@)),
{
    array_expr(items)
}

/// Wraps a closure with the names of its free variables; see
/// [`wrap_closure_call_tree`].
pub fn wrap_closure_call(expr: JsNode, free_variables: &Vec<String>) -> (r: JsNode)
    ensures
        r@ == wrap_closure_call_tree(expr@, free_variables@.map_values(|s: String| s@)),
{
    let ghost names = free_variables@.map_values(|s: String| s@);
    let ghost objs = free_variable_trees(names);
    proof {
        reveal_strlit("name");
        lemma_view_nodes(Seq::<JsNode>::empty());
        assert(view_nodes(Seq::<JsNode>::empty()) =~= objs.subrange(0, 0));
    }
    let mut items: Vec<JsNode> = Vec::new();
    let mut i: usize = 0;
    while i < free_variables.len()
        invariant
            i <= free_variables@.len(),
            names == free_variables@.map_values(|s: String| s@),
            objs == free_variable_trees(names),
            view_nodes(items@) == objs.subrange(0, i as int),
        decreases free_variables@.len() - i,
    {
        let name = quote_ident(free_variables[i].as_str());
        let obj = create_object_lit(vec1(create_prop("name", name)));
        proof {
            lemma_view_nodes_push(items@, obj);
            assert(objs.subrange(0, i + 1) =~= objs.subrange(0, i as int).push(objs[i as int]));
            assert(obj@.children =~= seq![kv_tree("name"@, ident_tree(names[i as int], dummy_span()))]);
        }
        items.push(obj);
        i += 1;
    }
    proof {
        assert(objs.subrange(0, i as int) =~= objs);
    }
    let free = create_prop("free", create_array(items));
    let metadata = create_object_lit(vec2(create_short_hand_prop("__filename"), free));
    let callee = prop_access_expr(quote_ident("global"), quote_ident("wrapClosure"));
    call_expr(callee, vec2(eos(expr), eos(arrow_expr(metadata))))
}

/// The transform that wraps closures, with the lexical scope of the point
/// of the tree it has reached.
pub struct WrapClosure {
    pub stack: LexicalScope,
}

impl WrapClosure {
    /// A transform at the top of a module: one scope with no names.
    pub fn new() -> (r: WrapClosure)
        ensures
            r.stack@ == seq![empty_scope()],
    {
        WrapClosure { stack: LexicalScope::new() }
    }
}

} // verus!
