//! A stack of lexical scopes that maps each name to the unique id of the
//! variable it names, telling the names a function sees (hoisted
//! declarations included) from those a block has evaluated so far.
use vstd::prelude::*;

use crate::js::{child, lemma_view_nodes, view_nodes, JsKind, JsNode, JsTree, Op, VarDeclKind};
use crate::emit::lemma_node;

verus! {

/// A mapping of names to the unique id of the variable each names; cloning
/// it is cheap.
pub type Names = im::HashMap<String, u32>;

#[verifier::external_type_specification]
#[verifier::external_body]
#[verifier::reject_recursive_types(K)]
#[verifier::reject_recursive_types(V)]
#[verifier::reject_recursive_types(S)]
pub struct ExImHashMap<K, V, S>(im::HashMap<K, V, S>);

/// The mapping that an `im` hash map of names holds.
pub uninterp spec fn name_map(names: im::HashMap<String, u32>) -> Map<Seq<char>, u32>;

/// A mapping of no names.
pub open spec fn no_names() -> Map<Seq<char>, u32> {
    Map::empty()
}

/// `im::HashMap::new`: an empty map.
#[verifier::external_body]
fn map_new() -> (r: Names)
    ensures
        name_map(r) == no_names(),
{
    im::HashMap::new()
}

/// `im::HashMap::update`: a new map that holds what `names` holds, with
/// `name` mapped to `id` (a mapping it had for `name` is overwritten; the
/// argument is left as it was).
#[verifier::external_body]
fn map_update(names: &Names, name: String, id: u32) -> (r: Names)
    ensures
        name_map(r) == name_map(*names).insert(name@, id),
{
    names.update(name, id)
}

/// `im::HashMap::get`, copied out: the id mapped to a key equal to `name`
/// (two names are equal when they have the same characters).
#[verifier::external_body]
fn map_get(names: &Names, name: &String) -> (r: Option<u32>)
    ensures
        r == (if name_map(*names).contains_key(name@) {
            Some(name_map(*names)[name@])
        } else {
            None
        }),
{
    names.get(name).copied()
}

/// `im::HashMap::clone`: a map with the same mappings.
#[verifier::external_body]
fn map_clone(names: &Names) -> (r: Names)
    ensures
        name_map(r) == name_map(*names),
{
    names.clone()
}

/// The names of one scope.
pub struct Scope {
    /// Variables visible at this point in the tree.
    block: Names,
    /// Variables visible at this point, hoisted function declarations and
    /// variable declarations included: declarations found by looking ahead
    /// in the tree.
    function: Names,
}

/// The mathematical value of a [`Scope`].
pub struct ScopeView {
    pub block: Map<Seq<char>, u32>,
    pub function: Map<Seq<char>, u32>,
}

impl View for Scope {
    type V = ScopeView;

    closed spec fn view(&self) -> ScopeView {
        ScopeView { block: name_map(self.block), function: name_map(self.function) }
    }
}

/// A scope with no names.
pub open spec fn empty_scope() -> ScopeView {
    ScopeView { block: Map::empty(), function: Map::empty() }
}

impl Scope {
    fn new() -> (r: Scope)
        ensures
            r@ == empty_scope(),
    {
        Scope { block: map_new(), function: map_new() }
    }

    /// A scope with the same names.
    pub fn clone(&self) -> (r: Scope)
        ensures
            r@ == self@,
    {
        Scope { block: map_clone(&self.block), function: map_clone(&self.function) }
    }
}

/// Which names a lookup or a binding is about.
#[derive(Clone, Copy, Debug, PartialEq, Eq, Structural)]
pub enum Hoist {
    /// Functions see all of the names in their parent scopes.
    Function,
    /// A block sees only the hoisted function declarations and variable
    /// declarations, and what it has evaluated.
    Block,
}

/// The names of a scope that a lookup or binding of the given kind is
/// about.
pub open spec fn names_of(s: ScopeView, hoist: Hoist) -> Map<Seq<char>, u32> {
    if hoist == Hoist::Block {
        s.block
    } else {
        s.function
    }
}

/// The id a name has in the given names, if it has one.
pub open spec fn lookup_in(names: Map<Seq<char>, u32>, name: Seq<char>) -> Option<u32> {
    if names.contains_key(name) {
        Some(names[name])
    } else {
        None
    }
}

/// The scope pushed on top of `parent`: a function scope sees in its block
/// all the names its parent's function sees; a block scope inherits both.
pub open spec fn pushed_scope(parent: ScopeView, hoist: Hoist) -> ScopeView {
    match hoist {
        Hoist::Function => ScopeView { block: parent.function, function: parent.function },
        Hoist::Block => ScopeView { block: parent.block, function: parent.function },
    }
}

/// `s` with `name` mapped to `id` among the names of the given kind.
pub open spec fn updated(s: ScopeView, name: Seq<char>, id: u32, hoist: Hoist) -> ScopeView {
    if hoist == Hoist::Block {
        ScopeView { block: s.block.insert(name, id), ..s }
    } else {
        ScopeView { function: s.function.insert(name, id), ..s }
    }
}

/// `s` after an identifier was bound: a block binding comes into scope in
/// the block, and every binding is visible to the function.
pub open spec fn bound_ident(s: ScopeView, ident: JsTree, hoist: Hoist) -> ScopeView {
    let s1 = if hoist == Hoist::Block {
        updated(s, ident.text, ident.span.ctxt, Hoist::Block)
    } else {
        s
    };
    updated(s1, ident.text, ident.span.ctxt, Hoist::Function)
}

/// `s` after the names of a binding pattern were bound, left to right: an
/// identifier, the names of an object or array pattern, and the left side of
/// a default; a rest pattern binds nothing.
pub open spec fn bound_pat(s: ScopeView, p: JsTree, hoist: Hoist) -> ScopeView
    decreases p,
{
    match p.kind {
        JsKind::BindingIdent => bound_ident(s, p, hoist),
        JsKind::ObjectPat => bound_obj_props(s, p.children, hoist),
        JsKind::ArrayPat => bound_elems(s, p.children, hoist),
        JsKind::AssignPat => if p.children.len() > 0 {
            bound_pat(s, p.children[0], hoist)
        } else {
            s
        },
        _ => s,
    }
}

/// `s` after the elements of an array pattern were bound; holes bind
/// nothing.
pub open spec fn bound_elems(s: ScopeView, elems: Seq<JsTree>, hoist: Hoist) -> ScopeView
    decreases elems,
{
    if elems.len() == 0 {
        s
    } else {
        let s1 = bound_elems(s, elems.subrange(0, elems.len() - 1), hoist);
        let e = elems[elems.len() - 1];
        if e.kind == JsKind::Absent {
            s1
        } else {
            bound_pat(s1, e, hoist)
        }
    }
}

/// `s` after the properties of an object pattern were bound: `{a}` binds
/// `a`, `{k: p}` binds what `p` binds; a rest property binds nothing.
pub open spec fn bound_obj_props(s: ScopeView, props: Seq<JsTree>, hoist: Hoist) -> ScopeView
    decreases props,
{
    if props.len() == 0 {
        s
    } else {
        let s1 = bound_obj_props(s, props.subrange(0, props.len() - 1), hoist);
        let prop = props[props.len() - 1];
        if prop.kind == JsKind::ObjAssignProp && prop.children.len() > 0 {
            bound_ident(s1, prop.children[0], hoist)
        } else if prop.kind == JsKind::ObjKeyValueProp && prop.children.len() > 1 {
            bound_pat(s1, prop.children[1], hoist)
        } else {
            s1
        }
    }
}

/// `s` after a declarator of a declaration of the given kind was bound: a
/// `var` without an initializer is hoisted to the function, anything else
/// comes into scope in the block.
pub open spec fn bound_declarator(s: ScopeView, kind: VarDeclKind, decl: JsTree) -> ScopeView {
    if kind == VarDeclKind::Var && child(decl, 1).kind == JsKind::Absent {
        bound_pat(s, child(decl, 0), Hoist::Function)
    } else {
        bound_pat(s, child(decl, 0), Hoist::Block)
    }
}

/// `s` after the declarators of a declaration were bound, in order.
pub open spec fn bound_declarators(s: ScopeView, kind: VarDeclKind, decls: Seq<JsTree>) -> ScopeView
    decreases decls.len(),
{
    if decls.len() == 0 {
        s
    } else {
        bound_declarator(bound_declarators(s, kind, decls.drop_last()), kind, decls.last())
    }
}

/// `s` after function parameters were bound, in order, in the block.
pub open spec fn bound_params(s: ScopeView, params: Seq<JsTree>) -> ScopeView
    decreases params.len(),
{
    if params.len() == 0 {
        s
    } else {
        bound_pat(bound_params(s, params.drop_last()), params.last(), Hoist::Block)
    }
}

/// `s` after the declarations of one statement were hoisted: the `var`
/// declarators without an initializer, and a function declaration.
pub open spec fn hoisted(s: ScopeView, stmt: JsTree) -> ScopeView {
    if stmt.kind == JsKind::VarDecl && stmt.op == Op::Var(VarDeclKind::Var) {
        hoisted_vars(s, stmt.children)
    } else if stmt.kind == JsKind::FnDecl && stmt.children.len() > 0 {
        bound_ident(s, stmt.children[0], Hoist::Function)
    } else {
        s
    }
}

/// `s` after the declarators without an initializer of a `var`
/// declaration were hoisted, in order.
pub open spec fn hoisted_vars(s: ScopeView, decls: Seq<JsTree>) -> ScopeView
    decreases decls.len(),
{
    if decls.len() == 0 {
        s
    } else {
        let s1 = hoisted_vars(s, decls.drop_last());
        if child(decls.last(), 1).kind == JsKind::Absent {
            bound_declarator(s1, VarDeclKind::Var, decls.last())
        } else {
            s1
        }
    }
}

/// `s` after the declarations of a list of statements were hoisted, in
/// order.
pub open spec fn hoisted_all(s: ScopeView, stmts: Seq<JsTree>) -> ScopeView
    decreases stmts.len(),
{
    if stmts.len() == 0 {
        s
    } else {
        hoisted(hoisted_all(s, stmts.drop_last()), stmts.last())
    }
}

/// After an identifier is bound, looking its name up among the function's
/// names gives its id, and so does a lookup in the block when it was bound
/// in the block; a function binding leaves the block's names as they were
/// (it is not yet evaluated there). The scopes below are untouched.
pub proof fn law_lookup_after_bind(st: Seq<ScopeView>, ident: JsTree, hoist: Hoist)
    requires
        st.len() > 0,
    ensures
        ({
            let st2 = with_top(st, bound_ident(st.last(), ident, hoist));
            &&& st2.len() == st.len()
            &&& st2.drop_last() == st.drop_last()
            &&& lookup_in(names_of(st2.last(), Hoist::Function), ident.text) == Some(ident.span.ctxt)
            &&& hoist == Hoist::Block ==> lookup_in(names_of(st2.last(), Hoist::Block), ident.text) == Some(
                ident.span.ctxt,
            )
            &&& hoist == Hoist::Function ==> names_of(st2.last(), Hoist::Block) == names_of(st.last(), Hoist::Block)
        }),
{
    let st2 = with_top(st, bound_ident(st.last(), ident, hoist));
    assert(st2.drop_last() =~= st.drop_last());
}

/// A binding changes only the given name: every other name keeps its id.
pub proof fn law_bind_keeps_other_names(s: ScopeView, ident: JsTree, hoist: Hoist, name: Seq<char>, h: Hoist)
    requires
        name != ident.text,
    ensures
        lookup_in(names_of(bound_ident(s, ident, hoist), h), name) == lookup_in(names_of(s, h), name),
{
}

/// Pushing a scope and popping it gives back the stack; the pushed scope of
/// a function sees, even in its block, every name its parent's function
/// sees (hoisted declarations included), and a block scope sees what its
/// parent sees.
pub proof fn law_push_pop(st: Seq<ScopeView>, hoist: Hoist)
    requires
        st.len() > 0,
    ensures
        st.push(pushed_scope(st.last(), hoist)).drop_last() == st,
        names_of(pushed_scope(st.last(), hoist), Hoist::Function) == names_of(st.last(), Hoist::Function),
        hoist == Hoist::Function ==> names_of(pushed_scope(st.last(), hoist), Hoist::Block) == names_of(
            st.last(),
            Hoist::Function,
        ),
        hoist == Hoist::Block ==> names_of(pushed_scope(st.last(), hoist), Hoist::Block) == names_of(
            st.last(),
            Hoist::Block,
        ),
{
    assert(st.push(pushed_scope(st.last(), hoist)).drop_last() =~= st);
}

/// A hoisted function declaration is visible by its name to the function
/// that holds it, with the id of its identifier.
pub proof fn law_hoisted_function_visible(s: ScopeView, stmt: JsTree)
    requires
        stmt.kind == JsKind::FnDecl,
        stmt.children.len() > 0,
    ensures
        lookup_in(names_of(hoisted(s, stmt), Hoist::Function), stmt.children[0].text) == Some(
            stmt.children[0].span.ctxt,
        ),
        names_of(hoisted(s, stmt), Hoist::Block) == names_of(s, Hoist::Block),
{
}

/// A stack of scopes; the last one is the current scope.
pub struct LexicalScope {
    stack: Vec<Scope>,
}

impl View for LexicalScope {
    type V = Seq<ScopeView>;

    closed spec fn view(&self) -> Seq<ScopeView> {
        Seq::new(self.stack@.len(), |i: int| self.stack@[i]@)
    }
}

/// The stack with its current scope replaced.
pub open spec fn with_top(st: Seq<ScopeView>, s: ScopeView) -> Seq<ScopeView> {
    st.update(st.len() - 1, s)
}

impl LexicalScope {
    /// A stack that holds one scope with no names.
    pub fn new() -> (r: LexicalScope)
        ensures
            r@ == seq![empty_scope()],
    {
        let r = LexicalScope { stack: vec![Scope::new()] };
        assert(r@ =~= seq![empty_scope()]);
        r
    }

    /// The id of `name` among the names of the given kind of the current
    /// scope; none when the stack is empty.
    pub fn lookup(&self, name: &String, hoist: Hoist) -> (r: Option<u32>)
        ensures
            r == (if self@.len() == 0 {
                None
            } else {
                lookup_in(names_of(self@.last(), hoist), name@)
            }),
    {
        let n = self.stack.len();
        if n == 0 {
            return None;
        }
        let scope = &self.stack[n - 1];
        assert(self@.last() == scope@);
        if hoist == Hoist::Block {
            map_get(&scope.block, name)
        } else {
            map_get(&scope.function, name)
        }
    }

    /// Pushes a scope onto the stack; see [`pushed_scope`]. On an empty
    /// stack the scope has no names.
    pub fn push(&mut self, hoist: Hoist)
        ensures
            final(self)@ == old(self)@.push(
                if old(self)@.len() == 0 {
                    empty_scope()
                } else {
                    pushed_scope(old(self)@.last(), hoist)
                },
            ),
    {
        let n = self.stack.len();
        let scope = if n == 0 {
            Scope::new()
        } else {
            let parent = &self.stack[n - 1];
            assert(old(self)@.last() == parent@);
            match hoist {
                Hoist::Function => Scope { block: map_clone(&parent.function), function: map_clone(&parent.function) },
                Hoist::Block => Scope { function: map_clone(&parent.function), block: map_clone(&parent.block) },
            }
        };
        self.stack.push(scope);
        assert(final(self)@ =~= old(self)@.push(
            if old(self)@.len() == 0 {
                empty_scope()
            } else {
                pushed_scope(old(self)@.last(), hoist)
            },
        ));
    }

    /// Pops the current scope and returns it.
    pub fn pop(&mut self) -> (r: Scope)
        requires
            old(self)@.len() > 0,
        ensures
            r@ == old(self)@.last(),
            final(self)@ == old(self)@.drop_last(),
    {
        let r = self.stack.pop().unwrap();
        assert(final(self)@ =~= old(self)@.drop_last());
        r
    }

    /// The names of the given kind of the current scope.
    pub fn get_names(&self, hoist: Hoist) -> (r: &Names)
        requires
            self@.len() > 0,
        ensures
            name_map(*r) == names_of(self@.last(), hoist),
    {
        let n = self.stack.len();
        let scope = &self.stack[n - 1];
        assert(self@.last() == scope@);
        match hoist {
            Hoist::Block => &scope.block,
            Hoist::Function => &scope.function,
        }
    }

    /// The names of the given kind of the current scope, to change; what
    /// they are changed to is what the current scope then holds.
    pub fn get_names_mut(&mut self, hoist: Hoist) -> (r: &mut Names)
        requires
            old(self)@.len() > 0,
        ensures
            name_map(*r) == names_of(old(self)@.last(), hoist),
            final(self)@ == with_top(
                old(self)@,
                if hoist == Hoist::Block {
                    ScopeView { block: name_map(*final(r)), ..old(self)@.last() }
                } else {
                    ScopeView { function: name_map(*final(r)), ..old(self)@.last() }
                },
            ),
    {
        let n = self.stack.len();
        let scope = &mut self.stack[n - 1];
        match hoist {
            Hoist::Block => &mut scope.block,
            Hoist::Function => &mut scope.function,
        }
    }

    /// Maps `name` to `id` among the names of the given kind of the current
    /// scope.
    pub fn update_name(&mut self, name: String, id: u32, hoist: Hoist)
        requires
            old(self)@.len() > 0,
        ensures
            final(self)@ == with_top(old(self)@, updated(old(self)@.last(), name@, id, hoist)),
    {
        let names = self.get_names_mut(hoist);
        *names = map_update(names, name, id);
        assert(final(self)@ =~= with_top(old(self)@, updated(old(self)@.last(), name@, id, hoist)));
    }

    /// Binds the name of an identifier in the current scope; see
    /// [`bound_ident`].
    pub fn bind_ident(&mut self, ident: &JsNode, hoist: Hoist)
        requires
            old(self)@.len() > 0,
        ensures
            final(self)@ == with_top(old(self)@, bound_ident(old(self)@.last(), ident@, hoist)),
    {
        let id = self.get_unique_id(ident);
        if hoist == Hoist::Block {
            // block identifiers only come into scope when they are evaluated
            self.update_name(ident.text.clone(), id, Hoist::Block);
        }
        // all names are visible in the function scope
        self.update_name(ident.text.clone(), id, Hoist::Function);
        assert(final(self)@ =~= with_top(old(self)@, bound_ident(old(self)@.last(), ident@, hoist)));
    }

    /// The unique id of the variable an identifier names: its syntax
    /// context, which tells apart variables of equal names.
    pub fn get_unique_id(&mut self, ident: &JsNode) -> (r: u32)
        ensures
            r == ident@.span.ctxt,
            final(self)@ == old(self)@,
    {
        ident.span.ctxt
    }
    /// Binds the names a binding pattern introduces in the current scope;
    /// see [`bound_pat`]: `a`, `{b}`, `{d: c}`, `[d]`, `d = v`.
    pub fn bind_pat(&mut self, pat: &JsNode, hoist: Hoist)
        requires
            old(self)@.len() > 0,
        ensures
            final(self)@ == with_top(old(self)@, bound_pat(old(self)@.last(), pat@, hoist)),
        decreases pat, 1int,
    {
        proof {
            lemma_node(*pat);
        }
        match pat.kind {
            // (a, b) => {}
            JsKind::BindingIdent => self.bind_ident(pat, hoist),
            // ({a, b: c}) => {}
            JsKind::ObjectPat => self.bind_obj_props(&pat.children, hoist),
            // ([a, b]) => {}
            JsKind::ArrayPat => self.bind_elems(&pat.children, hoist),
            // (a = value) => {}
            JsKind::AssignPat => {
                if pat.children.len() > 0 {
                    self.bind_pat(&pat.children[0], hoist);
                } else {
                    assert(final(self)@ =~= with_top(old(self)@, old(self)@.last()));
                }
            },
            _ => {
                assert(final(self)@ =~= with_top(old(self)@, old(self)@.last()));
            },
        }
    }

    /// Binds the elements of an array pattern, in order; see
    /// [`bound_elems`].
    fn bind_elems(&mut self, elems: &Vec<JsNode>, hoist: Hoist)
        requires
            old(self)@.len() > 0,
        ensures
            final(self)@ == with_top(old(self)@, bound_elems(old(self)@.last(), view_nodes(elems@), hoist)),
        decreases elems, 0int,
    {
        let ghost vs = view_nodes(elems@);
        let ghost st0 = self@;
        proof {
            lemma_view_nodes(elems@);
            assert(vs.subrange(0, 0) =~= Seq::<JsTree>::empty());
            assert(st0 =~= with_top(st0, st0.last()));
        }
        let mut i: usize = 0;
        while i < elems.len()
            invariant
                i <= elems@.len(),
                vs == view_nodes(elems@),
                vs.len() == elems@.len(),
                forall|k: int| 0 <= k < elems@.len() ==> #[trigger] vs[k] == elems@[k]@,
                st0 == old(self)@,
                st0.len() > 0,
                self@ == with_top(st0, bound_elems(st0.last(), vs.subrange(0, i as int), hoist)),
            decreases elems@.len() - i,
        {
            proof {
                assert(decreases_to!(elems => elems@));
                assert(decreases_to!(elems@ => elems@[i as int]));
                let q = vs.subrange(0, i + 1);
                assert(q.subrange(0, q.len() - 1) =~= vs.subrange(0, i as int));
            }
            let ghost before = self@;
            if elems[i].kind != JsKind::Absent {
                self.bind_pat(&elems[i], hoist);
            }
            proof {
                assert(self@ =~= with_top(st0, bound_elems(st0.last(), vs.subrange(0, i + 1), hoist)));
            }
            i += 1;
        }
        proof {
            assert(vs.subrange(0, i as int) =~= vs);
        }
    }

    /// Binds the properties of an object pattern, in order; see
    /// [`bound_obj_props`].
    fn bind_obj_props(&mut self, props: &Vec<JsNode>, hoist: Hoist)
        requires
            old(self)@.len() > 0,
        ensures
            final(self)@ == with_top(old(self)@, bound_obj_props(old(self)@.last(), view_nodes(props@), hoist)),
        decreases props, 0int,
    {
        let ghost vs = view_nodes(props@);
        let ghost st0 = self@;
        proof {
            lemma_view_nodes(props@);
            assert(vs.subrange(0, 0) =~= Seq::<JsTree>::empty());
            assert(st0 =~= with_top(st0, st0.last()));
        }
        let mut i: usize = 0;
        while i < props.len()
            invariant
                i <= props@.len(),
                vs == view_nodes(props@),
                vs.len() == props@.len(),
                forall|k: int| 0 <= k < props@.len() ==> #[trigger] vs[k] == props@[k]@,
                st0 == old(self)@,
                st0.len() > 0,
                self@ == with_top(st0, bound_obj_props(st0.last(), vs.subrange(0, i as int), hoist)),
            decreases props@.len() - i,
        {
            proof {
                assert(decreases_to!(props => props@));
                assert(decreases_to!(props@ => props@[i as int]));
                let q = vs.subrange(0, i + 1);
                assert(q.subrange(0, q.len() - 1) =~= vs.subrange(0, i as int));
            }
            let prop = &props[i];
            proof {
                lemma_node(*prop);
            }
            if prop.kind == JsKind::ObjAssignProp && prop.children.len() > 0 {
                self.bind_ident(&prop.children[0], hoist);
            } else if prop.kind == JsKind::ObjKeyValueProp && prop.children.len() > 1 {
                proof {
                    assert(decreases_to!(prop => prop.children));
                    assert(decreases_to!(prop.children => prop.children@));
                    assert(decreases_to!(prop.children@ => prop.children@[1]));
                }
                self.bind_pat(&prop.children[1], hoist);
            }
            proof {
                assert(self@ =~= with_top(st0, bound_obj_props(st0.last(), vs.subrange(0, i + 1), hoist)));
            }
            i += 1;
        }
        proof {
            assert(vs.subrange(0, i as int) =~= vs);
        }
    }
    /// Binds the names a declarator introduces; see [`bound_declarator`].
    pub fn bind_var_declarator(&mut self, kind: VarDeclKind, decl: &JsNode)
        requires
            old(self)@.len() > 0,
        ensures
            final(self)@ == with_top(old(self)@, bound_declarator(old(self)@.last(), kind, decl@)),
    {
        proof {
            lemma_node(*decl);
        }
        let no_init = decl.children.len() < 2 || decl.children[1].kind == JsKind::Absent;
        // a hoisted `var x;` is visible to the whole function; `var x = v`,
        // `let x` and `const x = v` come into scope here
        let hoist = if kind == VarDeclKind::Var && no_init {
            Hoist::Function
        } else {
            Hoist::Block
        };
        if decl.children.len() > 0 {
            self.bind_pat(&decl.children[0], hoist);
        } else {
            assert(final(self)@ =~= with_top(old(self)@, old(self)@.last()));
        }
    }

    /// Binds the names the declarators of a declaration introduce, in order.
    pub fn bind_var_decl(&mut self, var: &JsNode)
        requires
            old(self)@.len() > 0,
            var@.op is Var,
        ensures
            final(self)@ == with_top(old(self)@, bound_declarators(old(self)@.last(), var@.op->Var_0, var@.children)),
    {
        proof {
            lemma_node(*var);
        }
        let kind = match var.op {
            Op::Var(k) => k,
            _ => VarDeclKind::Var,
        };
        let ghost vs = var@.children;
        let ghost st0 = self@;
        proof {
            assert(vs.subrange(0, 0) =~= Seq::<JsTree>::empty());
            assert(st0 =~= with_top(st0, st0.last()));
        }
        let mut i: usize = 0;
        while i < var.children.len()
            invariant
                i <= var.children@.len(),
                vs == var@.children,
                vs.len() == var.children@.len(),
                forall|k: int| #![trigger var.children@[k]] 0 <= k < var.children@.len() ==> var.children@[k]@ == vs[k],
                kind == var@.op->Var_0,
                st0 == old(self)@,
                st0.len() > 0,
                self@ == with_top(st0, bound_declarators(st0.last(), kind, vs.subrange(0, i as int))),
            decreases var.children@.len() - i,
        {
            proof {
                let q = vs.subrange(0, i + 1);
                assert(q.drop_last() =~= vs.subrange(0, i as int));
                assert(q.last() == var.children@[i as int]@);
            }
            self.bind_var_declarator(kind, &var.children[i]);
            proof {
                assert(self@ =~= with_top(st0, bound_declarators(st0.last(), kind, vs.subrange(0, i + 1))));
            }
            i += 1;
        }
        proof {
            assert(vs.subrange(0, i as int) =~= vs);
        }
    }

    /// Binds the names function parameters introduce, in order, in the
    /// block.
    pub fn bind_function_params(&mut self, params: &Vec<JsNode>)
        requires
            old(self)@.len() > 0,
        ensures
            final(self)@ == with_top(old(self)@, bound_params(old(self)@.last(), view_nodes(params@))),
    {
        let ghost vs = view_nodes(params@);
        let ghost st0 = self@;
        proof {
            lemma_view_nodes(params@);
            assert(vs.subrange(0, 0) =~= Seq::<JsTree>::empty());
            assert(st0 =~= with_top(st0, st0.last()));
        }
        let mut i: usize = 0;
        while i < params.len()
            invariant
                i <= params@.len(),
                vs == view_nodes(params@),
                vs.len() == params@.len(),
                forall|k: int| 0 <= k < params@.len() ==> #[trigger] vs[k] == params@[k]@,
                st0 == old(self)@,
                st0.len() > 0,
                self@ == with_top(st0, bound_params(st0.last(), vs.subrange(0, i as int))),
            decreases params@.len() - i,
        {
            proof {
                let q = vs.subrange(0, i + 1);
                assert(q.drop_last() =~= vs.subrange(0, i as int));
            }
            self.bind_pat(&params[i], Hoist::Block);
            proof {
                assert(self@ =~= with_top(st0, bound_params(st0.last(), vs.subrange(0, i + 1))));
            }
            i += 1;
        }
        proof {
            assert(vs.subrange(0, i as int) =~= vs);
        }
    }

    /// Hoists the declarations of the statements of a block into the
    /// current scope, in order; see [`hoisted`]: function declarations
    /// (`function foo() {}`) and `var` declarations without an initializer
    /// (`var foo;`). Items that are not statements (module declarations)
    /// hoist nothing.
    pub fn bind_hoisted_functions_and_vars(&mut self, block: &Vec<JsNode>)
        requires
            old(self)@.len() > 0,
        ensures
            final(self)@ == with_top(old(self)@, hoisted_all(old(self)@.last(), view_nodes(block@))),
    {
        let ghost vs = view_nodes(block@);
        let ghost st0 = self@;
        proof {
            lemma_view_nodes(block@);
            assert(vs.subrange(0, 0) =~= Seq::<JsTree>::empty());
            assert(st0 =~= with_top(st0, st0.last()));
        }
        let mut i: usize = 0;
        while i < block.len()
            invariant
                i <= block@.len(),
                vs == view_nodes(block@),
                vs.len() == block@.len(),
                forall|k: int| 0 <= k < block@.len() ==> #[trigger] vs[k] == block@[k]@,
                st0 == old(self)@,
                st0.len() > 0,
                self@ == with_top(st0, hoisted_all(st0.last(), vs.subrange(0, i as int))),
            decreases block@.len() - i,
        {
            proof {
                let q = vs.subrange(0, i + 1);
                assert(q.drop_last() =~= vs.subrange(0, i as int));
            }
            self.hoist_stmt(&block[i]);
            proof {
                assert(self@ =~= with_top(st0, hoisted_all(st0.last(), vs.subrange(0, i + 1))));
            }
            i += 1;
        }
        proof {
            assert(vs.subrange(0, i as int) =~= vs);
        }
    }

    /// Hoists the declarations of one statement; see [`hoisted`].
    fn hoist_stmt(&mut self, stmt: &JsNode)
        requires
            old(self)@.len() > 0,
        ensures
            final(self)@ == with_top(old(self)@, hoisted(old(self)@.last(), stmt@)),
    {
        proof {
            lemma_node(*stmt);
        }
        if stmt.kind == JsKind::VarDecl && stmt.op == Op::Var(VarDeclKind::Var) {
            let ghost vs = stmt@.children;
            let ghost st0 = self@;
            proof {
                assert(vs.subrange(0, 0) =~= Seq::<JsTree>::empty());
                assert(st0 =~= with_top(st0, st0.last()));
            }
            let mut i: usize = 0;
            while i < stmt.children.len()
                invariant
                    i <= stmt.children@.len(),
                    vs == stmt@.children,
                    vs.len() == stmt.children@.len(),
                    forall|k: int| #![trigger stmt.children@[k]] 0 <= k < stmt.children@.len() ==> stmt.children@[k]@ == vs[k],
                    st0 == old(self)@,
                    st0.len() > 0,
                    self@ == with_top(st0, hoisted_vars(st0.last(), vs.subrange(0, i as int))),
                decreases stmt.children@.len() - i,
            {
                let decl = &stmt.children[i];
                proof {
                    let q = vs.subrange(0, i + 1);
                    assert(q.drop_last() =~= vs.subrange(0, i as int));
                    assert(q.last() == decl@);
                    lemma_node(*decl);
                }
                if decl.children.len() < 2 || decl.children[1].kind == JsKind::Absent {
                    self.bind_var_declarator(VarDeclKind::Var, decl);
                }
                proof {
                    assert(self@ =~= with_top(st0, hoisted_vars(st0.last(), vs.subrange(0, i + 1))));
                }
                i += 1;
            }
            proof {
                assert(vs.subrange(0, i as int) =~= vs);
            }
        } else if stmt.kind == JsKind::FnDecl && stmt.children.len() > 0 {
            self.bind_ident(&stmt.children[0], Hoist::Function);
        } else {
            assert(final(self)@ =~= with_top(old(self)@, old(self)@.last()));
        }
    }
}

} // verus!
