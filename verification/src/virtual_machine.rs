//! Tracks which names are visible at each point of a walk over the tree.
use vstd::prelude::*;

use crate::js::{absent_tree, child, group_js_node, lemma_view_nodes, view_nodes, well_formed, JsKind, JsNode, JsTree};

verus! {

broadcast use group_js_node;

/// A name together with its syntax context: it identifies one variable.
pub type Id = (String, u32);

/// The mathematical value of an [`Id`].
pub type IdView = (Seq<char>, u32);

/// The set of names visible in one scope; cloning it is cheap.
pub type Names = im::HashSet<Id>;

#[verifier::external_type_specification]
#[verifier::external_body]
#[verifier::reject_recursive_types(A)]
#[verifier::reject_recursive_types(S)]
pub struct ExImHashSet<A, S>(im::HashSet<A, S>);

/// The identifiers that an `im` hash set of names holds.
pub uninterp spec fn names_contents(names: im::HashSet<(String, u32)>) -> Set<(Seq<char>, u32)>;

/// `im::HashSet::new`: an empty set.
#[verifier::external_body]
fn names_new() -> (r: Names)
    ensures
        names_contents(r) == Set::<IdView>::empty(),
{
    im::HashSet::new()
}

/// `im::HashSet::update`: a new set that holds what `names` holds and `id`
/// (the argument is left as it was).
#[verifier::external_body]
fn names_update(names: &Names, id: Id) -> (r: Names)
    ensures
        names_contents(r) == names_contents(*names).insert((id.0@, id.1)),
{
    names.update(id)
}

/// `im::HashSet::contains`: whether an element equal to `id` is in the set;
/// two ids are equal when their names have the same characters and their
/// contexts are equal.
#[verifier::external_body]
fn names_contains(names: &Names, id: &Id) -> (r: bool)
    ensures
        r == names_contents(*names).contains((id.0@, id.1)),
{
    names.contains(id)
}

/// `im::HashSet::clone`: a set with the same elements.
#[verifier::external_body]
fn names_clone(names: &Names) -> (r: Names)
    ensures
        names_contents(r) == names_contents(*names),
{
    names.clone()
}

/// The id of an identifier node: its name and its syntax context.
pub open spec fn tree_id(t: JsTree) -> IdView {
    (t.text, t.span.ctxt)
}

/// The id of an identifier node.
pub fn to_id(ident: &JsNode) -> (r: Id)
    ensures
        (r.0@, r.1) == tree_id(ident@),
{
    (ident.text.clone(), ident.span.ctxt)
}

/// The ids that a binding pattern introduces.
pub open spec fn pat_ids(p: JsTree) -> Set<IdView>
    decreases p,
{
    match p.kind {
        JsKind::BindingIdent => set![tree_id(p)],
        JsKind::ObjectPat => obj_props_ids(p.children),
        JsKind::ArrayPat => pats_ids(p.children),
        JsKind::AssignPat | JsKind::RestPat => if p.children.len() > 0 {
            pat_ids(p.children[0])
        } else {
            Set::empty()
        },
        _ => Set::empty(),
    }
}

/// The ids that a sequence of patterns introduces; absent elements
/// introduce none.
pub open spec fn pats_ids(s: Seq<JsTree>) -> Set<IdView>
    decreases s,
{
    if s.len() == 0 {
        Set::empty()
    } else {
        pats_ids(s.subrange(0, s.len() - 1)).union(pat_ids(s[s.len() - 1]))
    }
}

/// The ids that the properties of an object pattern introduce.
pub open spec fn obj_props_ids(s: Seq<JsTree>) -> Set<IdView>
    decreases s,
{
    if s.len() == 0 {
        Set::empty()
    } else {
        obj_props_ids(s.subrange(0, s.len() - 1)).union(obj_prop_ids(s[s.len() - 1]))
    }
}

/// The ids that one property of an object pattern introduces.
pub open spec fn obj_prop_ids(prop: JsTree) -> Set<IdView>
    decreases prop,
{
    match prop.kind {
        JsKind::ObjAssignProp => if prop.children.len() > 0 {
            set![tree_id(prop.children[0])]
        } else {
            Set::empty()
        },
        JsKind::ObjKeyValueProp => if prop.children.len() > 1 {
            pat_ids(prop.children[1])
        } else {
            Set::empty()
        },
        JsKind::ObjRestProp => if prop.children.len() > 0 {
            pat_ids(prop.children[0])
        } else {
            Set::empty()
        },
        _ => Set::empty(),
    }
}

/// The ids that a parameter introduces.
pub open spec fn param_ids(p: JsTree) -> Set<IdView> {
    pat_ids(child(p, 0))
}

/// The ids that a sequence of parameters introduces.
pub open spec fn params_ids(s: Seq<JsTree>) -> Set<IdView>
    decreases s.len(),
{
    if s.len() == 0 {
        Set::empty()
    } else {
        params_ids(s.drop_last()).union(param_ids(s.last()))
    }
}

/// The ids that a constructor parameter introduces.
pub open spec fn ctor_param_ids(p: JsTree) -> Set<IdView> {
    match p.kind {
        JsKind::Param => pat_ids(child(p, 0)),
        JsKind::TsParamProp => {
            let inner = child(p, 0);
            if inner.kind == JsKind::AssignPat {
                pat_ids(child(inner, 0))
            } else {
                set![tree_id(inner)]
            }
        },
        _ => Set::empty(),
    }
}

/// The ids that the parameters of a constructor introduce.
pub open spec fn ctor_params_ids(s: Seq<JsTree>) -> Set<IdView>
    decreases s.len(),
{
    if s.len() == 0 {
        Set::empty()
    } else {
        ctor_params_ids(s.drop_last()).union(ctor_param_ids(s.last()))
    }
}

/// The ids that the declarators of a variable declaration introduce.
pub open spec fn declarators_ids(s: Seq<JsTree>) -> Set<IdView>
    decreases s.len(),
{
    if s.len() == 0 {
        Set::empty()
    } else {
        declarators_ids(s.drop_last()).union(pat_ids(child(s.last(), 0)))
    }
}

/// The ids that a statement declares in the scope that holds it: classes,
/// variables and functions.
pub open spec fn stmt_ids(s: JsTree) -> Set<IdView> {
    match s.kind {
        JsKind::ClassDecl | JsKind::FnDecl => set![tree_id(child(s, 0))],
        JsKind::VarDecl => declarators_ids(s.children),
        _ => Set::empty(),
    }
}

/// The ids that a sequence of statements declares.
pub open spec fn stmts_ids(s: Seq<JsTree>) -> Set<IdView>
    decreases s.len(),
{
    if s.len() == 0 {
        Set::empty()
    } else {
        stmts_ids(s.drop_last()).union(stmt_ids(s.last()))
    }
}

/// The id of the first child of a node, as a set; empty when there is no
/// child.
pub open spec fn first_child_ids(t: JsTree) -> Set<IdView> {
    if t.children.len() > 0 {
        set![tree_id(t.children[0])]
    } else {
        Set::empty()
    }
}

/// The ids that an import declaration binds: the local names of its
/// specifiers.
pub open spec fn specifiers_ids(s: Seq<JsTree>) -> Set<IdView>
    decreases s.len(),
{
    if s.len() == 0 {
        Set::empty()
    } else {
        specifiers_ids(s.drop_last()).union(first_child_ids(s.last()))
    }
}

/// The ids that a module declaration binds.
pub open spec fn module_decl_ids(d: JsTree) -> Set<IdView> {
    if d.kind == JsKind::ImportDecl {
        specifiers_ids(d.children)
    } else {
        Set::empty()
    }
}

/// Whether a module item is a module declaration rather than a statement.
pub open spec fn is_module_decl(k: JsKind) -> bool {
    k == JsKind::ImportDecl || k == JsKind::ExportDecl || k == JsKind::ExportDefaultExpr
        || k == JsKind::ExportDefaultDecl || k == JsKind::OpaqueModuleDecl
}

/// The ids that a module item binds.
pub open spec fn module_item_ids(item: JsTree) -> Set<IdView> {
    if is_module_decl(item.kind) {
        module_decl_ids(item)
    } else {
        stmt_ids(item)
    }
}

/// The ids that a sequence of module items binds.
pub open spec fn module_items_ids(s: Seq<JsTree>) -> Set<IdView>
    decreases s.len(),
{
    if s.len() == 0 {
        Set::empty()
    } else {
        module_items_ids(s.drop_last()).union(module_item_ids(s.last()))
    }
}

/// A stack of scopes; the last one holds the names visible now.
pub struct VirtualMachine {
    pub stack: Vec<Names>,
}

impl View for VirtualMachine {
    type V = Seq<Set<IdView>>;

    open spec fn view(&self) -> Seq<Set<IdView>> {
        Seq::new(self.stack@.len(), |i: int| names_contents(self.stack@[i]))
    }
}

/// The stack after `ids` were bound in its last scope.
pub open spec fn bound(vm: Seq<Set<IdView>>, ids: Set<IdView>) -> Seq<Set<IdView>> {
    vm.update(vm.len() - 1, vm.last().union(ids))
}

/// The stack after a new scope was entered: the new scope sees what the one
/// below it sees.
pub open spec fn entered(vm: Seq<Set<IdView>>) -> Seq<Set<IdView>> {
    vm.push(if vm.len() > 0 { vm.last() } else { Set::empty() })
}

/// Binding nothing leaves the stack as it was.
pub proof fn lemma_bound_empty(vm: Seq<Set<IdView>>)
    requires
        vm.len() > 0,
    ensures
        bound(vm, Set::empty()) == vm,
{
    assert(vm.last().union(Set::empty()) =~= vm.last());
    assert(bound(vm, Set::empty()) =~= vm);
}

/// Binding `a` and then `b` binds their union.
pub proof fn lemma_bound_bound(vm: Seq<Set<IdView>>, a: Set<IdView>, b: Set<IdView>)
    requires
        vm.len() > 0,
    ensures
        bound(bound(vm, a), b) == bound(vm, a.union(b)),
        bound(vm, a).len() == vm.len(),
{
    assert(vm.last().union(a).union(b) =~= vm.last().union(a.union(b)));
    assert(bound(bound(vm, a), b) =~= bound(vm, a.union(b)));
}

/// Entering a scope, binding `ids` in it and leaving it gives back the stack
/// as it was; inside, the names visible are those visible before and `ids`.
pub proof fn lemma_enter_bind_exit(vm: Seq<Set<IdView>>, ids: Set<IdView>)
    requires
        vm.len() > 0,
    ensures
        bound(entered(vm), ids).len() == vm.len() + 1,
        bound(entered(vm), ids).last() == vm.last().union(ids),
        bound(entered(vm), ids).drop_last() == vm,
        entered(vm).len() == vm.len() + 1,
        entered(vm).last() == vm.last(),
        entered(vm).drop_last() == vm,
{
    assert(bound(entered(vm), ids).drop_last() =~= vm);
    assert(entered(vm).drop_last() =~= vm);
}

/// After an id is bound, it is visible in the current scope, every name that
/// was visible stays visible, and the scopes below are untouched.
pub proof fn law_bind_then_lookup(vm: Seq<Set<IdView>>, id: IdView)
    requires
        vm.len() > 0,
    ensures
        bound(vm, set![id]).len() == vm.len(),
        bound(vm, set![id]).last().contains(id),
        forall|x: IdView| vm.last().contains(x) ==> bound(vm, set![id]).last().contains(x),
        forall|x: IdView| bound(vm, set![id]).last().contains(x) ==> x == id || vm.last().contains(x),
        bound(vm, set![id]).drop_last() == vm.drop_last(),
{
    assert(bound(vm, set![id]).drop_last() =~= vm.drop_last());
}

/// Binding the object pattern `{ key: pat }` binds exactly what `pat`
/// binds, never the key: after `const { a: b } = o` the scope sees `b` and,
/// unless it saw it already, not `a`.
pub proof fn law_key_value_binds_the_value(vm: Seq<Set<IdView>>, p: JsTree)
    requires
        vm.len() > 0,
        p.kind == JsKind::ObjectPat,
        p.children.len() == 1,
        p.children[0].kind == JsKind::ObjKeyValueProp,
        p.children[0].children.len() == 2,
    ensures
        pat_ids(p) == pat_ids(p.children[0].children[1]),
        p.children[0].children[1].kind == JsKind::BindingIdent ==> pat_ids(p) == set![tree_id(p.children[0].children[1])],
        p.children[0].children[1].kind == JsKind::BindingIdent ==> bound(vm, pat_ids(p)).last().contains(
            tree_id(p.children[0].children[1]),
        ),
        (p.children[0].children[1].kind == JsKind::BindingIdent && tree_id(p.children[0].children[0]) != tree_id(
            p.children[0].children[1],
        ) && !vm.last().contains(tree_id(p.children[0].children[0]))) ==> !bound(vm, pat_ids(p)).last().contains(
            tree_id(p.children[0].children[0]),
        ),
{
    let s = p.children;
    assert(s.subrange(0, 0) =~= Seq::<JsTree>::empty());
    assert(obj_props_ids(s) == obj_props_ids(s.subrange(0, 0)).union(obj_prop_ids(s[0])));
    assert(obj_props_ids(s.subrange(0, 0)) == Set::<IdView>::empty());
    assert(pat_ids(p) =~= pat_ids(p.children[0].children[1]));
}

impl VirtualMachine {
    pub fn new() -> (r: VirtualMachine)
        ensures
            r@ == seq![Set::<IdView>::empty()],
    {
        let mut stack: Vec<Names> = Vec::new();
        stack.push(names_new());
        let r = VirtualMachine { stack };
        assert(r@ =~= seq![Set::<IdView>::empty()]);
        r
    }

    /// A stack with the same scopes (each copied in constant time).
    pub fn clone(&self) -> (r: VirtualMachine)
        ensures
            r@ == self@,
    {
        let mut stack: Vec<Names> = Vec::new();
        let mut i: usize = 0;
        while i < self.stack.len()
            invariant
                i <= self.stack@.len(),
                stack@.len() == i,
                forall|k: int| 0 <= k < i ==> names_contents(#[trigger] stack@[k]) == names_contents(self.stack@[k]),
            decreases self.stack@.len() - i,
        {
            stack.push(names_clone(&self.stack[i]));
            i += 1;
        }
        let r = VirtualMachine { stack };
        assert(r@ =~= self@);
        r
    }

    /// Whether the identifier names a variable visible in the current scope.
    pub fn is_id_visible(&self, ident: &JsNode) -> (r: bool)
        ensures
            r == (self@.len() > 0 && self@.last().contains(tree_id(ident@))),
    {
        self.lookup_id(to_id(ident))
    }

    /// Whether `id` is visible in the current scope.
    pub fn lookup_id(&self, id: Id) -> (r: bool)
        ensures
            r == (self@.len() > 0 && self@.last().contains((id.0@, id.1))),
    {
        let n = self.stack.len();
        if n == 0 {
            false
        } else {
            names_contains(&self.stack[n - 1], &id)
        }
    }

    /// Pushes a new scope that inherits the names of the current one.
    pub fn enter(&mut self)
        ensures
            final(self)@ == entered(old(self)@),
    {
        let n = self.stack.len();
        let names = if n == 0 {
            names_new()
        } else {
            names_clone(&self.stack[n - 1])
        };
        self.stack.push(names);
        assert(final(self)@ =~= entered(old(self)@));
    }

    /// Pops the current scope and returns it.
    pub fn exit(&mut self) -> (r: Names)
        requires
            old(self)@.len() > 0,
        ensures
            final(self)@ == old(self)@.drop_last(),
            names_contents(r) == old(self)@.last(),
    {
        let r = self.stack.pop().unwrap();
        assert(final(self)@ =~= old(self)@.drop_last());
        r
    }

    /// Makes `id` visible in the current scope.
    pub fn bind_id(&mut self, id: Id)
        requires
            old(self)@.len() > 0,
        ensures
            final(self)@ == bound(old(self)@, set![(id.0@, id.1)]),
    {
        let n = self.stack.len();
        let names = names_update(&self.stack[n - 1], id);
        self.stack.set(n - 1, names);
        assert(old(self)@.last().insert((id.0@, id.1)) =~= old(self)@.last().union(
            set![(id.0@, id.1)],
        ));
        assert(final(self)@ =~= bound(old(self)@, set![(id.0@, id.1)]));
    }

    /// Makes an identifier visible in the current scope.
    pub fn bind_ident(&mut self, ident: &JsNode)
        requires
            old(self)@.len() > 0,
        ensures
            final(self)@ == bound(old(self)@, set![tree_id(ident@)]),
    {
        self.bind_id(to_id(ident));
    }

    /// Binds the names that the items of a module declare or import.
    #[verifier::loop_isolation(false)]
    pub fn bind_module_items(&mut self, items: &Vec<JsNode>)
        requires
            old(self)@.len() > 0,
            forall|k: int| 0 <= k < items@.len() ==> well_formed(#[trigger] items@[k]@),
        ensures
            final(self)@ == bound(old(self)@, module_items_ids(view_nodes(items@))),
    {
        let ghost s = view_nodes(items@);
        let mut i: usize = 0;
        proof {
            lemma_bound_empty(old(self)@);
        }
        while i < items.len()
            invariant
                i <= items.len(),
                self@ == bound(old(self)@, module_items_ids(s.take(i as int))),
            decreases items.len() - i,
        {
            let item = &items[i];
            proof {
                lemma_view_nodes(items@);
            }
            match item.kind {
                JsKind::ImportDecl | JsKind::ExportDecl | JsKind::ExportDefaultExpr
                | JsKind::ExportDefaultDecl | JsKind::OpaqueModuleDecl => self.bind_module_decl(item),
                _ => self.bind_stmt(item),
            }
            proof {
                lemma_bound_bound(old(self)@, module_items_ids(s.take(i as int)), module_item_ids(s[i as int]));
                assert(s.take(i + 1).drop_last() =~= s.take(i as int));
            }
            i += 1;
        }
        assert(s.take(i as int) =~= s);
    }

    /// Binds the local names of an import declaration.
    #[verifier::loop_isolation(false)]
    pub fn bind_module_decl(&mut self, decl: &JsNode)
        requires
            old(self)@.len() > 0,
        ensures
            final(self)@ == bound(old(self)@, module_decl_ids(decl@)),
    {
        proof {
            lemma_bound_empty(old(self)@);
        }
        if decl.kind == JsKind::ImportDecl {
            let ghost s = view_nodes(decl.children@);
            let mut i: usize = 0;
            while i < decl.children.len()
                invariant
                    i <= decl.children.len(),
                    self@ == bound(old(self)@, specifiers_ids(s.take(i as int))),
                decreases decl.children.len() - i,
            {
                let specifier = &decl.children[i];
                proof {
                    lemma_bound_bound(old(self)@, specifiers_ids(s.take(i as int)), Set::empty());
                }
                assert(s[i as int] == specifier@);
                if specifier.children.len() > 0 {
                    assert(specifier.children@[0]@ == specifier@.children[0]);
                    self.bind_ident(&specifier.children[0]);
                } else {
                    proof {
                        lemma_bound_empty(self@);
                    }
                }
                proof {
                    lemma_bound_bound(old(self)@, specifiers_ids(s.take(i as int)), first_child_ids(s[i as int]));
                    assert(s.take(i + 1).drop_last() =~= s.take(i as int));
                }
                i += 1;
            }
            assert(s.take(i as int) =~= s);
        }
    }

    /// Binds the names that the statements of a block declare.
    pub fn bind_block(&mut self, block: &JsNode)
        requires
            old(self)@.len() > 0,
            well_formed(block@),
        ensures
            final(self)@ == bound(old(self)@, stmts_ids(block@.children)),
    {
        self.bind_stmts(&block.children);
    }

    /// Binds the names that a sequence of statements declares.
    #[verifier::loop_isolation(false)]
    pub fn bind_stmts(&mut self, stmts: &Vec<JsNode>)
        requires
            old(self)@.len() > 0,
            forall|k: int| 0 <= k < stmts@.len() ==> well_formed(#[trigger] stmts@[k]@),
        ensures
            final(self)@ == bound(old(self)@, stmts_ids(view_nodes(stmts@))),
    {
        let ghost s = view_nodes(stmts@);
        let mut i: usize = 0;
        proof {
            lemma_bound_empty(old(self)@);
        }
        while i < stmts.len()
            invariant
                i <= stmts.len(),
                self@ == bound(old(self)@, stmts_ids(s.take(i as int))),
            decreases stmts.len() - i,
        {
            proof {
                lemma_view_nodes(stmts@);
            }
            self.bind_stmt(&stmts[i]);
            proof {
                lemma_bound_bound(old(self)@, stmts_ids(s.take(i as int)), stmt_ids(s[i as int]));
                assert(s.take(i + 1).drop_last() =~= s.take(i as int));
            }
            i += 1;
        }
        assert(s.take(i as int) =~= s);
    }

    fn bind_stmt(&mut self, stmt: &JsNode)
        requires
            old(self)@.len() > 0,
            well_formed(stmt@),
        ensures
            final(self)@ == bound(old(self)@, stmt_ids(stmt@)),
    {
        proof {
            reveal(well_formed);
        }
        match stmt.kind {
            JsKind::ClassDecl => self.bind_class_decl(stmt),
            JsKind::VarDecl => self.bind_var_decl(stmt),
            JsKind::FnDecl => self.bind_ident(&stmt.children[0]),
            _ => {
                proof {
                    lemma_bound_empty(old(self)@);
                }
            },
        }
    }

    /// Binds the name of a class declaration.
    pub fn bind_class_decl(&mut self, class_decl: &JsNode)
        requires
            old(self)@.len() > 0,
            well_formed(class_decl@),
            class_decl@.kind == JsKind::ClassDecl,
        ensures
            final(self)@ == bound(old(self)@, set![tree_id(class_decl@.children[0])]),
    {
        proof {
            reveal(well_formed);
        }
        self.bind_ident(&class_decl.children[0]);
    }

    /// Binds the names that the declarators of a variable declaration
    /// introduce.
    #[verifier::loop_isolation(false)]
    pub fn bind_var_decl(&mut self, var: &JsNode)
        requires
            old(self)@.len() > 0,
            well_formed(var@),
        ensures
            final(self)@ == bound(old(self)@, declarators_ids(var@.children)),
    {
        let ghost s = var@.children;
        let mut i: usize = 0;
        proof {
            lemma_bound_empty(old(self)@);
        }
        while i < var.children.len()
            invariant
                i <= var.children.len(),
                self@ == bound(old(self)@, declarators_ids(s.take(i as int))),
            decreases var.children.len() - i,
        {
            self.bind_var_declarator(&var.children[i]);
            proof {
                lemma_bound_bound(old(self)@, declarators_ids(s.take(i as int)), pat_ids(child(s[i as int], 0)));
                assert(s.take(i + 1).drop_last() =~= s.take(i as int));
            }
            i += 1;
        }
        assert(s.take(i as int) =~= s);
    }

    /// Binds the names that a declarator introduces.
    pub fn bind_var_declarator(&mut self, decl: &JsNode)
        requires
            old(self)@.len() > 0,
            well_formed(decl@),
        ensures
            final(self)@ == bound(old(self)@, pat_ids(child(decl@, 0))),
    {
        if decl.children.len() > 0 {
            self.bind_pat(&decl.children[0]);
        } else {
            proof {
                lemma_bound_empty(old(self)@);
                assert(pat_ids(absent_tree()) == Set::<IdView>::empty());
            }
        }
    }

    /// Binds the names that the parameters of a constructor introduce.
    #[verifier::loop_isolation(false)]
    pub fn bind_constructor_params(&mut self, params: &Vec<JsNode>)
        requires
            old(self)@.len() > 0,
            forall|k: int| 0 <= k < params@.len() ==> well_formed(#[trigger] params@[k]@),
        ensures
            final(self)@ == bound(old(self)@, ctor_params_ids(view_nodes(params@))),
    {
        proof {
            reveal(well_formed);
        }
        let ghost s = view_nodes(params@);
        let mut i: usize = 0;
        proof {
            lemma_bound_empty(old(self)@);
        }
        while i < params.len()
            invariant
                i <= params.len(),
                self@ == bound(old(self)@, ctor_params_ids(s.take(i as int))),
            decreases params.len() - i,
        {
            let param = &params[i];
            proof {
                lemma_view_nodes(params@);
                lemma_bound_bound(old(self)@, ctor_params_ids(s.take(i as int)), Set::empty());
            }
            assert(well_formed(params@[i as int]@));
            assert(s[i as int] == param@);
            match param.kind {
                JsKind::Param => {
                    assert(param.children@[0]@ == param@.children[0]);
                    self.bind_pat(&param.children[0]);
                },
                JsKind::TsParamProp => {
                    let inner = &param.children[0];
                    assert(inner@ == param@.children[0]);
                    if inner.kind == JsKind::AssignPat {
                        self.bind_assign(inner);
                    } else {
                        self.bind_ident(inner);
                    }
                },
                _ => {
                    proof {
                        lemma_bound_empty(self@);
                    }
                },
            }
            proof {
                lemma_bound_bound(old(self)@, ctor_params_ids(s.take(i as int)), ctor_param_ids(s[i as int]));
                assert(s.take(i + 1).drop_last() =~= s.take(i as int));
            }
            i += 1;
        }
        assert(s.take(i as int) =~= s);
    }

    /// Binds the names that a sequence of parameters introduces.
    #[verifier::loop_isolation(false)]
    pub fn bind_params(&mut self, params: &Vec<JsNode>)
        requires
            old(self)@.len() > 0,
            forall|k: int| 0 <= k < params@.len() ==> well_formed(#[trigger] params@[k]@),
        ensures
            final(self)@ == bound(old(self)@, params_ids(view_nodes(params@))),
    {
        let ghost s = view_nodes(params@);
        let mut i: usize = 0;
        proof {
            lemma_bound_empty(old(self)@);
        }
        while i < params.len()
            invariant
                i <= params.len(),
                self@ == bound(old(self)@, params_ids(s.take(i as int))),
            decreases params.len() - i,
        {
            proof {
                lemma_view_nodes(params@);
            }
            self.bind_param(&params[i]);
            proof {
                lemma_bound_bound(old(self)@, params_ids(s.take(i as int)), param_ids(s[i as int]));
                assert(s.take(i + 1).drop_last() =~= s.take(i as int));
            }
            i += 1;
        }
        assert(s.take(i as int) =~= s);
    }

    /// Binds the names that a parameter introduces.
    pub fn bind_param(&mut self, param: &JsNode)
        requires
            old(self)@.len() > 0,
            well_formed(param@),
        ensures
            final(self)@ == bound(old(self)@, param_ids(param@)),
    {
        if param.children.len() > 0 {
            self.bind_pat(&param.children[0]);
        } else {
            proof {
                lemma_bound_empty(old(self)@);
                assert(pat_ids(absent_tree()) == Set::<IdView>::empty());
            }
        }
    }

    /// Binds the names that a sequence of patterns introduces.
    #[verifier::loop_isolation(false)]
    pub fn bind_pats(&mut self, pats: &Vec<JsNode>)
        requires
            old(self)@.len() > 0,
            forall|k: int| 0 <= k < pats@.len() ==> well_formed(#[trigger] pats@[k]@),
        ensures
            final(self)@ == bound(old(self)@, pats_ids(view_nodes(pats@))),
    {
        let ghost s = view_nodes(pats@);
        let mut i: usize = 0;
        proof {
            lemma_bound_empty(old(self)@);
        }
        while i < pats.len()
            invariant
                i <= pats.len(),
                self@ == bound(old(self)@, pats_ids(s.take(i as int))),
            decreases pats.len() - i,
        {
            proof {
                lemma_view_nodes(pats@);
            }
            self.bind_pat(&pats[i]);
            proof {
                lemma_bound_bound(old(self)@, pats_ids(s.take(i as int)), pat_ids(s[i as int]));
                assert(s.take(i + 1).subrange(0, i as int) =~= s.take(i as int));
            }
            i += 1;
        }
        assert(s.take(i as int) =~= s);
    }

    /// Binds the names that a binding pattern introduces.
    #[verifier::loop_isolation(false)]
    pub fn bind_pat(&mut self, pat: &JsNode)
        requires
            old(self)@.len() > 0,
            well_formed(pat@),
        ensures
            final(self)@ == bound(old(self)@, pat_ids(pat@)),
        decreases pat, 1int,
    {
        proof {
            reveal(well_formed);
        }
        proof {
            lemma_bound_empty(old(self)@);
        }
        match pat.kind {
            JsKind::BindingIdent => self.bind_ident(pat),
            JsKind::ObjectPat => {
                let ghost s = pat@.children;
                let mut i: usize = 0;
                assert(s.subrange(0, 0) =~= Seq::<JsTree>::empty());
                while i < pat.children.len()
                    invariant
                        i <= pat.children.len(),
                        self@ == bound(old(self)@, obj_props_ids(s.subrange(0, i as int))),
                    decreases pat.children.len() - i,
                {
                    let prop = &pat.children[i];
                    proof {
                        lemma_bound_bound(old(self)@, obj_props_ids(s.subrange(0, i as int)), Set::empty());
                    }
                    assert(s[i as int] == prop@);
                    proof {
                        assert(decreases_to!(pat => pat.children@[i as int]));
                    }
                    match prop.kind {
                        JsKind::ObjAssignProp => {
                            if prop.children.len() > 0 {
                                assert(prop.children@[0]@ == prop@.children[0]);
                                self.bind_ident(&prop.children[0]);
                            } else {
                                proof {
                                    lemma_bound_empty(self@);
                                }
                            }
                        },
                        JsKind::ObjKeyValueProp => {
                            if prop.children.len() > 1 {
                                proof {
                                    assert(decreases_to!(prop => prop.children@[1]));
                                    assert(prop.children@[1]@ == prop@.children[1]);
                                }
                                self.bind_pat(&prop.children[1]);
                            } else {
                                proof {
                                    lemma_bound_empty(self@);
                                }
                            }
                        },
                        JsKind::ObjRestProp => {
                            if prop.children.len() > 0 {
                                proof {
                                    assert(decreases_to!(prop => prop.children@[0]));
                                    assert(prop.children@[0]@ == prop@.children[0]);
                                }
                                self.bind_pat(&prop.children[0]);
                            } else {
                                proof {
                                    lemma_bound_empty(self@);
                                }
                            }
                        },
                        _ => {
                            proof {
                                lemma_bound_empty(self@);
                            }
                        },
                    }
                    proof {
                        lemma_bound_bound(old(self)@, obj_props_ids(s.subrange(0, i as int)), obj_prop_ids(s[i as int]));
                        assert(s.subrange(0, i + 1).subrange(0, i as int) =~= s.subrange(0, i as int));
                    }
                    i += 1;
                }
                assert(s.subrange(0, i as int) =~= s);
            },
            JsKind::ArrayPat => {
                let ghost s = pat@.children;
                let mut i: usize = 0;
                assert(s.subrange(0, 0) =~= Seq::<JsTree>::empty());
                while i < pat.children.len()
                    invariant
                        i <= pat.children.len(),
                        self@ == bound(old(self)@, pats_ids(s.subrange(0, i as int))),
                    decreases pat.children.len() - i,
                {
                proof {
                    assert(decreases_to!(pat => pat.children@[i as int]));
                }
                    self.bind_pat(&pat.children[i]);
                    proof {
                        lemma_bound_bound(old(self)@, pats_ids(s.subrange(0, i as int)), pat_ids(s[i as int]));
                        assert(s.subrange(0, i + 1).subrange(0, i as int) =~= s.subrange(0, i as int));
                    }
                    i += 1;
                }
                assert(s.subrange(0, i as int) =~= s);
            },
            JsKind::AssignPat => self.bind_assign(pat),
            JsKind::RestPat => {
                proof {
                    assert(decreases_to!(pat => pat.children@[0]));
                }
                self.bind_pat(&pat.children[0]);
            },
            _ => {},
        }
    }

    /// Binds the names on the left of an assignment pattern.
    pub fn bind_assign(&mut self, assign: &JsNode)
        requires
            old(self)@.len() > 0,
            well_formed(assign@),
            assign@.kind == JsKind::AssignPat,
        ensures
            final(self)@ == bound(old(self)@, pat_ids(assign@.children[0])),
        decreases assign, 0int,
    {
        proof {
            reveal(well_formed);
        }
        proof {
            assert(decreases_to!(assign => assign.children@[0]));
        }
        self.bind_pat(&assign.children[0]);
    }
}

} // verus!
