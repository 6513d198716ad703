//! Whether the transform accepts a module: the tests, run on the nodes
//! themselves, of what the walk asks of its input.
use vstd::prelude::*;

use crate::closure_decorator::ClosureDecorator;
use crate::decorate::{
    ctx_of, decoratable, has_body_node, is_bind_call_node, method_registrable, node_decoratable, registered_fn,
    v_module, v_stmts,
};
use crate::emit::{lemma_node, node_supported, supported};
use crate::js::{arity, view_node, view_nodes, well_formed, JsKind, JsNode, MethodKind, Op};
use crate::parse::parse_frame;

verus! {

/// Whether `len` children are what the kind `k` asks for.
pub(crate) fn arity_fits(k: JsKind, len: usize) -> (r: bool)
    ensures
        r == (arity(k) matches Some(n) ==> len == n),
{
    match k {
        JsKind::Absent | JsKind::Ident | JsKind::Invalid
        | JsKind::JsxEmpty | JsKind::JsxNamespacedName | JsKind::Str
        | JsKind::Bool | JsKind::Null | JsKind::Num | JsKind::Int | JsKind::BigInt
        | JsKind::Regex | JsKind::JsxText | JsKind::MetaProp | JsKind::PrivateName
        | JsKind::Super | JsKind::Import | JsKind::This | JsKind::BindingIdent
        | JsKind::InvalidPat | JsKind::Empty | JsKind::Debugger
        | JsKind::EmptyMember | JsKind::OpaqueMember | JsKind::OpaqueModuleDecl => len == 0,
        JsKind::ExprOrSpread | JsKind::Await | JsKind::Param | JsKind::JsxMember
        | JsKind::Computed | JsKind::Spread | JsKind::PropShorthand | JsKind::OptChain
        | JsKind::Paren | JsKind::TplElement | JsKind::TsWrapper | JsKind::Unary
        | JsKind::Update | JsKind::Yield | JsKind::ObjRestProp | JsKind::RestPat
        | JsKind::ExprPat | JsKind::Return | JsKind::Break | JsKind::Continue
        | JsKind::Throw | JsKind::ExprStmt | JsKind::TsParamProp | JsKind::StaticBlock
        | JsKind::ImportDefault | JsKind::ImportNamed | JsKind::ImportNamespace
        | JsKind::ExportDecl | JsKind::ExportDefaultExpr | JsKind::ExportDefaultDecl => len == 1,
        JsKind::Arrow | JsKind::Assign | JsKind::Bin | JsKind::Call | JsKind::ClassExpr
        | JsKind::Class | JsKind::FnExpr | JsKind::Function | JsKind::Member | JsKind::New
        | JsKind::PropKeyValue | JsKind::PropAssign | JsKind::PropGetter | JsKind::PropMethod
        | JsKind::OptCall | JsKind::SuperProp | JsKind::Tpl | JsKind::TaggedTpl
        | JsKind::ObjAssignProp | JsKind::ObjKeyValueProp | JsKind::AssignPat | JsKind::With
        | JsKind::Labeled | JsKind::Switch | JsKind::SwitchCase | JsKind::CatchClause
        | JsKind::While | JsKind::DoWhile | JsKind::ClassDecl | JsKind::FnDecl
        | JsKind::VarDeclarator | JsKind::ClassMethod | JsKind::PrivateMethod
        | JsKind::ClassProp | JsKind::PrivateProp => len == 2,
        JsKind::Cond | JsKind::PropSetter | JsKind::If | JsKind::Try | JsKind::ForIn
        | JsKind::ForOf | JsKind::Constructor => len == 3,
        JsKind::For => len == 4,
        JsKind::List | JsKind::Array | JsKind::Object | JsKind::SeqExpr | JsKind::ArrayPat
        | JsKind::ObjectPat | JsKind::Block | JsKind::VarDecl | JsKind::ImportDecl
        | JsKind::JsxElement | JsKind::JsxFragment | JsKind::OpaqueDecl | JsKind::TsModuleBlock => true,
    }
}

/// Whether a tree is well formed: every node has the number of children its
/// kind asks for.
pub fn is_well_formed(n: &JsNode) -> (r: bool)
    ensures
        r == well_formed(n@),
    decreases n, 1int,
{
    proof {
        lemma_node(*n);
    }
    let fits = arity_fits(n.kind, n.children.len());
    let all = all_well_formed(&n.children);
    proof {
        reveal(well_formed);
        if all {
            assert forall|i: int| 0 <= i < view_node(*n).children.len() implies well_formed(#[trigger] view_node(*n).children[i]) by {
                assert(view_node(*n).children[i] == n.children@[i]@);
            }
        } else {
            let k = choose|k: int| 0 <= k < n.children@.len() && !well_formed(#[trigger] n.children@[k]@);
            assert(view_node(*n).children[k] == n.children@[k]@);
        }
    }
    fits && all
}

/// Whether every tree of a list is well formed.
pub fn all_well_formed(s: &Vec<JsNode>) -> (r: bool)
    ensures
        r == (forall|k: int| 0 <= k < s@.len() ==> well_formed(#[trigger] s@[k]@)),
    decreases s, 0int,
{
    let mut i: usize = 0;
    while i < s.len()
        invariant
            i <= s@.len(),
            forall|k: int| 0 <= k < i ==> well_formed(#[trigger] s@[k]@),
        decreases s@.len() - i,
    {
        proof {
            assert(decreases_to!(s => s@));
            assert(decreases_to!(s@ => s@[i as int]));
        }
        if !is_well_formed(&s[i]) {
            return false;
        }
        i += 1;
    }
    true
}

/// Whether the parser accepts a node itself (its children aside).
fn node_supported_exec(t: &JsNode) -> (r: bool)
    ensures
        r == node_supported(t@),
{
    proof {
        lemma_node(*t);
    }
    let n = t.children.len();
    match t.kind {
        JsKind::OpaqueDecl | JsKind::PropAssign => false,
        JsKind::PropGetter => n > 1 && t.children[1].kind != JsKind::Absent,
        JsKind::PropSetter | JsKind::Constructor => n > 2 && t.children[2].kind != JsKind::Absent,
        JsKind::PropMethod | JsKind::ClassMethod | JsKind::PrivateMethod => {
            if n > 1 {
                let f = &t.children[1];
                proof {
                    lemma_node(*f);
                }
                f.children.len() > 1 && f.children[1].kind != JsKind::Absent
            } else {
                false
            }
        },
        JsKind::SeqExpr => n > 0,
        JsKind::Tpl => {
            if n > 1 {
                let quasis = &t.children[1];
                proof {
                    lemma_node(*quasis);
                }
                quasis.children.len() > 0
            } else {
                false
            }
        },
        _ => true,
    }
}

/// Whether the parser accepts a tree: every node in it is accepted.
pub fn is_supported(n: &JsNode) -> (r: bool)
    ensures
        r == supported(n@),
    decreases n, 1int,
{
    proof {
        lemma_node(*n);
    }
    let own = node_supported_exec(n);
    let all = all_supported(&n.children);
    proof {
        reveal(supported);
        if all {
            assert forall|i: int| 0 <= i < view_node(*n).children.len() implies supported(#[trigger] view_node(*n).children[i]) by {
                assert(view_node(*n).children[i] == n.children@[i]@);
            }
        } else {
            let k = choose|k: int| 0 <= k < n.children@.len() && !supported(#[trigger] n.children@[k]@);
            assert(view_node(*n).children[k] == n.children@[k]@);
        }
    }
    own && all
}

/// Whether the parser accepts every tree of a list.
pub fn all_supported(s: &Vec<JsNode>) -> (r: bool)
    ensures
        r == (forall|k: int| 0 <= k < s@.len() ==> supported(#[trigger] s@[k]@)),
    decreases s, 0int,
{
    let mut i: usize = 0;
    while i < s.len()
        invariant
            i <= s@.len(),
            forall|k: int| 0 <= k < i ==> supported(#[trigger] s@[k]@),
        decreases s@.len() - i,
    {
        proof {
            assert(decreases_to!(s => s@));
            assert(decreases_to!(s@ => s@[i as int]));
        }
        if !is_supported(&s[i]) {
            return false;
        }
        i += 1;
    }
    true
}

/// Whether a class member is one the walk can register: an accessor must be
/// named by an identifier or a computed name.
fn method_registrable_exec(m: &JsNode) -> (r: bool)
    ensures
        r == method_registrable(m@),
{
    proof {
        lemma_node(*m);
    }
    if m.op == Op::Method(MethodKind::Getter) || m.op == Op::Method(MethodKind::Setter) {
        if m.children.len() > 0 {
            let key = &m.children[0];
            proof {
                lemma_node(*key);
            }
            key.kind == JsKind::Ident || (key.kind == JsKind::Computed && key.children.len() == 1)
        } else {
            false
        }
    } else {
        true
    }
}

/// Whether a statement, if it declares a function, declares one that the
/// parser accepts.
fn registered_fn_ok(s: &JsNode) -> (r: bool)
    ensures
        r == (registered_fn(s@) matches Some(f) ==> supported(f)),
{
    proof {
        lemma_node(*s);
    }
    let f = if s.kind == JsKind::ExportDecl && s.children.len() == 1 {
        &s.children[0]
    } else {
        s
    };
    proof {
        lemma_node(*f);
    }
    if f.kind == JsKind::FnDecl && f.children.len() == 2 {
        is_supported(f)
    } else {
        true
    }
}

/// Whether the walk accepts a node itself (its children aside).
fn node_decoratable_exec(t: &JsNode) -> (r: bool)
    ensures
        r == node_decoratable(t@),
{
    proof {
        lemma_node(*t);
    }
    let k = t.kind;
    let parsed = k == JsKind::Arrow || k == JsKind::PropMethod || k == JsKind::ClassDecl || k == JsKind::ClassExpr || (k
        == JsKind::FnExpr && has_body_node(t));
    if parsed && !is_supported(t) {
        return false;
    }
    if (k == JsKind::ClassDecl || k == JsKind::ClassExpr) && t.children.len() == 2 {
        let class = &t.children[1];
        proof {
            lemma_node(*class);
        }
        if class.children.len() == 2 {
            let members = &class.children[0];
            proof {
                lemma_node(*members);
            }
            let mut i: usize = 0;
            while i < members.children.len()
                invariant
                    i <= members.children@.len(),
                    k == t.kind,
                    k == JsKind::ClassDecl || k == JsKind::ClassExpr,
                    t@.children.len() == 2,
                    t@.children[1].children.len() == 2,
                    members@ == t@.children[1].children[0],
                    members.children@.len() == members@.children.len(),
                    forall|j: int| #![trigger members.children@[j]] 0 <= j < members.children@.len() ==> members.children@[j]@ == members@.children[j],
                    forall|j: int| 0 <= j < i ==> #[trigger] method_registrable(members@.children[j]),
                decreases members.children@.len() - i,
            {
                if !method_registrable_exec(&members.children[i]) {
                    assert(members.children@[i as int]@ == members@.children[i as int]);
                    assert(!method_registrable(t@.children[1].children[0].children[i as int]));
                    return false;
                }
                i += 1;
            }
        }
    }
    if is_bind_call_node(t) {
        let args = &t.children[1];
        proof {
            lemma_node(*args);
        }
        if args.children.len() == 0 {
            return false;
        }
    }
    if k == JsKind::Block || k == JsKind::List || k == JsKind::TsModuleBlock {
        let mut i: usize = 0;
        while i < t.children.len()
            invariant
                i <= t.children@.len(),
                t.kind == k,
                k == JsKind::Block || k == JsKind::List || k == JsKind::TsModuleBlock,
                t.children@.len() == t@.children.len(),
                forall|j: int| #![trigger t.children@[j]] 0 <= j < t.children@.len() ==> t.children@[j]@ == t@.children[j],
                forall|j: int| 0 <= j < i ==> (#[trigger] registered_fn(t@.children[j]) matches Some(f) ==> supported(f)),
            decreases t.children@.len() - i,
        {
            if !registered_fn_ok(&t.children[i]) {
                assert(t.children@[i as int]@ == t@.children[i as int]);
                assert(!(registered_fn(t@.children[i as int]) matches Some(f) ==> supported(f)));
                return false;
            }
            i += 1;
        }
    }
    true
}

/// Whether the walk accepts a tree: every node in it is accepted.
pub fn is_decoratable(n: &JsNode) -> (r: bool)
    ensures
        r == decoratable(n@),
    decreases n, 1int,
{
    proof {
        lemma_node(*n);
    }
    let own = node_decoratable_exec(n);
    let all = all_decoratable(&n.children);
    proof {
        reveal(decoratable);
        if all {
            assert forall|i: int| 0 <= i < view_node(*n).children.len() implies decoratable(#[trigger] view_node(*n).children[i]) by {
                assert(view_node(*n).children[i] == n.children@[i]@);
            }
        } else {
            let k = choose|k: int| 0 <= k < n.children@.len() && !decoratable(#[trigger] n.children@[k]@);
            assert(view_node(*n).children[k] == n.children@[k]@);
        }
    }
    own && all
}

/// Whether the walk accepts every tree of a list.
pub fn all_decoratable(s: &Vec<JsNode>) -> (r: bool)
    ensures
        r == (forall|k: int| 0 <= k < s@.len() ==> decoratable(#[trigger] s@[k]@)),
    decreases s, 0int,
{
    let mut i: usize = 0;
    while i < s.len()
        invariant
            i <= s@.len(),
            forall|k: int| 0 <= k < i ==> decoratable(#[trigger] s@[k]@),
        decreases s@.len() - i,
    {
        proof {
            assert(decreases_to!(s => s@));
            assert(decreases_to!(s@ => s@[i as int]));
        }
        if !is_decoratable(&s[i]) {
            return false;
        }
        i += 1;
    }
    true
}

/// Whether the transform accepts the items of a module (or the statements of
/// a script): each is well formed and accepted by the walk, and each function
/// declaration among them is accepted by the parser.
pub open spec fn accepted_items(s: Seq<JsNode>) -> bool {
    forall|k: int| #![trigger s[k]] 0 <= k < s.len() ==> well_formed(s[k]@) && decoratable(s[k]@) && (registered_fn(
        s[k]@,
    ) matches Some(f) ==> supported(f))
}

/// Whether the transform accepts the items of a module; see
/// [`accepted_items`].
pub fn accepts_items(s: &Vec<JsNode>) -> (r: bool)
    ensures
        r == accepted_items(s@),
{
    let mut i: usize = 0;
    while i < s.len()
        invariant
            i <= s@.len(),
            forall|k: int| #![trigger s@[k]] 0 <= k < i ==> well_formed(s@[k]@) && decoratable(s@[k]@) && (registered_fn(
                s@[k]@,
            ) matches Some(f) ==> supported(f)),
        decreases s@.len() - i,
    {
        if !(is_well_formed(&s[i]) && is_decoratable(&s[i]) && registered_fn_ok(&s[i])) {
            return false;
        }
        i += 1;
    }
    true
}

impl ClosureDecorator {
    /// Decorates the items of a module when the transform accepts them (see
    /// [`accepted_items`]) and says whether it did; otherwise the items and
    /// the transform are left as they were.
    pub fn decorate_module(&mut self, items: &mut Vec<JsNode>) -> (r: bool)
        requires
            old(self).vm@.len() > 0,
        ensures
            r == accepted_items(old(items)@),
            r ==> parse_frame(*old(self), *final(self)),
            r ==> (view_nodes(final(items)@), final(self).ids) == v_module(ctx_of(*old(self)), view_nodes(old(items)@), old(self).ids),
            !r ==> *final(items) == *old(items) && *final(self) == *old(self),
    {
        if !accepts_items(items) {
            return false;
        }
        self.visit_mut_module_items(items);
        true
    }

    /// Decorates the statements of a script when the transform accepts them
    /// (see [`accepted_items`]) and says whether it did; otherwise the
    /// statements and the transform are left as they were.
    pub fn decorate_script(&mut self, stmts: &mut Vec<JsNode>) -> (r: bool)
        requires
            old(self).vm@.len() > 0,
        ensures
            r == accepted_items(old(stmts)@),
            r ==> parse_frame(*old(self), *final(self)),
            r ==> (view_nodes(final(stmts)@), final(self).ids) == v_stmts(ctx_of(*old(self)), view_nodes(old(stmts)@), old(self).ids),
            !r ==> *final(stmts) == *old(stmts) && *final(self) == *old(self),
    {
        if !accepts_items(stmts) {
            return false;
        }
        self.visit_mut_stmts(stmts);
        true
    }
}

} // verus!
