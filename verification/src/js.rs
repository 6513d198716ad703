//! A JavaScript syntax tree: the library's own model of the program that the
//! transform reads and writes.
//!
//! Every syntax node is a [`JsNode`]: a kind, a source span, a few scalar
//! fields whose meaning depends on the kind, and an ordered list of child
//! nodes. The layout of each kind (which scalar fields it uses and what its
//! children are) is documented on the [`JsKind`] variants. An optional child
//! that is not there is a node of kind [`JsKind::Absent`]; a list of children
//! that stands in one position is a node of kind [`JsKind::List`].
//!
//! Payloads that the transform never reads (type annotations, numeric and
//! regular-expression literal values, JSX trees, ...) are not held here: the
//! embedding program keeps them and the node carries, in `num`, the integer
//! by which that program finds them again.
use vstd::prelude::*;

verus! {

/// A region of the source text.
///
/// `line` and `col` are the position of `lo` as the embedding program's
/// source map reports it; they are not used when `lo` is 0.
#[derive(Clone, Copy, Debug, PartialEq, Eq, Structural)]
pub struct Span {
    pub lo: u32,
    pub hi: u32,
    /// The syntax context: it tells apart identifiers of equal names.
    pub ctxt: u32,
    pub line: u32,
    pub col: u32,
}

/// A binary operator.
#[derive(Clone, Copy, Debug, PartialEq, Eq, Structural)]
pub enum BinaryOp {
    Add,
    BitAnd,
    BitOr,
    BitXor,
    Div,
    EqEq,
    EqEqEq,
    Exp,
    Gt,
    GtEq,
    In,
    InstanceOf,
    LogicalAnd,
    LogicalOr,
    LShift,
    Lt,
    LtEq,
    Mod,
    Mul,
    NotEq,
    NotEqEq,
    NullishCoalescing,
    RShift,
    Sub,
    ZeroFillRShift,
}

/// An assignment operator.
#[derive(Clone, Copy, Debug, PartialEq, Eq, Structural)]
pub enum AssignOp {
    Assign,
    AddAssign,
    SubAssign,
    MulAssign,
    DivAssign,
    ModAssign,
    LShiftAssign,
    RShiftAssign,
    ZeroFillRShiftAssign,
    BitOrAssign,
    BitXorAssign,
    BitAndAssign,
    ExpAssign,
    AndAssign,
    OrAssign,
    NullishAssign,
}

/// A prefix operator.
#[derive(Clone, Copy, Debug, PartialEq, Eq, Structural)]
pub enum UnaryOp {
    Minus,
    Plus,
    Bang,
    Tilde,
    TypeOf,
    Void,
    Delete,
}

/// An increment or decrement operator.
#[derive(Clone, Copy, Debug, PartialEq, Eq, Structural)]
pub enum UpdateOp {
    PlusPlus,
    MinusMinus,
}

/// The keyword of a variable declaration.
#[derive(Clone, Copy, Debug, PartialEq, Eq, Structural)]
pub enum VarDeclKind {
    Var,
    Let,
    Const,
}

/// What a class or object method is.
#[derive(Clone, Copy, Debug, PartialEq, Eq, Structural)]
pub enum MethodKind {
    Method,
    Getter,
    Setter,
}

/// The operator-like scalar of a node.
#[derive(Clone, Copy, Debug, PartialEq, Eq, Structural)]
pub enum Op {
    NoOp,
    Bin(BinaryOp),
    Assign(AssignOp),
    Unary(UnaryOp),
    Update(UpdateOp),
    Var(VarDeclKind),
    Method(MethodKind),
}

/// The kinds of syntax nodes, with the layout of each.
///
/// `[a, b]` lists the children in order; `?x` is a child that may be
/// [`JsKind::Absent`]; `List(x..)` is a child of kind [`JsKind::List`] whose
/// children are the `x`s; `x..` alone means that all children are `x`s.
#[derive(Clone, Copy, Debug, PartialEq, Eq, Structural)]
pub enum JsKind {
    /// An optional child that is not there, or a hole in an array.
    Absent,
    /// `x..`: a sequence of nodes standing in one position.
    List,
    // ---- expressions ----
    /// `[elem..]` where each element is `Absent` (a hole) or `ExprOrSpread`.
    Array,
    /// `flag`: the expression is spread, and `span` is then the span of the
    /// `...` token. `[expr]`
    ExprOrSpread,
    /// `flag`: async, `flag2`: generator. `[List(pat..), body]` where body is a
    /// `Block` or an expression.
    Arrow,
    /// `op`: the assignment operator. `[left, right]`; left is a pattern
    /// kind or an expression.
    Assign,
    /// `[arg]`
    Await,
    /// `op`: the binary operator. `[left, right]`
    Bin,
    /// `[callee, List(ExprOrSpread..)]`; callee is `Super`, `Import` or an
    /// expression.
    Call,
    /// `[?Ident, Class]`
    ClassExpr,
    /// `[List(member..), ?super_class]`
    Class,
    /// `[test, cons, alt]`
    Cond,
    /// `[?Ident, Function]`
    FnExpr,
    /// `flag`: async, `flag2`: generator. `[List(Param..), ?Block]`
    Function,
    /// `[pat]`
    Param,
    /// `text`: the name, `flag`: optional.
    Ident,
    /// An expression that did not parse.
    Invalid,
    /// `num`: the handle of the element. `[expr..]`: the expressions
    /// embedded in it (attribute values, spreads, children, and those of the
    /// elements nested in it), in source order.
    JsxElement,
    /// `num`: the handle of the element.
    JsxEmpty,
    /// `num`: the handle of the fragment. `[expr..]`: the expressions
    /// embedded in it, as for `JsxElement`.
    JsxFragment,
    /// `span`: the span of the object, `num`: the handle. `[Ident]`: the
    /// property.
    JsxMember,
    /// `span`: the span of the name, `num`: the handle.
    JsxNamespacedName,
    /// `text`: the string value.
    Str,
    /// `flag`: the value.
    Bool,
    Null,
    /// A number written in the source; `num`: its handle.
    Num,
    /// A number made by the transform; `num`: its value.
    Int,
    /// `num`: the handle of the big integer.
    BigInt,
    /// `num`: the handle of the expression and its flags.
    Regex,
    /// `num`: the handle of the text.
    JsxText,
    /// `[obj, prop]`; prop is `Ident`, `PrivateName` or `Computed`.
    Member,
    /// A computed property name. `[expr]`
    Computed,
    /// `num`: the handle of the meta property.
    MetaProp,
    /// `[callee, ?List(ExprOrSpread..)]`
    New,
    /// `[prop..]`; each is `Spread` or one of the `Prop*` kinds.
    Object,
    /// `span`: the span of the `...` token. `[expr]`
    Spread,
    /// `[Ident]`
    PropShorthand,
    /// `[key, value]`
    PropKeyValue,
    /// `[Ident, value]`
    PropAssign,
    /// `[key, ?Block]`
    PropGetter,
    /// `[key, pat, ?Block]`
    PropSetter,
    /// `[key, Function]`
    PropMethod,
    /// `flag`: the chain link is optional. `[base]`; base is `OptCall` or
    /// `Member`.
    OptChain,
    /// `[callee, List(ExprOrSpread..)]`
    OptCall,
    /// `[expr]`
    Paren,
    /// `text`: the name without `#`.
    PrivateName,
    /// `[expr..]`
    SeqExpr,
    /// `[Super, prop]`; prop is `Ident` or `Computed`.
    SuperProp,
    Super,
    Import,
    /// `[List(expr..), List(TplElement..)]`
    Tpl,
    /// `text`: the raw text, `flag`: tail. `[?Str]`: the cooked text.
    TplElement,
    /// `[tag, Tpl]`
    TaggedTpl,
    This,
    /// A type assertion of any form; `num`: the handle of the type. `[expr]`
    TsWrapper,
    /// `op`: the prefix operator. `[arg]`
    Unary,
    /// `op`: the update operator, `flag`: prefix. `[arg]`
    Update,
    /// `flag`: delegate. `[?arg]`
    Yield,
    // ---- patterns ----
    /// `text`: the name, `flag`: optional.
    BindingIdent,
    /// `[elem..]` where each element is `Absent` or a pattern.
    ArrayPat,
    /// `[prop..]`; each is `ObjAssignProp`, `ObjKeyValueProp` or `ObjRestProp`.
    ObjectPat,
    /// `[Ident, ?value]`
    ObjAssignProp,
    /// `[key, pat]`
    ObjKeyValueProp,
    /// `[pat]`
    ObjRestProp,
    /// `[pat, expr]`
    AssignPat,
    /// `[pat]`
    RestPat,
    /// A pattern that did not parse.
    InvalidPat,
    /// `[expr]`
    ExprPat,
    // ---- statements ----
    /// `[stmt..]`
    Block,
    Empty,
    Debugger,
    /// `[obj, body]`
    With,
    /// `[?arg]`
    Return,
    /// `[Ident, body]`
    Labeled,
    /// `[?Ident]`
    Break,
    /// `[?Ident]`
    Continue,
    /// `[test, cons, ?alt]`
    If,
    /// `[discriminant, List(SwitchCase..)]`
    Switch,
    /// `[?test, List(stmt..)]`
    SwitchCase,
    /// `[arg]`
    Throw,
    /// `[Block, ?CatchClause, ?Block]`
    Try,
    /// `[?pat, Block]`
    CatchClause,
    /// `[test, body]`
    While,
    /// `[test, body]`
    DoWhile,
    /// `[?init, ?test, ?update, body]`; init is `VarDecl` or an expression.
    For,
    /// `[left, right, body]`; left is `VarDecl` or a pattern.
    ForIn,
    /// `flag`: `for await`. `[left, right, body]`
    ForOf,
    /// `[expr]`
    ExprStmt,
    // ---- declarations ----
    /// `[Ident, Class]`
    ClassDecl,
    /// `[Ident, Function]`
    FnDecl,
    /// `op`: the keyword, `flag`: `declare`. `[VarDeclarator..]`
    VarDecl,
    /// `flag`: definite. `[pat, ?init]`
    VarDeclarator,
    /// A declaration the transform does not read (TypeScript declarations);
    /// `num`: its handle. A namespace holds `[TsModuleBlock]`: its body.
    OpaqueDecl,
    // ---- class members ----
    /// `[key, List(param..), ?Block]`; each param is `Param` or `TsParamProp`.
    Constructor,
    /// `[param]`; param is `BindingIdent` or `AssignPat`.
    TsParamProp,
    /// `op`: the method kind, `flag`: static. `[key, Function]`
    ClassMethod,
    /// `op`: the method kind, `flag`: static. `[PrivateName, Function]`
    PrivateMethod,
    /// `flag`: static. `[key, ?value]`
    ClassProp,
    /// `flag`: static. `[PrivateName, ?value]`
    PrivateProp,
    /// `[Block]`
    StaticBlock,
    EmptyMember,
    /// A member the transform does not read; `num`: its handle.
    OpaqueMember,
    // ---- modules ----
    /// `num`: the handle of the rest of the import. `[specifier..]`
    ImportDecl,
    /// `[Ident]`: the local name.
    ImportDefault,
    /// `[Ident]`: the local name.
    ImportNamed,
    /// `[Ident]`: the local name.
    ImportNamespace,
    /// `[decl]`
    ExportDecl,
    /// `[expr]`
    ExportDefaultExpr,
    /// `export default` of a class or function: `[ClassExpr]` or `[FnExpr]`.
    ExportDefaultDecl,
    /// A module declaration the transform does not read; `num`: its handle.
    OpaqueModuleDecl,
    /// The body of a TypeScript namespace. `[item..]`
    TsModuleBlock,
}

/// A syntax node; see [`JsKind`] for the layout of each kind.
pub struct JsNode {
    pub kind: JsKind,
    pub span: Span,
    pub op: Op,
    pub text: String,
    pub flag: bool,
    pub flag2: bool,
    pub num: i64,
    pub children: Vec<JsNode>,
}

/// The mathematical value of a [`JsNode`].
pub struct JsTree {
    pub kind: JsKind,
    pub span: Span,
    pub op: Op,
    pub text: Seq<char>,
    pub flag: bool,
    pub flag2: bool,
    pub num: i64,
    pub children: Seq<JsTree>,
}

pub open spec fn view_nodes(s: Seq<JsNode>) -> Seq<JsTree>
    decreases s,
{
    if s.len() == 0 {
        Seq::empty()
    } else {
        view_nodes(s.subrange(0, s.len() - 1)).push(view_node(s[s.len() - 1]))
    }
}

pub open spec fn view_node(n: JsNode) -> JsTree
    decreases n,
{
    JsTree {
        kind: n.kind,
        span: n.span,
        op: n.op,
        text: n.text@,
        flag: n.flag,
        flag2: n.flag2,
        num: n.num,
        children: view_nodes(n.children@),
    }
}

impl View for JsNode {
    type V = JsTree;

    open spec fn view(&self) -> JsTree {
        view_node(*self)
    }
}

pub broadcast proof fn lemma_view_nodes(s: Seq<JsNode>)
    ensures
        #[trigger] view_nodes(s).len() == s.len(),
        forall|i: int| 0 <= i < s.len() ==> #[trigger] view_nodes(s)[i] == view_node(s[i]),
    decreases s.len(),
{
    if s.len() > 0 {
        lemma_view_nodes(s.subrange(0, s.len() - 1));
    }
}

/// The view of a sequence with a node pushed is the view of the sequence
/// with the node's view pushed.
pub proof fn lemma_view_nodes_push(s: Seq<JsNode>, n: JsNode)
    ensures
        view_nodes(s.push(n)) == view_nodes(s).push(view_node(n)),
{
    assert(s.push(n).subrange(0, s.len() as int) =~= s);
}

/// The view of a concatenation is the concatenation of the views.
pub proof fn lemma_view_nodes_concat(a: Seq<JsNode>, b: Seq<JsNode>)
    ensures
        view_nodes(a + b) == view_nodes(a) + view_nodes(b),
{
    lemma_view_nodes(a);
    lemma_view_nodes(b);
    lemma_view_nodes(a + b);
    assert(view_nodes(a + b) =~= view_nodes(a) + view_nodes(b));
}

/// The view of a node's child is the child of its view; a child of a well
/// formed node is well formed.
pub broadcast proof fn lemma_node_child(n: JsNode, i: int)
    requires
        0 <= i < n.children@.len(),
    ensures
        #[trigger] view_node(n.children@[i]) == view_node(n).children[i],
        well_formed(view_node(n)) ==> well_formed(view_node(n.children@[i])),
{
    lemma_view_nodes(n.children@);
    assert(view_node(n).children == view_nodes(n.children@));
    if well_formed(view_node(n)) {
        lemma_well_formed_child(view_node(n), i);
    }
}

/// A node's view has as many children as the node.
pub broadcast proof fn lemma_node_len(n: JsNode)
    ensures
        #[trigger] view_node(n).children.len() == n.children@.len(),
{
    lemma_view_nodes(n.children@);
}

pub broadcast group group_js_node {
    lemma_view_nodes,
    lemma_node_child,
    lemma_node_len,
}

/// The number of children that a node of kind `k` has, where that number
/// is fixed.
pub open spec fn arity(k: JsKind) -> Option<nat> {
    match k {
        JsKind::Absent | JsKind::Ident | JsKind::Invalid
        | JsKind::JsxEmpty | JsKind::JsxNamespacedName | JsKind::Str
        | JsKind::Bool | JsKind::Null | JsKind::Num | JsKind::Int | JsKind::BigInt
        | JsKind::Regex | JsKind::JsxText | JsKind::MetaProp | JsKind::PrivateName
        | JsKind::Super | JsKind::Import | JsKind::This | JsKind::BindingIdent
        | JsKind::InvalidPat | JsKind::Empty | JsKind::Debugger
        | JsKind::EmptyMember | JsKind::OpaqueMember | JsKind::OpaqueModuleDecl => Some(0),
        JsKind::ExprOrSpread | JsKind::Await | JsKind::Param | JsKind::JsxMember
        | JsKind::Computed | JsKind::Spread | JsKind::PropShorthand | JsKind::OptChain
        | JsKind::Paren | JsKind::TplElement | JsKind::TsWrapper | JsKind::Unary
        | JsKind::Update | JsKind::Yield | JsKind::ObjRestProp | JsKind::RestPat
        | JsKind::ExprPat | JsKind::Return | JsKind::Break | JsKind::Continue
        | JsKind::Throw | JsKind::ExprStmt | JsKind::TsParamProp | JsKind::StaticBlock
        | JsKind::ImportDefault | JsKind::ImportNamed | JsKind::ImportNamespace
        | JsKind::ExportDecl | JsKind::ExportDefaultExpr | JsKind::ExportDefaultDecl => Some(1),
        JsKind::Arrow | JsKind::Assign | JsKind::Bin | JsKind::Call | JsKind::ClassExpr
        | JsKind::Class | JsKind::FnExpr | JsKind::Function | JsKind::Member | JsKind::New
        | JsKind::PropKeyValue | JsKind::PropAssign | JsKind::PropGetter | JsKind::PropMethod
        | JsKind::OptCall | JsKind::SuperProp | JsKind::Tpl | JsKind::TaggedTpl
        | JsKind::ObjAssignProp | JsKind::ObjKeyValueProp | JsKind::AssignPat | JsKind::With
        | JsKind::Labeled | JsKind::Switch | JsKind::SwitchCase | JsKind::CatchClause
        | JsKind::While | JsKind::DoWhile | JsKind::ClassDecl | JsKind::FnDecl
        | JsKind::VarDeclarator | JsKind::ClassMethod | JsKind::PrivateMethod
        | JsKind::ClassProp | JsKind::PrivateProp => Some(2),
        JsKind::Cond | JsKind::PropSetter | JsKind::If | JsKind::Try | JsKind::ForIn
        | JsKind::ForOf | JsKind::Constructor => Some(3),
        JsKind::For => Some(4),
        JsKind::List | JsKind::Array | JsKind::Object | JsKind::SeqExpr | JsKind::ArrayPat
        | JsKind::ObjectPat | JsKind::Block | JsKind::VarDecl | JsKind::ImportDecl
        | JsKind::JsxElement | JsKind::JsxFragment | JsKind::OpaqueDecl | JsKind::TsModuleBlock => None,
    }
}

/// A tree is well formed when every node has the number of children its kind
/// asks for.
#[verifier::opaque]
pub open spec fn well_formed(t: JsTree) -> bool
    decreases t,
{
    &&& (arity(t.kind) matches Some(n) ==> t.children.len() == n)
    &&& forall|i: int| 0 <= i < t.children.len() ==> well_formed(#[trigger] t.children[i])
}

/// A child of a well formed tree is well formed.
pub proof fn lemma_well_formed_child(t: JsTree, i: int)
    requires
        well_formed(t),
        0 <= i < t.children.len(),
    ensures
        well_formed(t.children[i]),
{
    reveal(well_formed);
}

/// The child at `i`, or an absent node where there is none.
pub open spec fn child(t: JsTree, i: int) -> JsTree {
    if 0 <= i < t.children.len() {
        t.children[i]
    } else {
        absent_tree()
    }
}

pub open spec fn dummy_span() -> Span {
    Span { lo: 0, hi: 0, ctxt: 0, line: 0, col: 0 }
}

/// A leaf with the given kind, span and scalars.
pub open spec fn leaf_tree(kind: JsKind, span: Span, text: Seq<char>, flag: bool, num: i64) -> JsTree {
    JsTree { kind, span, op: Op::NoOp, text, flag, flag2: false, num, children: Seq::empty() }
}

/// An inner node with no scalars.
pub open spec fn inner_tree(kind: JsKind, span: Span, children: Seq<JsTree>) -> JsTree {
    JsTree { kind, span, op: Op::NoOp, text: Seq::empty(), flag: false, flag2: false, num: 0, children }
}

pub open spec fn absent_tree() -> JsTree {
    inner_tree(JsKind::Absent, dummy_span(), Seq::empty())
}

/// Copies a node and everything under it.
pub fn clone_node(n: &JsNode) -> (r: JsNode)
    ensures
        r@ == n@,
    decreases n,
{
    broadcast use lemma_view_nodes;

    let mut out: Vec<JsNode> = Vec::new();
    let mut i: usize = 0;
    while i < n.children.len()
        invariant
            i <= n.children.len(),
            out@.len() == i,
            forall|j: int| 0 <= j < i ==> view_node(#[trigger] out@[j]) == view_node(n.children@[j]),
        decreases n.children.len() - i,
    {
        proof {
            assert(decreases_to!(n => n.children@[i as int]));
        }
        let c = clone_node(&n.children[i]);
        out.push(c);
        i += 1;
    }
    let r = JsNode {
        kind: n.kind,
        span: n.span,
        op: n.op,
        text: n.text.clone(),
        flag: n.flag,
        flag2: n.flag2,
        num: n.num,
        children: out,
    };
    assert(view_nodes(r.children@).len() == view_nodes(n.children@).len());
    assert(forall|j: int|
        0 <= j < r.children@.len() ==> view_nodes(r.children@)[j] == view_node(r.children@[j]));
    assert(view_nodes(r.children@) =~= view_nodes(n.children@));
    r
}

/// A node of kind `Absent`.
pub fn absent_node() -> (r: JsNode)
    ensures
        r@ == absent_tree(),
{
    let r = JsNode {
        kind: JsKind::Absent,
        span: Span { lo: 0, hi: 0, ctxt: 0, line: 0, col: 0 },
        op: Op::NoOp,
        text: String::new(),
        flag: false,
        flag2: false,
        num: 0,
        children: Vec::new(),
    };
    assert(r@.children =~= Seq::<JsTree>::empty());
    r
}

} // verus!
