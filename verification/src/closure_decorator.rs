//! The transform: it attaches to every closure and class of a module the
//! Functionless AST that describes it.
use vstd::prelude::*;

use crate::emit::next_id_spec;
use crate::js::{absent_tree, clone_node, view_nodes, BinaryOp, JsKind, JsNode, JsTree, Op, VarDeclKind};
use crate::js_util::{
    assign_expr, assign_tree, bin_expr, bin_tree, call_expr, call_tree, computed_member_expr, computed_member_tree,
    eos, eos_tree, kv_prop, kv_tree, list_tree, mk1, mk2, mk_node, mk_tree, mkv, new_expr, new_expr_bare, new_tree,
    object_tree, prop_access_expr, prop_access_tree, quote_ident, require_expr, require_tree, seq_expr_tree,
    spread_arg_tree, spread_prop_tree, str_tree, string_expr, type_of, type_of_tree, vec1, vec2, vec3,
};
use crate::virtual_machine::VirtualMachine;

verus! {

/// The state of the transform as it walks a module.
pub struct ClosureDecorator {
    /// The names visible at each point of the walk.
    pub vm: VirtualMachine,
    /// A private identifier bound to `globalThis`.
    pub global: JsNode,
    /// A private variable that holds values while they are registered.
    pub stash: JsNode,
    /// A private identifier bound to NodeJS's `util` module.
    pub util: JsNode,
    /// The last id given to a free variable.
    pub ids: u32,
}

/// Two states of the transform hold the same private identifiers.
pub open spec fn same_idents(a: ClosureDecorator, b: ClosureDecorator) -> bool {
    a.global == b.global && a.stash == b.stash && a.util == b.util
}

impl ClosureDecorator {
    /// A transform that has seen nothing yet, with the given private
    /// identifiers for `globalThis`, the stash and `util`.
    pub fn new(global: JsNode, stash: JsNode, util: JsNode) -> (r: ClosureDecorator)
        ensures
            r.vm@ == seq![Set::<crate::virtual_machine::IdView>::empty()],
            r.global == global,
            r.stash == stash,
            r.util == util,
            r.ids == 0,
    {
        ClosureDecorator { vm: VirtualMachine::new(), global, stash, util, ids: 0 }
    }

    /// Takes the next id for a free variable (after the largest id the
    /// counter starts again at 0).
    pub fn next_id(&mut self) -> (r: u32)
        ensures
            r == next_id_spec(old(self).ids),
            final(self).ids == r,
            final(self).vm == old(self).vm,
            same_idents(*final(self), *old(self)),
    {
        if self.ids == u32::MAX {
            self.ids = 0;
        } else {
            self.ids = self.ids + 1;
        }
        self.ids
    }
}


/// `global.Symbol`.
pub open spec fn symbol_ref_tree(global: JsTree) -> JsTree {
    prop_access_tree(global, "Symbol"@)
}

/// `global.Symbol.for(sym)`.
pub open spec fn symbol_for_tree(global: JsTree, sym: Seq<char>) -> JsTree {
    call_tree(prop_access_tree(symbol_ref_tree(global), "for"@), seq![eos_tree(str_tree(sym))])
}

/// `on[global.Symbol.for(sym)] = to`.
pub open spec fn set_symbol_tree(global: JsTree, on: JsTree, sym: Seq<char>, to: JsTree) -> JsTree {
    assign_tree(computed_member_tree(on, symbol_for_tree(global, sym)), to)
}

/// `(stash = "REGISTER", stash = func, stash[Symbol.for("functionless:AST")] = ast, stash)`.
pub open spec fn register_seq_tree(stash: JsTree, global: JsTree, func: JsTree, ast: JsTree) -> JsTree {
    seq_expr_tree(
        seq![
            assign_tree(stash, str_tree("REGISTER"@)),
            assign_tree(stash, func),
            set_symbol_tree(global, stash, "functionless:AST"@, ast),
            stash,
        ],
    )
}

/// `(stash = "REGISTER_REF", expr[Symbol.for("functionless:AST")] = ast)`.
pub open spec fn register_ref_seq_tree(stash: JsTree, global: JsTree, expr: JsTree, ast: JsTree) -> JsTree {
    seq_expr_tree(
        seq![
            assign_tree(stash, str_tree("REGISTER_REF"@)),
            set_symbol_tree(global, expr, "functionless:AST"@, ast),
        ],
    )
}

/// The statement that registers `expr` with its AST.
pub open spec fn register_stmt_tree(stash: JsTree, global: JsTree, expr: JsTree, ast: JsTree) -> JsTree {
    mk_tree(JsKind::ExprStmt, Op::NoOp, false, seq![register_ref_seq_tree(stash, global, expr, ast)])
}

/// The binding pattern of an identifier.
pub open spec fn binding_tree(ident: JsTree) -> JsTree {
    JsTree {
        kind: JsKind::BindingIdent,
        span: ident.span,
        op: Op::NoOp,
        text: ident.text,
        flag: ident.flag,
        flag2: false,
        num: 0,
        children: Seq::empty(),
    }
}

/// `kind ident = init;`; an absent `init` makes `kind ident;`.
pub open spec fn var_decl_tree(kind: VarDeclKind, ident: JsTree, init: JsTree) -> JsTree {
    mk_tree(
        JsKind::VarDecl,
        Op::Var(kind),
        false,
        seq![
            mk_tree(
                JsKind::VarDeclarator,
                Op::NoOp,
                false,
                seq![binding_tree(ident), init],
            ),
        ],
    )
}

/// `let stash;`
pub open spec fn stash_decl_tree(stash: JsTree) -> JsTree {
    var_decl_tree(VarDeclKind::Let, stash, absent_tree())
}

/// `const global = (() => {}).constructor("return this")();`
pub open spec fn global_this_decl_tree(global: JsTree) -> JsTree {
    let empty_arrow = mk_tree(
        JsKind::Arrow,
        Op::NoOp,
        false,
        seq![list_tree(Seq::empty()), mk_tree(JsKind::Block, Op::NoOp, false, Seq::empty())],
    );
    let ctor = call_tree(
        prop_access_tree(empty_arrow, "constructor"@),
        seq![eos_tree(str_tree("return this"@))],
    );
    var_decl_tree(VarDeclKind::Const, global, call_tree(ctor, Seq::empty()))
}

/// `const util = require("util");`
pub open spec fn import_util_decl_tree(util: JsTree) -> JsTree {
    var_decl_tree(VarDeclKind::Const, util, require_tree("util"@))
}

/// `typeof e === "function"`.
pub open spec fn is_function_tree(e: JsTree) -> JsTree {
    bin_tree(BinaryOp::EqEqEq, type_of_tree(e), str_tree("function"@))
}

/// `func.bind(this, ...args)` rewritten so that the bound function keeps its
/// target, `this` and arguments:
///
/// ```js
/// (stash = "BIND",
///  stash = { args: [...args], self: this, func: func },
///  stash = { f: stash.func.bind(stash.self, ...stash.args), ...stash },
///  typeof stash.f === "function" && (
///    stash.f[Symbol.for("functionless:BoundThis")] = stash.self,
///    stash.f[Symbol.for("functionless:BoundArgs")] = stash.args,
///    stash.f[Symbol.for("functionless:TargetFunction")] = stash.func),
///  stash)
/// ```
pub open spec fn wrap_bind_tree(stash: JsTree, global: JsTree, func: JsTree, this: JsTree, args: Seq<JsTree>) -> JsTree {
    let member_f = prop_access_tree(stash, "f"@);
    let member_func = prop_access_tree(stash, "func"@);
    let member_args = prop_access_tree(stash, "args"@);
    let member_self = prop_access_tree(stash, "self"@);
    seq_expr_tree(
        seq![
            assign_tree(stash, str_tree("BIND"@)),
            assign_tree(
                stash,
                object_tree(
                    seq![
                        kv_tree("args"@, mk_tree(JsKind::Array, Op::NoOp, false, args)),
                        kv_tree("self"@, this),
                        kv_tree("func"@, func),
                    ],
                ),
            ),
            assign_tree(
                stash,
                object_tree(
                    seq![
                        kv_tree(
                            "f"@,
                            call_tree(
                                prop_access_tree(member_func, "bind"@),
                                seq![eos_tree(member_self), spread_arg_tree(member_args)],
                            ),
                        ),
                        spread_prop_tree(stash),
                    ],
                ),
            ),
            bin_tree(
                BinaryOp::LogicalAnd,
                is_function_tree(member_f),
                seq_expr_tree(
                    seq![
                        set_symbol_tree(global, member_f, "functionless:BoundThis"@, member_self),
                        set_symbol_tree(global, member_f, "functionless:BoundArgs"@, member_args),
                        set_symbol_tree(global, member_f, "functionless:TargetFunction"@, member_func),
                    ],
                ),
            ),
            stash,
        ],
    )
}

/// `new clss(...args)` rewritten so that a proxy made by it is recorded
/// with its arguments:
///
/// ```js
/// (stash = "PROXY",
///  stash = { args: [...args] },
///  stash = { proxy: new clss(...stash.args), ...stash },
///  global.util.types.isProxy(stash.proxy) &&
///    (global.proxies = global.proxies ?? new global.WeakMap)
///      .set(stash.proxy, stash.args),
///  stash.proxy)
/// ```
pub open spec fn wrap_proxy_tree(stash: JsTree, global: JsTree, clss: JsTree, args: Seq<JsTree>) -> JsTree {
    let global_proxies = prop_access_tree(global, "proxies"@);
    let is_proxy = prop_access_tree(prop_access_tree(prop_access_tree(global, "util"@), "types"@), "isProxy"@);
    let member_proxy = prop_access_tree(stash, "proxy"@);
    let member_args = prop_access_tree(stash, "args"@);
    let proxies = assign_tree(
        global_proxies,
        bin_tree(BinaryOp::NullishCoalescing, global_proxies, new_tree(prop_access_tree(global, "WeakMap"@), None)),
    );
    seq_expr_tree(
        seq![
            assign_tree(stash, str_tree("PROXY"@)),
            assign_tree(stash, object_tree(seq![kv_tree("args"@, mk_tree(JsKind::Array, Op::NoOp, false, args))])),
            assign_tree(
                stash,
                object_tree(
                    seq![
                        kv_tree("proxy"@, new_tree(clss, Some(seq![spread_arg_tree(member_args)]))),
                        spread_prop_tree(stash),
                    ],
                ),
            ),
            bin_tree(
                BinaryOp::LogicalAnd,
                call_tree(is_proxy, seq![eos_tree(member_proxy)]),
                call_tree(
                    prop_access_tree(proxies, "set"@),
                    seq![eos_tree(member_proxy), eos_tree(member_args)],
                ),
            ),
            member_proxy,
        ],
    )
}

/// A rewritten `.bind` rebinds the stored function to the stored receiver
/// with the stored arguments spread after it: its third step is
/// `stash = { f: stash.func.bind(stash.self, ...stash.args), ...stash }`.
/// Before that the stash records the arguments in order, the receiver and
/// the function; after it the bound function is marked with its receiver,
/// arguments and target, and the whole expression gives the stash.
pub proof fn law_bind_spreads_stored_arguments(
    stash: JsTree,
    global: JsTree,
    func: JsTree,
    this: JsTree,
    args: Seq<JsTree>,
)
    ensures
        ({
            let r = wrap_bind_tree(stash, global, func, this, args);
            let record = r.children[1].children[1];
            let step = r.children[2];
            let f_prop = step.children[1].children[0];
            let call = f_prop.children[1];
            let bind_args = call.children[1].children;
            let marks = r.children[3].children[1].children;
            &&& r.kind == JsKind::SeqExpr
            &&& r.children.len() == 5
            &&& record.kind == JsKind::Object
            &&& record.children.len() == 3
            &&& record.children[0].children[0].text == "args"@
            &&& record.children[0].children[1].kind == JsKind::Array
            &&& record.children[0].children[1].children == args
            &&& record.children[1].children[0].text == "self"@
            &&& record.children[1].children[1] == this
            &&& record.children[2].children[0].text == "func"@
            &&& record.children[2].children[1] == func
            &&& step.kind == JsKind::Assign
            &&& step.children[0] == stash
            &&& f_prop.children[0].text == "f"@
            &&& call.kind == JsKind::Call
            &&& call.children[0] == prop_access_tree(prop_access_tree(stash, "func"@), "bind"@)
            &&& bind_args.len() == 2
            &&& bind_args[0].kind == JsKind::ExprOrSpread
            &&& !bind_args[0].flag
            &&& bind_args[0].children == seq![prop_access_tree(stash, "self"@)]
            &&& bind_args[1].kind == JsKind::ExprOrSpread
            &&& bind_args[1].flag
            &&& bind_args[1].children == seq![prop_access_tree(stash, "args"@)]
            &&& marks.len() == 3
            &&& marks[0].children[1] == prop_access_tree(stash, "self"@)
            &&& marks[1].children[1] == prop_access_tree(stash, "args"@)
            &&& marks[2].children[1] == prop_access_tree(stash, "func"@)
            &&& r.children[4] == stash
        }),
{
}

/// A rewritten `new clss(..)` constructs with the stored arguments spread,
/// and records the new proxy in `global.proxies` keyed by the proxy itself,
/// with its arguments as the value: `.set(stash.proxy, stash.args)`. The
/// whole expression gives the proxy.
pub proof fn law_proxy_is_the_key_of_its_record(stash: JsTree, global: JsTree, clss: JsTree, args: Seq<JsTree>)
    ensures
        ({
            let r = wrap_proxy_tree(stash, global, clss, args);
            let made = r.children[2].children[1].children[0].children[1];
            let guard = r.children[3];
            let set_call = guard.children[1];
            let table = set_call.children[0].children[0];
            let set_args = set_call.children[1].children;
            &&& r.kind == JsKind::SeqExpr
            &&& r.children.len() == 5
            &&& r.children[1].children[1].children[0].children[1].children == args
            &&& made.kind == JsKind::New
            &&& made.children[0] == clss
            &&& made.children[1].children.len() == 1
            &&& made.children[1].children[0].flag
            &&& made.children[1].children[0].children == seq![prop_access_tree(stash, "args"@)]
            &&& guard.kind == JsKind::Bin
            &&& guard.children[0].children[1].children == seq![eos_tree(prop_access_tree(stash, "proxy"@))]
            &&& set_call.kind == JsKind::Call
            &&& set_call.children[0].children[1].text == "set"@
            &&& table.kind == JsKind::Assign
            &&& table.children[0] == prop_access_tree(global, "proxies"@)
            &&& set_args.len() == 2
            &&& set_args[0].kind == JsKind::ExprOrSpread
            &&& !set_args[0].flag
            &&& set_args[0].children == seq![prop_access_tree(stash, "proxy"@)]
            &&& set_args[1].kind == JsKind::ExprOrSpread
            &&& !set_args[1].flag
            &&& set_args[1].children == seq![prop_access_tree(stash, "args"@)]
            &&& r.children[4] == prop_access_tree(stash, "proxy"@)
        }),
{
}

impl ClosureDecorator {
    /// A copy of the stash variable.
    fn stash_expr(&self) -> (r: JsNode)
        ensures
            r@ == self.stash@,
    {
        clone_node(&self.stash)
    }

    /// `stash.name`.
    fn stash_member(&self, name: &str) -> (r: JsNode)
        ensures
            r@ == prop_access_tree(self.stash@, name@),
    {
        prop_access_expr(self.stash_expr(), quote_ident(name))
    }

    /// `global.Symbol`.
    pub fn symbol_ref(&self) -> (r: JsNode)
        ensures
            r@ == symbol_ref_tree(self.global@),
    {
        prop_access_expr(clone_node(&self.global), quote_ident("Symbol"))
    }

    /// `global.Symbol.for(sym)`.
    pub fn symbol_for(&self, sym: &str) -> (r: JsNode)
        ensures
            r@ == symbol_for_tree(self.global@, sym@),
    {
        let callee = prop_access_expr(self.symbol_ref(), quote_ident("for"));
        call_expr(callee, vec1(eos(string_expr(sym))))
    }

    /// `on[global.Symbol.for(sym)] = to`.
    pub fn set_symbol_expr(&self, on: JsNode, sym: &str, to: JsNode) -> (r: JsNode)
        ensures
            r@ == set_symbol_tree(self.global@, on@, sym@, to@),
    {
        assign_expr(computed_member_expr(on, self.symbol_for(sym)), to)
    }

    /// Registers `func` with its AST and gives `func` back; see
    /// [`register_seq_tree`].
    pub fn register_ast_seq(&self, func: JsNode, ast: JsNode) -> (r: JsNode)
        ensures
            r@ == register_seq_tree(self.stash@, self.global@, func@, ast@),
    {
        let flag = assign_expr(self.stash_expr(), string_expr("REGISTER"));
        let store = assign_expr(self.stash_expr(), func);
        let set = self.set_symbol_expr(self.stash_expr(), "functionless:AST", ast);
        let mut exprs = vec3(flag, store, set);
        let ghost v = view_nodes(exprs@);
        let last = self.stash_expr();
        proof {
            crate::js::lemma_view_nodes_push(exprs@, last);
        }
        exprs.push(last);
        let r = mkv(JsKind::SeqExpr, Op::NoOp, false, exprs);
        proof {
            assert(v.push(self.stash@) =~= seq![
                assign_tree(self.stash@, str_tree("REGISTER"@)),
                assign_tree(self.stash@, func@),
                set_symbol_tree(self.global@, self.stash@, "functionless:AST"@, ast@),
                self.stash@,
            ]);
        }
        r
    }

    /// Registers `func` with its AST and gives `func` back.
    pub fn register_mut_ast(&self, func: JsNode, ast: JsNode) -> (r: JsNode)
        ensures
            r@ == register_seq_tree(self.stash@, self.global@, func@, ast@),
    {
        self.register_ast_seq(func, ast)
    }

    /// Registers the value of `expr` with its AST; see
    /// [`register_ref_seq_tree`].
    pub fn register_ref_ast_seq(&self, expr: JsNode, ast: JsNode) -> (r: JsNode)
        ensures
            r@ == register_ref_seq_tree(self.stash@, self.global@, expr@, ast@),
    {
        let flag = assign_expr(self.stash_expr(), string_expr("REGISTER_REF"));
        let set = self.set_symbol_expr(expr, "functionless:AST", ast);
        mkv(JsKind::SeqExpr, Op::NoOp, false, vec2(flag, set))
    }

    /// The statement that registers the value of `expr` with its AST.
    pub fn register_ast_stmt(&self, expr: JsNode, ast: JsNode) -> (r: JsNode)
        ensures
            r@ == register_stmt_tree(self.stash@, self.global@, expr@, ast@),
    {
        mk1(JsKind::ExprStmt, Op::NoOp, false, self.register_ref_ast_seq(expr, ast))
    }

    /// `kind ident = init;`; see [`var_decl_tree`].
    fn var_decl(kind: VarDeclKind, ident: &JsNode, init: JsNode) -> (r: JsNode)
        ensures
            r@ == var_decl_tree(kind, ident@, init@),
    {
        let name = mk_node(JsKind::BindingIdent, ident.span, Op::NoOp, ident.text.clone(), ident.flag, false, 0, Vec::new());
        proof {
            crate::js::lemma_view_nodes(Seq::<JsNode>::empty());
            assert(view_nodes(Seq::<JsNode>::empty()) =~= Seq::<JsTree>::empty());
        }
        let declarator = mk2(JsKind::VarDeclarator, Op::NoOp, false, name, init);
        mk1(JsKind::VarDecl, Op::Var(kind), false, declarator)
    }

    /// `let stash;`
    pub fn create_stash_decl(&self) -> (r: JsNode)
        ensures
            r@ == stash_decl_tree(self.stash@),
    {
        Self::var_decl(VarDeclKind::Let, &self.stash, crate::js::absent_node())
    }

    /// `const global = (() => {}).constructor("return this")();`: a private
    /// name for `globalThis`.
    pub fn create_global_this(&self) -> (r: JsNode)
        ensures
            r@ == global_this_decl_tree(self.global@),
    {
        let params = mkv(JsKind::List, Op::NoOp, false, Vec::new());
        let body = mkv(JsKind::Block, Op::NoOp, false, Vec::new());
        proof {
            crate::js::lemma_view_nodes(Seq::<JsNode>::empty());
            assert(view_nodes(Seq::<JsNode>::empty()) =~= Seq::<JsTree>::empty());
        }
        let empty_arrow = mk2(JsKind::Arrow, Op::NoOp, false, params, body);
        let ctor = call_expr(
            prop_access_expr(empty_arrow, quote_ident("constructor")),
            vec1(eos(string_expr("return this"))),
        );
        let init = call_expr(ctor, Vec::new());
        Self::var_decl(VarDeclKind::Const, &self.global, init)
    }

    /// `const util = require("util");`
    pub fn create_import_util(&self) -> (r: JsNode)
        ensures
            r@ == import_util_decl_tree(self.util@),
    {
        Self::var_decl(VarDeclKind::Const, &self.util, require_expr("util"))
    }

    /// `typeof e === "function"`.
    fn is_function(e: JsNode) -> (r: JsNode)
        ensures
            r@ == is_function_tree(e@),
    {
        bin_expr(BinaryOp::EqEqEq, type_of(e), string_expr("function"))
    }

    /// `func.bind(this, ...args)` rewritten; see [`wrap_bind_tree`]. `args`
    /// are the array elements of the arguments after the first.
    pub fn wrap_bind(&self, func: JsNode, this: JsNode, args: Vec<JsNode>) -> (r: JsNode)
        ensures
            r@ == wrap_bind_tree(self.stash@, self.global@, func@, this@, view_nodes(args@)),
    {
        let ghost (stash, global) = (self.stash@, self.global@);
        let ghost (fv, tv, av) = (func@, this@, view_nodes(args@));
        // stash = "BIND"
        let flag = assign_expr(self.stash_expr(), string_expr("BIND"));
        // stash = { args: [...args], self: this, func: func }
        let captured = mkv(
            JsKind::Object,
            Op::NoOp,
            false,
            vec3(
                kv_prop("args", mkv(JsKind::Array, Op::NoOp, false, args)),
                kv_prop("self", this),
                kv_prop("func", func),
            ),
        );
        let capture = assign_expr(self.stash_expr(), captured);
        // stash = { f: stash.func.bind(stash.self, ...stash.args), ...stash }
        let bind = call_expr(
            prop_access_expr(self.stash_member("func"), quote_ident("bind")),
            vec2(eos(self.stash_member("self")), mk1(JsKind::ExprOrSpread, Op::NoOp, true, self.stash_member("args"))),
        );
        let bound = mkv(
            JsKind::Object,
            Op::NoOp,
            false,
            vec2(kv_prop("f", bind), mk1(JsKind::Spread, Op::NoOp, false, self.stash_expr())),
        );
        let bind_step = assign_expr(self.stash_expr(), bound);
        // typeof stash.f === "function" && (stash.f[..] = .., ..)
        let marks = mkv(
            JsKind::SeqExpr,
            Op::NoOp,
            false,
            vec3(
                self.set_symbol_expr(self.stash_member("f"), "functionless:BoundThis", self.stash_member("self")),
                self.set_symbol_expr(self.stash_member("f"), "functionless:BoundArgs", self.stash_member("args")),
                self.set_symbol_expr(self.stash_member("f"), "functionless:TargetFunction", self.stash_member("func")),
            ),
        );
        let mark = bin_expr(BinaryOp::LogicalAnd, Self::is_function(self.stash_member("f")), marks);
        let mut exprs = vec3(flag, capture, bind_step);
        let ghost v3 = view_nodes(exprs@);
        proof {
            crate::js::lemma_view_nodes_push(exprs@, mark);
        }
        exprs.push(mark);
        let last = self.stash_expr();
        proof {
            crate::js::lemma_view_nodes_push(exprs@, last);
        }
        exprs.push(last);
        let r = mkv(JsKind::SeqExpr, Op::NoOp, false, exprs);
        proof {
            assert(r@.children =~= wrap_bind_tree(stash, global, fv, tv, av).children);
        }
        r
    }

    /// `new clss(...args)` rewritten; see [`wrap_proxy_tree`]. `args` are the
    /// array elements of the arguments.
    pub fn wrap_proxy(&self, clss: JsNode, args: Vec<JsNode>) -> (r: JsNode)
        ensures
            r@ == wrap_proxy_tree(self.stash@, self.global@, clss@, view_nodes(args@)),
    {
        let ghost (stash, global) = (self.stash@, self.global@);
        let ghost (cv, av) = (clss@, view_nodes(args@));
        // stash = "PROXY"
        let flag = assign_expr(self.stash_expr(), string_expr("PROXY"));
        // stash = { args: [...args] }
        let captured = mkv(
            JsKind::Object,
            Op::NoOp,
            false,
            vec1(kv_prop("args", mkv(JsKind::Array, Op::NoOp, false, args))),
        );
        let capture = assign_expr(self.stash_expr(), captured);
        // stash = { proxy: new clss(...stash.args), ...stash }
        let made = new_expr(clss, vec1(mk1(JsKind::ExprOrSpread, Op::NoOp, true, self.stash_member("args"))));
        let proxied = mkv(
            JsKind::Object,
            Op::NoOp,
            false,
            vec2(kv_prop("proxy", made), mk1(JsKind::Spread, Op::NoOp, false, self.stash_expr())),
        );
        let proxy_step = assign_expr(self.stash_expr(), proxied);
        // global.util.types.isProxy(stash.proxy) && (global.proxies = global.proxies ?? new global.WeakMap).set(..)
        let proxies = prop_access_expr(clone_node(&self.global), quote_ident("proxies"));
        let proxies2 = prop_access_expr(clone_node(&self.global), quote_ident("proxies"));
        let weak_map = new_expr_bare(prop_access_expr(clone_node(&self.global), quote_ident("WeakMap")));
        let table = assign_expr(proxies, bin_expr(BinaryOp::NullishCoalescing, proxies2, weak_map));
        let record = call_expr(
            prop_access_expr(table, quote_ident("set")),
            vec2(eos(self.stash_member("proxy")), eos(self.stash_member("args"))),
        );
        let util = prop_access_expr(clone_node(&self.global), quote_ident("util"));
        let is_proxy = prop_access_expr(prop_access_expr(util, quote_ident("types")), quote_ident("isProxy"));
        let test = call_expr(is_proxy, vec1(eos(self.stash_member("proxy"))));
        let mark = bin_expr(BinaryOp::LogicalAnd, test, record);
        let last = self.stash_member("proxy");
        let mut exprs = vec3(flag, capture, proxy_step);
        proof {
            crate::js::lemma_view_nodes_push(exprs@, mark);
        }
        exprs.push(mark);
        proof {
            crate::js::lemma_view_nodes_push(exprs@, last);
        }
        exprs.push(last);
        let r = mkv(JsKind::SeqExpr, Op::NoOp, false, exprs);
        proof {
            assert(r@.children =~= wrap_proxy_tree(stash, global, cv, av).children);
        }
        r
    }
}

} // verus!
