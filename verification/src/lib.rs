//! Decorates the closures and classes of a JavaScript module with a
//! description of their own syntax tree (a "Functionless AST").
pub mod ast;
pub mod class_like;
pub mod closure_decorator;
pub mod decorate;
pub mod emit;
pub mod js;
pub mod js_util;
pub mod lexical_scope;
pub mod method_like;
pub mod parse;
pub mod parse_expr;
pub mod parse_fn;
pub mod parse_pat;
pub mod parse_stmt;
pub mod prepend;
pub mod span;
pub mod to_functionless_ast;
pub mod validate;
pub mod virtual_machine;
pub mod wrap_closure;
