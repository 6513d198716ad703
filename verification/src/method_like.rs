//! A common interface over the methods of classes and of object literals.
use vstd::prelude::*;

use crate::js::{JsKind, JsNode, MethodKind, Op, Span};

verus! {

/// A method of a class or of an object literal: a key and a function.
pub trait MethodLike {
    /// Whether the value is a method with its key and its function.
    spec fn is_method_like(&self) -> bool;

    /// The method's function.
    fn function(&self) -> (r: &JsNode)
        requires
            self.is_method_like(),
    ;

    /// Whether it is a plain method, a getter or a setter.
    fn kind(&self) -> (r: MethodKind)
        requires
            self.is_method_like(),
    ;

    /// The span of a class method; a method of an object literal has none
    /// of its own.
    fn span(&self) -> (r: Option<&Span>)
        requires
            self.is_method_like(),
    ;

    /// The method's key.
    fn key(&self) -> (r: &JsNode)
        requires
            self.is_method_like(),
    ;

    /// Whether the method is static (a method of an object literal is not).
    fn is_static(&self) -> (r: bool)
        requires
            self.is_method_like(),
    ;
}

impl MethodLike for JsNode {
    /// A node of kind `ClassMethod` (`[key, Function]`, its kind in `op`,
    /// `flag`: static) or `PropMethod` (`[key, Function]`).
    open spec fn is_method_like(&self) -> bool {
        &&& self.kind == JsKind::ClassMethod || self.kind == JsKind::PropMethod
        &&& self.children@.len() == 2
        &&& self.kind == JsKind::ClassMethod ==> self.op is Method
    }

    fn function(&self) -> (r: &JsNode)
        ensures
            *r == self.children@[1],
    {
        &self.children[1]
    }

    fn kind(&self) -> (r: MethodKind)
        ensures
            r == (if self.kind == JsKind::ClassMethod {
                self.op->Method_0
            } else {
                MethodKind::Method
            }),
    {
        match self.op {
            Op::Method(k) if self.kind == JsKind::ClassMethod => k,
            _ => MethodKind::Method,
        }
    }

    fn span(&self) -> (r: Option<&Span>)
        ensures
            self.kind == JsKind::ClassMethod ==> r == Some(&self.span),
            self.kind != JsKind::ClassMethod ==> r is None,
    {
        if self.kind == JsKind::ClassMethod {
            Some(&self.span)
        } else {
            None
        }
    }

    fn key(&self) -> (r: &JsNode)
        ensures
            *r == self.children@[0],
    {
        &self.children[0]
    }

    fn is_static(&self) -> (r: bool)
        ensures
            r == (self.kind == JsKind::ClassMethod && self.flag),
    {
        self.kind == JsKind::ClassMethod && self.flag
    }
}

} // verus!
