//! A common interface over class declarations and class expressions.
use vstd::prelude::*;

use crate::ast::Node;
use crate::js::{JsKind, JsNode};

verus! {

/// A class declaration or a class expression: both hold a class and may
/// name it.
pub trait ClassLike {
    /// Whether the value is a class declaration or expression with its
    /// name and its class.
    spec fn is_class_like(&self) -> bool;

    /// The kind of Functionless node it is emitted as: `ClassDecl` or
    /// `ClassExpr`.
    fn kind(&self) -> (r: Node)
        requires
            self.is_class_like(),
    ;

    /// The class's name; a class expression may have none.
    fn name(&self) -> (r: Option<&JsNode>)
        requires
            self.is_class_like(),
    ;

    /// The class itself, to change.
    fn class_mut(&mut self) -> (r: &mut JsNode)
        requires
            old(self).is_class_like(),
    ;

    /// The class itself.
    fn class(&self) -> (r: &JsNode)
        requires
            self.is_class_like(),
    ;
}

impl ClassLike for JsNode {
    /// A node of kind `ClassDecl` or `ClassExpr`: `[?Ident, Class]`.
    open spec fn is_class_like(&self) -> bool {
        (self.kind == JsKind::ClassDecl || self.kind == JsKind::ClassExpr) && self.children@.len() == 2
    }

    fn kind(&self) -> (r: Node)
        ensures
            r == (if self.kind == JsKind::ClassDecl {
                Node::ClassDecl
            } else {
                Node::ClassExpr
            }),
    {
        if self.kind == JsKind::ClassDecl {
            Node::ClassDecl
        } else {
            Node::ClassExpr
        }
    }

    fn name(&self) -> (r: Option<&JsNode>)
        ensures
            self.children@[0].kind == JsKind::Absent ==> r is None,
            self.children@[0].kind != JsKind::Absent ==> r == Some(&self.children@[0]),
    {
        if self.children[0].kind == JsKind::Absent {
            None
        } else {
            Some(&self.children[0])
        }
    }

    fn class_mut(&mut self) -> (r: &mut JsNode)
        ensures
            *r == old(self).children@[1],
            final(self).children@ == old(self).children@.update(1, *final(r)),
            final(self).kind == old(self).kind,
            final(self).span == old(self).span,
            final(self).op == old(self).op,
            final(self).text == old(self).text,
            final(self).flag == old(self).flag,
            final(self).flag2 == old(self).flag2,
            final(self).num == old(self).num,
    {
        &mut self.children[1]
    }

    fn class(&self) -> (r: &JsNode)
        ensures
            *r == self.children@[1],
    {
        &self.children[1]
    }
}

} // verus!
