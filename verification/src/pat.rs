//! The pattern category of the node-kind model.
//!
//! Every concrete pattern node carries a [`CommonPatData`] header holding the
//! stable identifier of its span, and projects into the tagged union
//! [`PatKind`], which borrows the node from the arena. The union is closed
//! for matching but may gain variants in a future version, so plugin code
//! must not assume exhaustiveness.
use vstd::prelude::*;

use crate::ids::SpanId;

verus! {

/// Header shared by every pattern node: the stable identifier of the
/// pattern's span.
#[derive(Debug, Clone, Copy, PartialEq, Eq, Hash, Structural)]
pub struct CommonPatData {
    pub span: SpanId,
}

impl CommonPatData {
    /// Builds the shared header from the span identifier.
    pub fn new(span: SpanId) -> (r: Self)
        ensures
            r.span == span,
    {
        CommonPatData { span }
    }
}

/// A binding pattern like `x` or `mut x`.
#[derive(Debug, Clone, Copy, PartialEq, Eq, Hash, Structural)]
pub struct IdentPat {
    pub data: CommonPatData,
    pub var: crate::ids::VarId,
    pub is_mut: bool,
    pub is_ref: bool,
}

/// The wildcard pattern `_`.
#[derive(Debug, Clone, Copy, PartialEq, Eq, Hash, Structural)]
pub struct WildcardPat {
    pub data: CommonPatData,
}

/// The rest pattern `..`.
#[derive(Debug, Clone, Copy, PartialEq, Eq, Hash, Structural)]
pub struct RestPat {
    pub data: CommonPatData,
}

/// A reference pattern like `&pat` or `&mut pat`.
#[derive(Debug, Clone, Copy, PartialEq, Eq, Hash, Structural)]
pub struct RefPat {
    pub data: CommonPatData,
    pub is_mut: bool,
}

/// A struct pattern like `S { field, .. }`.
#[derive(Debug, Clone, Copy, PartialEq, Eq, Hash, Structural)]
pub struct StructPat {
    pub data: CommonPatData,
    pub ty: crate::ids::TyDefId,
    pub field_count: usize,
    pub has_rest: bool,
}

/// The tagged union over all pattern variants, each borrowing its node from
/// the arena. May gain variants in a future version.
#[derive(Debug, Clone, Copy)]
#[non_exhaustive]
pub enum PatKind<'ast> {
    Ident(&'ast IdentPat),
    Wildcard(&'ast WildcardPat),
    Rest(&'ast RestPat),
    Ref(&'ast RefPat),
    Struct(&'ast StructPat),
}

impl<'ast> PatKind<'ast> {
    /// The shared header of the node behind this kind value, projected by an
    /// explicit case split over every variant.
    pub fn common_data(&self) -> (r: CommonPatData)
        ensures
            r == self.spec_common_data(),
    {
        match self {
            PatKind::Ident(data) => data.data,
            PatKind::Wildcard(data) => data.data,
            PatKind::Rest(data) => data.data,
            PatKind::Ref(data) => data.data,
            PatKind::Struct(data) => data.data,
        }
    }

    /// The shared header of the node behind this kind value.
    pub open spec fn spec_common_data(self) -> CommonPatData {
        match self {
            PatKind::Ident(data) => data.data,
            PatKind::Wildcard(data) => data.data,
            PatKind::Rest(data) => data.data,
            PatKind::Ref(data) => data.data,
            PatKind::Struct(data) => data.data,
        }
    }

    /// The stable span identifier of the node behind this kind value,
    /// dispatched uniformly over every variant.
    pub fn span(&self) -> (r: SpanId)
        ensures
            r == self.spec_common_data().span,
    {
        self.common_data().span
    }
}

/// A pattern node held by value, as the conversion facade materializes it
/// into the arena; [`PatKind`] is the borrowed projection of one.
#[derive(Debug, Clone, Copy, PartialEq, Eq, Hash, Structural)]
pub enum PatNode {
    Ident(IdentPat),
    Wildcard(WildcardPat),
    Rest(RestPat),
    Ref(RefPat),
    Struct(StructPat),
}

impl PatNode {
    /// Projects this node into the borrowed tagged union, by an explicit
    /// case split over every variant.
    pub fn as_pat<'ast>(&'ast self) -> (r: PatKind<'ast>)
        ensures
            match *self {
                PatNode::Ident(n) => r matches PatKind::Ident(m) && *m == n,
                PatNode::Wildcard(n) => r matches PatKind::Wildcard(m) && *m == n,
                PatNode::Rest(n) => r matches PatKind::Rest(m) && *m == n,
                PatNode::Ref(n) => r matches PatKind::Ref(m) && *m == n,
                PatNode::Struct(n) => r matches PatKind::Struct(m) && *m == n,
            },
    {
        match self {
            PatNode::Ident(n) => PatKind::Ident(n),
            PatNode::Wildcard(n) => PatKind::Wildcard(n),
            PatNode::Rest(n) => PatKind::Rest(n),
            PatNode::Ref(n) => PatKind::Ref(n),
            PatNode::Struct(n) => PatKind::Struct(n),
        }
    }
}

/// Capability shared by every concrete pattern node: span access and
/// projection into the category's tagged union.
pub trait PatData<'ast>: core::fmt::Debug {
    /// The stable identifier of this pattern's span.
    fn span(&self) -> SpanId;

    /// Projects this node into the pattern tagged union.
    fn as_pat(&'ast self) -> PatKind<'ast>;
}

impl<'ast> PatData<'ast> for IdentPat {
    fn span(&self) -> (r: SpanId)
        ensures
            r == self.data.span,
    {
        self.data.span
    }

    fn as_pat(&'ast self) -> (r: PatKind<'ast>)
        ensures
            r == PatKind::Ident(self),
    {
        PatKind::Ident(self)
    }
}

impl<'ast> PatData<'ast> for WildcardPat {
    fn span(&self) -> (r: SpanId)
        ensures
            r == self.data.span,
    {
        self.data.span
    }

    fn as_pat(&'ast self) -> (r: PatKind<'ast>)
        ensures
            r == PatKind::Wildcard(self),
    {
        PatKind::Wildcard(self)
    }
}

impl<'ast> PatData<'ast> for RestPat {
    fn span(&self) -> (r: SpanId)
        ensures
            r == self.data.span,
    {
        self.data.span
    }

    fn as_pat(&'ast self) -> (r: PatKind<'ast>)
        ensures
            r == PatKind::Rest(self),
    {
        PatKind::Rest(self)
    }
}

impl<'ast> PatData<'ast> for RefPat {
    fn span(&self) -> (r: SpanId)
        ensures
            r == self.data.span,
    {
        self.data.span
    }

    fn as_pat(&'ast self) -> (r: PatKind<'ast>)
        ensures
            r == PatKind::Ref(self),
    {
        PatKind::Ref(self)
    }
}

impl<'ast> PatData<'ast> for StructPat {
    fn span(&self) -> (r: SpanId)
        ensures
            r == self.data.span,
    {
        self.data.span
    }

    fn as_pat(&'ast self) -> (r: PatKind<'ast>)
        ensures
            r == PatKind::Struct(self),
    {
        PatKind::Struct(self)
    }
}

} // verus!
