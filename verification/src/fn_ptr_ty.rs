//! The function pointer type node, like `fn(T) -> U`.
use vstd::prelude::*;

use crate::ids::SpanId;
use crate::ty::{CommonSynTyData, SynTyData, SynTyKind};

verus! {

/// Signature facts shared by every callable: whether it is `unsafe`,
/// whether it is `extern`, and how many parameters it takes.
#[derive(Debug, Clone, Copy, PartialEq, Eq, Hash, Structural)]
pub struct CommonCallableData {
    pub is_unsafe: bool,
    pub is_extern: bool,
    pub param_count: usize,
}

/// A function pointer type like `fn(T) -> U`.
#[derive(Debug, Clone, Copy, PartialEq, Eq, Hash, Structural)]
pub struct FnPtrTy {
    pub data: CommonSynTyData,
    pub callable_data: CommonCallableData,
}

impl FnPtrTy {
    /// Builds a function pointer type node from its type header and its
    /// callable signature facts.
    pub fn new(data: CommonSynTyData, callable_data: CommonCallableData) -> (r: Self)
        ensures
            r.data == data,
            r.callable_data == callable_data,
    {
        FnPtrTy { data, callable_data }
    }
}

impl<'ast> SynTyData<'ast> for FnPtrTy {
    fn as_kind(&'ast self) -> (r: SynTyKind<'ast>)
        ensures
            r == SynTyKind::FnPtr(self),
    {
        SynTyKind::FnPtr(self)
    }

    fn span(&self) -> (r: SpanId)
        ensures
            r == self.data.span,
    {
        self.data.span
    }
}

} // verus!
