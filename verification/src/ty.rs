//! The type categories of the node-kind model.
//!
//! Two parallel hierarchies exist: syntactic types ([`SynTyKind`]) represent
//! a type as written in the source, including an inferred placeholder, while
//! semantic types ([`SemTyKind`]) represent a type as resolved by the host,
//! including alias and unstable placeholders. Both unions are closed for
//! matching but may gain variants in a future version.
//!
//! The classification predicates on [`SynTyKind`] are fixed membership tests
//! over the variant list; they are pure, total, and must be kept in sync
//! whenever a variant is added. [`classification`] states the exact
//! predicate profile of every variant.
use vstd::prelude::*;

use crate::ids::{GenericId, ItemId, SpanId, TyDefId};

pub use crate::fn_ptr_ty::FnPtrTy;

verus! {

/// Header shared by every syntactic type node: the stable identifier of the
/// span the type was written at.
#[derive(Debug, Clone, Copy, PartialEq, Eq, Hash, Structural)]
pub struct CommonSynTyData {
    pub span: SpanId,
}

impl CommonSynTyData {
    /// Builds the shared header of a type written in the source, from the
    /// identifier of the span it was written at.
    pub fn new_syntactic(span: SpanId) -> (r: Self)
        ensures
            r.span == span,
    {
        CommonSynTyData { span }
    }
}

/// The `bool` type.
#[derive(Debug, Clone, Copy, PartialEq, Eq, Hash, Structural)]
pub struct BoolTy {
    pub data: CommonSynTyData,
}

/// A numeric type like `u32` or `i64`.
#[derive(Debug, Clone, Copy, PartialEq, Eq, Hash, Structural)]
pub struct NumTy {
    pub data: CommonSynTyData,
}

/// A textual type like `char` or `str`.
#[derive(Debug, Clone, Copy, PartialEq, Eq, Hash, Structural)]
pub struct TextTy {
    pub data: CommonSynTyData,
}

/// The never type `!`.
#[derive(Debug, Clone, Copy, PartialEq, Eq, Hash, Structural)]
pub struct NeverTy {
    pub data: CommonSynTyData,
}

/// A tuple type like `()` or `(T, U)`.
#[derive(Debug, Clone, Copy, PartialEq, Eq, Hash, Structural)]
pub struct TupleTy {
    pub data: CommonSynTyData,
}

/// An array type with a known size, like `[T; N]`.
#[derive(Debug, Clone, Copy, PartialEq, Eq, Hash, Structural)]
pub struct ArrayTy {
    pub data: CommonSynTyData,
}

/// A variable-length slice type like `[T]`.
#[derive(Debug, Clone, Copy, PartialEq, Eq, Hash, Structural)]
pub struct SliceTy {
    pub data: CommonSynTyData,
}

/// A closure type.
#[derive(Debug, Clone, Copy, PartialEq, Eq, Hash, Structural)]
pub struct ClosureTy {
    pub data: CommonSynTyData,
}

/// A reference type like `&T` or `&mut T`.
#[derive(Debug, Clone, Copy, PartialEq, Eq, Hash, Structural)]
pub struct RefTy {
    pub data: CommonSynTyData,
    pub is_mut: bool,
}

/// A raw pointer type like `*const T` or `*mut T`.
#[derive(Debug, Clone, Copy, PartialEq, Eq, Hash, Structural)]
pub struct RawPtrTy {
    pub data: CommonSynTyData,
    pub is_mut: bool,
}

/// A trait object type like `dyn Trait`.
#[derive(Debug, Clone, Copy, PartialEq, Eq, Hash, Structural)]
pub struct TraitObjTy {
    pub data: CommonSynTyData,
}

/// An `impl Trait` type, in argument or return position.
#[derive(Debug, Clone, Copy, PartialEq, Eq, Hash, Structural)]
pub struct ImplTraitTy {
    pub data: CommonSynTyData,
}

/// An inferred type, written `_`.
#[derive(Debug, Clone, Copy, PartialEq, Eq, Hash, Structural)]
pub struct InferredTy {
    pub data: CommonSynTyData,
}

/// A type named by a path, like `Vec<u8>` or `Self`.
#[derive(Debug, Clone, Copy, PartialEq, Eq, Hash, Structural)]
pub struct PathTy {
    pub data: CommonSynTyData,
}

/// The tagged union over all syntactic type variants, each borrowing its
/// node from the arena. May gain variants in a future version.
#[derive(Debug, Clone, Copy)]
#[non_exhaustive]
pub enum SynTyKind<'ast> {
    /// The `bool` type.
    Bool(&'ast BoolTy),
    /// A numeric type.
    Num(&'ast NumTy),
    /// A textual type.
    Text(&'ast TextTy),
    /// The never type `!`.
    Never(&'ast NeverTy),
    /// A tuple type.
    Tuple(&'ast TupleTy),
    /// An array type with a known size.
    Array(&'ast ArrayTy),
    /// A variable-length slice type.
    Slice(&'ast SliceTy),
    /// A closure type.
    Closure(&'ast ClosureTy),
    /// A reference type.
    Ref(&'ast RefTy),
    /// A raw pointer type.
    RawPtr(&'ast RawPtrTy),
    /// A function pointer type.
    FnPtr(&'ast FnPtrTy),
    /// A trait object type.
    TraitObj(&'ast TraitObjTy),
    /// An `impl Trait` type.
    ImplTrait(&'ast ImplTraitTy),
    /// An inferred type.
    Inferred(&'ast InferredTy),
    /// A type named by a path.
    Path(&'ast PathTy),
}

impl<'ast> SynTyKind<'ast> {
    /// Membership of the primitive classification: `bool`, numeric, textual
    /// and never types.
    pub open spec fn is_primitive_ty_spec(self) -> bool {
        self is Bool || self is Num || self is Text || self is Never
    }

    /// Membership of the sequence classification: tuple, array and slice
    /// types.
    pub open spec fn is_sequence_ty_spec(self) -> bool {
        self is Tuple || self is Array || self is Slice
    }

    /// Membership of the function classification: function pointer and
    /// closure types.
    pub open spec fn is_fn_spec(self) -> bool {
        self is FnPtr || self is Closure
    }

    /// Membership of the pointer classification: reference, raw pointer and
    /// function pointer types.
    pub open spec fn is_ptr_ty_spec(self) -> bool {
        self is Ref || self is RawPtr || self is FnPtr
    }

    /// Membership of the trait classification: trait object and `impl Trait`
    /// types.
    pub open spec fn is_trait_ty_spec(self) -> bool {
        self is TraitObj || self is ImplTrait
    }

    /// Membership of the syntax-only classification: the inferred type.
    pub open spec fn is_inferred_spec(self) -> bool {
        self is Inferred
    }

    /// Returns `true` if this is a primitive type.
    #[must_use]
    pub fn is_primitive_ty(&self) -> (r: bool)
        ensures
            r == self.is_primitive_ty_spec(),
    {
        matches!(self, SynTyKind::Bool(..) | SynTyKind::Num(..) | SynTyKind::Text(..)
            | SynTyKind::Never(..))
    }

    /// Returns `true` if this is a sequence type.
    #[must_use]
    pub fn is_sequence_ty(&self) -> (r: bool)
        ensures
            r == self.is_sequence_ty_spec(),
    {
        matches!(self, SynTyKind::Tuple(..) | SynTyKind::Array(..) | SynTyKind::Slice(..))
    }

    /// Returns `true` if this is a function type.
    #[must_use]
    pub fn is_fn(&self) -> (r: bool)
        ensures
            r == self.is_fn_spec(),
    {
        matches!(self, SynTyKind::FnPtr(..) | SynTyKind::Closure(..))
    }

    /// Returns `true` if this is a pointer type.
    #[must_use]
    pub fn is_ptr_ty(&self) -> (r: bool)
        ensures
            r == self.is_ptr_ty_spec(),
    {
        matches!(self, SynTyKind::Ref(..) | SynTyKind::RawPtr(..) | SynTyKind::FnPtr(..))
    }

    /// Returns `true` if this is a trait type.
    #[must_use]
    pub fn is_trait_ty(&self) -> (r: bool)
        ensures
            r == self.is_trait_ty_spec(),
    {
        matches!(self, SynTyKind::TraitObj(..) | SynTyKind::ImplTrait(..))
    }

    /// Returns `true` if this is a type that only exists in syntax, like an
    /// inferred type.
    #[must_use]
    pub fn is_inferred(&self) -> (r: bool)
        ensures
            r == self.is_inferred_spec(),
    {
        matches!(self, SynTyKind::Inferred(..))
    }

    /// The shared header of the node behind this kind value.
    pub open spec fn spec_common_data(self) -> CommonSynTyData {
        match self {
            SynTyKind::Bool(data) => data.data,
            SynTyKind::Num(data) => data.data,
            SynTyKind::Text(data) => data.data,
            SynTyKind::Never(data) => data.data,
            SynTyKind::Tuple(data) => data.data,
            SynTyKind::Array(data) => data.data,
            SynTyKind::Slice(data) => data.data,
            SynTyKind::Closure(data) => data.data,
            SynTyKind::Ref(data) => data.data,
            SynTyKind::RawPtr(data) => data.data,
            SynTyKind::FnPtr(data) => data.data,
            SynTyKind::TraitObj(data) => data.data,
            SynTyKind::ImplTrait(data) => data.data,
            SynTyKind::Inferred(data) => data.data,
            SynTyKind::Path(data) => data.data,
        }
    }

    /// The stable span identifier of the node behind this kind value,
    /// dispatched by an explicit case split generated uniformly for every
    /// variant.
    pub fn span(&self) -> (r: SpanId)
        ensures
            r == self.spec_common_data().span,
    {
        match self {
            SynTyKind::Bool(data) => data.span(),
            SynTyKind::Num(data) => data.span(),
            SynTyKind::Text(data) => data.span(),
            SynTyKind::Never(data) => data.span(),
            SynTyKind::Tuple(data) => data.span(),
            SynTyKind::Array(data) => data.span(),
            SynTyKind::Slice(data) => data.span(),
            SynTyKind::Closure(data) => data.span(),
            SynTyKind::Ref(data) => data.span(),
            SynTyKind::RawPtr(data) => data.span(),
            SynTyKind::FnPtr(data) => data.span(),
            SynTyKind::TraitObj(data) => data.span(),
            SynTyKind::ImplTrait(data) => data.span(),
            SynTyKind::Inferred(data) => data.span(),
            SynTyKind::Path(data) => data.span(),
        }
    }
}

/// Every syntactic type variant satisfies exactly the classification
/// predicates of its group: primitives are only primitive, sequences only
/// sequence, trait types only trait-like, the inferred placeholder only
/// syntax-only, and path types none. Function pointers are the one variant
/// in two groups: they are both function and pointer types; references, raw
/// pointers and closures are in exactly one.
pub proof fn classification(k: SynTyKind<'_>)
    ensures
        k.is_primitive_ty_spec() <==> (k is Bool || k is Num || k is Text || k is Never),
        k.is_sequence_ty_spec() <==> (k is Tuple || k is Array || k is Slice),
        k.is_fn_spec() <==> (k is FnPtr || k is Closure),
        k.is_ptr_ty_spec() <==> (k is Ref || k is RawPtr || k is FnPtr),
        k.is_trait_ty_spec() <==> (k is TraitObj || k is ImplTrait),
        k.is_inferred_spec() <==> k is Inferred,
        k.is_primitive_ty_spec() ==> !k.is_sequence_ty_spec() && !k.is_fn_spec()
            && !k.is_ptr_ty_spec() && !k.is_trait_ty_spec() && !k.is_inferred_spec(),
        k.is_sequence_ty_spec() ==> !k.is_primitive_ty_spec() && !k.is_fn_spec()
            && !k.is_ptr_ty_spec() && !k.is_trait_ty_spec() && !k.is_inferred_spec(),
        k.is_trait_ty_spec() ==> !k.is_primitive_ty_spec() && !k.is_sequence_ty_spec()
            && !k.is_fn_spec() && !k.is_ptr_ty_spec() && !k.is_inferred_spec(),
        k.is_inferred_spec() ==> !k.is_primitive_ty_spec() && !k.is_sequence_ty_spec()
            && !k.is_fn_spec() && !k.is_ptr_ty_spec() && !k.is_trait_ty_spec(),
        k.is_fn_spec() && k.is_ptr_ty_spec() <==> k is FnPtr,
        k is Path ==> !k.is_primitive_ty_spec() && !k.is_sequence_ty_spec() && !k.is_fn_spec()
            && !k.is_ptr_ty_spec() && !k.is_trait_ty_spec() && !k.is_inferred_spec(),
{
}

/// Capability shared by every concrete syntactic type node: projection into
/// the category's tagged union and span access.
pub trait SynTyData<'ast>: core::fmt::Debug {
    /// Projects this node into the syntactic type tagged union.
    fn as_kind(&'ast self) -> SynTyKind<'ast>;

    /// The stable identifier of the span of the type, as written in the
    /// source code.
    fn span(&self) -> SpanId;
}

impl<'ast> SynTyData<'ast> for BoolTy {
    fn as_kind(&'ast self) -> (r: SynTyKind<'ast>)
        ensures
            r == SynTyKind::Bool(self),
    {
        SynTyKind::Bool(self)
    }

    fn span(&self) -> (r: SpanId)
        ensures
            r == self.data.span,
    {
        self.data.span
    }
}

impl<'ast> SynTyData<'ast> for NumTy {
    fn as_kind(&'ast self) -> (r: SynTyKind<'ast>)
        ensures
            r == SynTyKind::Num(self),
    {
        SynTyKind::Num(self)
    }

    fn span(&self) -> (r: SpanId)
        ensures
            r == self.data.span,
    {
        self.data.span
    }
}

impl<'ast> SynTyData<'ast> for TextTy {
    fn as_kind(&'ast self) -> (r: SynTyKind<'ast>)
        ensures
            r == SynTyKind::Text(self),
    {
        SynTyKind::Text(self)
    }

    fn span(&self) -> (r: SpanId)
        ensures
            r == self.data.span,
    {
        self.data.span
    }
}

impl<'ast> SynTyData<'ast> for NeverTy {
    fn as_kind(&'ast self) -> (r: SynTyKind<'ast>)
        ensures
            r == SynTyKind::Never(self),
    {
        SynTyKind::Never(self)
    }

    fn span(&self) -> (r: SpanId)
        ensures
            r == self.data.span,
    {
        self.data.span
    }
}

impl<'ast> SynTyData<'ast> for TupleTy {
    fn as_kind(&'ast self) -> (r: SynTyKind<'ast>)
        ensures
            r == SynTyKind::Tuple(self),
    {
        SynTyKind::Tuple(self)
    }

    fn span(&self) -> (r: SpanId)
        ensures
            r == self.data.span,
    {
        self.data.span
    }
}

impl<'ast> SynTyData<'ast> for ArrayTy {
    fn as_kind(&'ast self) -> (r: SynTyKind<'ast>)
        ensures
            r == SynTyKind::Array(self),
    {
        SynTyKind::Array(self)
    }

    fn span(&self) -> (r: SpanId)
        ensures
            r == self.data.span,
    {
        self.data.span
    }
}

impl<'ast> SynTyData<'ast> for SliceTy {
    fn as_kind(&'ast self) -> (r: SynTyKind<'ast>)
        ensures
            r == SynTyKind::Slice(self),
    {
        SynTyKind::Slice(self)
    }

    fn span(&self) -> (r: SpanId)
        ensures
            r == self.data.span,
    {
        self.data.span
    }
}

impl<'ast> SynTyData<'ast> for ClosureTy {
    fn as_kind(&'ast self) -> (r: SynTyKind<'ast>)
        ensures
            r == SynTyKind::Closure(self),
    {
        SynTyKind::Closure(self)
    }

    fn span(&self) -> (r: SpanId)
        ensures
            r == self.data.span,
    {
        self.data.span
    }
}

impl<'ast> SynTyData<'ast> for RefTy {
    fn as_kind(&'ast self) -> (r: SynTyKind<'ast>)
        ensures
            r == SynTyKind::Ref(self),
    {
        SynTyKind::Ref(self)
    }

    fn span(&self) -> (r: SpanId)
        ensures
            r == self.data.span,
    {
        self.data.span
    }
}

impl<'ast> SynTyData<'ast> for RawPtrTy {
    fn as_kind(&'ast self) -> (r: SynTyKind<'ast>)
        ensures
            r == SynTyKind::RawPtr(self),
    {
        SynTyKind::RawPtr(self)
    }

    fn span(&self) -> (r: SpanId)
        ensures
            r == self.data.span,
    {
        self.data.span
    }
}

impl<'ast> SynTyData<'ast> for TraitObjTy {
    fn as_kind(&'ast self) -> (r: SynTyKind<'ast>)
        ensures
            r == SynTyKind::TraitObj(self),
    {
        SynTyKind::TraitObj(self)
    }

    fn span(&self) -> (r: SpanId)
        ensures
            r == self.data.span,
    {
        self.data.span
    }
}

impl<'ast> SynTyData<'ast> for ImplTraitTy {
    fn as_kind(&'ast self) -> (r: SynTyKind<'ast>)
        ensures
            r == SynTyKind::ImplTrait(self),
    {
        SynTyKind::ImplTrait(self)
    }

    fn span(&self) -> (r: SpanId)
        ensures
            r == self.data.span,
    {
        self.data.span
    }
}

impl<'ast> SynTyData<'ast> for InferredTy {
    fn as_kind(&'ast self) -> (r: SynTyKind<'ast>)
        ensures
            r == SynTyKind::Inferred(self),
    {
        SynTyKind::Inferred(self)
    }

    fn span(&self) -> (r: SpanId)
        ensures
            r == self.data.span,
    {
        self.data.span
    }
}

impl<'ast> SynTyData<'ast> for PathTy {
    fn as_kind(&'ast self) -> (r: SynTyKind<'ast>)
        ensures
            r == SynTyKind::Path(self),
    {
        SynTyKind::Path(self)
    }

    fn span(&self) -> (r: SpanId)
        ensures
            r == self.data.span,
    {
        self.data.span
    }
}

/// A syntactic type node held by value, as the conversion facade
/// materializes it into the arena; [`SynTyKind`] is the borrowed
/// projection of one.
#[derive(Debug, Clone, Copy, PartialEq, Eq, Hash, Structural)]
pub enum SynTyNode {
    Bool(BoolTy),
    Num(NumTy),
    Text(TextTy),
    Never(NeverTy),
    Tuple(TupleTy),
    Array(ArrayTy),
    Slice(SliceTy),
    Closure(ClosureTy),
    Ref(RefTy),
    RawPtr(RawPtrTy),
    FnPtr(FnPtrTy),
    TraitObj(TraitObjTy),
    ImplTrait(ImplTraitTy),
    Inferred(InferredTy),
    Path(PathTy),
}

impl SynTyNode {
    /// Projects this node into the borrowed tagged union, by an explicit
    /// case split over every variant.
    pub fn as_kind<'ast>(&'ast self) -> (r: SynTyKind<'ast>)
        ensures
            match *self {
                SynTyNode::Bool(n) => r matches SynTyKind::Bool(m) && *m == n,
                SynTyNode::Num(n) => r matches SynTyKind::Num(m) && *m == n,
                SynTyNode::Text(n) => r matches SynTyKind::Text(m) && *m == n,
                SynTyNode::Never(n) => r matches SynTyKind::Never(m) && *m == n,
                SynTyNode::Tuple(n) => r matches SynTyKind::Tuple(m) && *m == n,
                SynTyNode::Array(n) => r matches SynTyKind::Array(m) && *m == n,
                SynTyNode::Slice(n) => r matches SynTyKind::Slice(m) && *m == n,
                SynTyNode::Closure(n) => r matches SynTyKind::Closure(m) && *m == n,
                SynTyNode::Ref(n) => r matches SynTyKind::Ref(m) && *m == n,
                SynTyNode::RawPtr(n) => r matches SynTyKind::RawPtr(m) && *m == n,
                SynTyNode::FnPtr(n) => r matches SynTyKind::FnPtr(m) && *m == n,
                SynTyNode::TraitObj(n) => r matches SynTyKind::TraitObj(m) && *m == n,
                SynTyNode::ImplTrait(n) => r matches SynTyKind::ImplTrait(m) && *m == n,
                SynTyNode::Inferred(n) => r matches SynTyKind::Inferred(m) && *m == n,
                SynTyNode::Path(n) => r matches SynTyKind::Path(m) && *m == n,
            },
    {
        match self {
            SynTyNode::Bool(n) => SynTyKind::Bool(n),
            SynTyNode::Num(n) => SynTyKind::Num(n),
            SynTyNode::Text(n) => SynTyKind::Text(n),
            SynTyNode::Never(n) => SynTyKind::Never(n),
            SynTyNode::Tuple(n) => SynTyKind::Tuple(n),
            SynTyNode::Array(n) => SynTyKind::Array(n),
            SynTyNode::Slice(n) => SynTyKind::Slice(n),
            SynTyNode::Closure(n) => SynTyKind::Closure(n),
            SynTyNode::Ref(n) => SynTyKind::Ref(n),
            SynTyNode::RawPtr(n) => SynTyKind::RawPtr(n),
            SynTyNode::FnPtr(n) => SynTyKind::FnPtr(n),
            SynTyNode::TraitObj(n) => SynTyKind::TraitObj(n),
            SynTyNode::ImplTrait(n) => SynTyKind::ImplTrait(n),
            SynTyNode::Inferred(n) => SynTyKind::Inferred(n),
            SynTyNode::Path(n) => SynTyKind::Path(n),
        }
    }
}

/// The semantic `bool` type.
#[derive(Debug, Clone, Copy, PartialEq, Eq, Hash, Structural)]
pub struct SemBoolTy;

/// A semantic numeric type.
#[derive(Debug, Clone, Copy, PartialEq, Eq, Hash, Structural)]
pub struct SemNumTy;

/// A semantic textual type.
#[derive(Debug, Clone, Copy, PartialEq, Eq, Hash, Structural)]
pub struct SemTextTy;

/// The semantic never type.
#[derive(Debug, Clone, Copy, PartialEq, Eq, Hash, Structural)]
pub struct SemNeverTy;

/// A semantic tuple type.
#[derive(Debug, Clone, Copy, PartialEq, Eq, Hash, Structural)]
pub struct SemTupleTy;

/// A semantic array type.
#[derive(Debug, Clone, Copy, PartialEq, Eq, Hash, Structural)]
pub struct SemArrayTy;

/// A semantic slice type.
#[derive(Debug, Clone, Copy, PartialEq, Eq, Hash, Structural)]
pub struct SemSliceTy;

/// A semantic function item type, identifying one specific function.
#[derive(Debug, Clone, Copy, PartialEq, Eq, Hash, Structural)]
pub struct SemFnTy {
    pub def: ItemId,
}

/// A semantic closure type.
#[derive(Debug, Clone, Copy, PartialEq, Eq, Hash, Structural)]
pub struct SemClosureTy;

/// A semantic reference type.
#[derive(Debug, Clone, Copy, PartialEq, Eq, Hash, Structural)]
pub struct SemRefTy {
    pub is_mut: bool,
}

/// A semantic raw pointer type.
#[derive(Debug, Clone, Copy, PartialEq, Eq, Hash, Structural)]
pub struct SemRawPtrTy {
    pub is_mut: bool,
}

/// A semantic function pointer type.
#[derive(Debug, Clone, Copy, PartialEq, Eq, Hash, Structural)]
pub struct SemFnPtrTy;

/// A semantic trait object type.
#[derive(Debug, Clone, Copy, PartialEq, Eq, Hash, Structural)]
pub struct SemTraitObjTy;

/// A semantic user-defined data type.
#[derive(Debug, Clone, Copy, PartialEq, Eq, Hash, Structural)]
pub struct SemAdtTy {
    pub def: TyDefId,
}

/// A semantic generic type, defined by a generic parameter.
#[derive(Debug, Clone, Copy, PartialEq, Eq, Hash, Structural)]
pub struct SemGenericTy {
    pub generic: GenericId,
}

/// A semantic type alias whose concrete type is not yet known.
#[derive(Debug, Clone, Copy, PartialEq, Eq, Hash, Structural)]
pub struct SemAliasTy {
    pub alias: TyDefId,
}

/// The placeholder for a semantic type that is still unstable and therefore
/// not represented as part of the stable surface.
#[derive(Debug, Clone, Copy, PartialEq, Eq, Hash, Structural)]
pub struct SemUnstableTy;

/// The tagged union over all semantic type variants, each borrowing its
/// node from the arena. May gain variants in a future version.
#[derive(Debug, Clone, Copy)]
#[non_exhaustive]
pub enum SemTyKind<'ast> {
    /// The `bool` type.
    Bool(&'ast SemBoolTy),
    /// A numeric type.
    Num(&'ast SemNumTy),
    /// A textual type.
    Text(&'ast SemTextTy),
    /// The never type `!`.
    Never(&'ast SemNeverTy),
    /// A tuple type.
    Tuple(&'ast SemTupleTy),
    /// An array type with a known size.
    Array(&'ast SemArrayTy),
    /// A variable-length slice type.
    Slice(&'ast SemSliceTy),
    /// A function item type.
    FnTy(&'ast SemFnTy),
    /// A closure type.
    ClosureTy(&'ast SemClosureTy),
    /// A reference type.
    Ref(&'ast SemRefTy),
    /// A raw pointer type.
    RawPtr(&'ast SemRawPtrTy),
    /// A function pointer type.
    FnPtr(&'ast SemFnPtrTy),
    /// A trait object type.
    TraitObj(&'ast SemTraitObjTy),
    /// A user-defined data type.
    Adt(&'ast SemAdtTy),
    /// A generic type defined by a generic parameter.
    Generic(&'ast SemGenericTy),
    /// A type alias whose concrete type is not yet known.
    Alias(&'ast SemAliasTy),
    /// The placeholder for a still-unstable semantic type.
    Unstable(&'ast SemUnstableTy),
}

} // verus!
