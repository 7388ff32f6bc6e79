//! Bidirectional translation between stable identifiers and the host
//! compiler's internal identifiers.
//!
//! Every stable identifier mirrors the byte layout of the host identifier it
//! stands for, so translation is a direct repacking of the layout fields,
//! never a semantic re-derivation. [`MarkerConverter`] builds stable
//! identifiers from host identifiers; [`RustcConverter`] translates stable
//! identifiers back into host identifiers. The two directions compose to the
//! identity on every value either side can produce; the round-trip laws at
//! the end of this module state this for each identifier family.
//!
//! Span translation additionally composes the registered [`SpanSourceInfo`]:
//! stable to host adds the registered byte-offset base to both offsets and
//! attaches the registered synthetic-context tag; host to stable strips
//! exactly that base and discards the tag.
use vstd::prelude::*;

use crate::diag::{Applicability, EmissionNode, Level};
use crate::ids::{
    BodyId, CrateId, ExprId, FieldId, GenericId, ItemId, LetStmtId, SpanId, StmtIdInner, SymbolId,
    TyDefId, VarId, VariantId,
};
use crate::span::{Span, SpanSource, SpanSourceInfo};
use crate::storage::Storage;

verus! {

/// The host's number for the crate local to the current compilation.
pub const LOCAL_CRATE: u32 = 0;

/// The layout shared by every definition-like identifier: a crate number
/// and a definition index.
#[derive(Debug, Clone, Copy, PartialEq, Eq, Structural)]
pub struct DefIdInfo {
    pub index: u32,
    pub krate: u32,
}

/// The layout shared by every expression-like identifier: an owning
/// definition index and an item-local index.
#[derive(Debug, Clone, Copy, PartialEq, Eq, Structural)]
pub struct HirIdInfo {
    pub owner: u32,
    pub index: u32,
}

/// A host crate number.
#[derive(Debug, Clone, Copy, PartialEq, Eq, Structural)]
pub struct HostCrateNum {
    pub data: u32,
}

/// A host definition identifier: a crate number and a definition index.
#[derive(Debug, Clone, Copy, PartialEq, Eq, Structural)]
pub struct HostDefId {
    pub krate: u32,
    pub index: u32,
}

/// A host item identifier: the defining item's local definition index.
#[derive(Debug, Clone, Copy, PartialEq, Eq, Structural)]
pub struct HostItemId {
    pub local_def_index: u32,
}

/// A host node identifier: an owning local definition index and an
/// item-local index.
#[derive(Debug, Clone, Copy, PartialEq, Eq, Structural)]
pub struct HostHirId {
    pub owner: u32,
    pub local_id: u32,
}

/// A host body identifier, wrapping the node identifier of the body.
#[derive(Debug, Clone, Copy, PartialEq, Eq, Structural)]
pub struct HostBodyId {
    pub hir_id: HostHirId,
}

/// A host interned-string identifier.
#[derive(Debug, Clone, Copy, PartialEq, Eq, Structural)]
pub struct HostSymbol {
    pub data: u32,
}

/// A host span in its packed representation, mirrored bit for bit by
/// [`SpanId`].
#[derive(Debug, Clone, Copy, PartialEq, Eq, Structural)]
pub struct HostSpanId {
    pub raw: u64,
}

/// A host span in expanded coordinates: absolute start and end byte
/// positions in the host's global source map, plus the synthetic-context
/// tag.
#[derive(Debug, Clone, Copy, PartialEq, Eq, Structural)]
pub struct HostSpan {
    pub lo: u32,
    pub hi: u32,
    pub ctxt: u32,
}

/// The host lint level a stable [`Level`] translates to.
#[derive(Debug, Clone, Copy, PartialEq, Eq, Structural)]
pub enum HostLintLevel {
    Allow,
    Warn,
    Deny,
    Forbid,
}

impl HostLintLevel {
    /// Position of this level in the host's severity order.
    pub open spec fn rank(self) -> int {
        match self {
            HostLintLevel::Allow => 0,
            HostLintLevel::Warn => 1,
            HostLintLevel::Deny => 2,
            HostLintLevel::Forbid => 3,
        }
    }
}

/// The host fix-confidence value a stable [`Applicability`] translates to.
#[derive(Debug, Clone, Copy, PartialEq, Eq, Structural)]
pub enum HostApplicability {
    MachineApplicable,
    MaybeIncorrect,
    HasPlaceholders,
    Unspecified,
}

/// What translating an emission node towards a host node identifier yields:
/// either the identifier itself, or the local definition index that the
/// host must resolve through its own definition table, or nothing, because
/// the node belongs to a foreign crate and has no local host node.
#[derive(Debug, Clone, Copy, PartialEq, Eq, Structural)]
pub enum HirLookup {
    /// The node's host identifier, fully determined by the stable
    /// identifier alone.
    Direct(HostHirId),
    /// The node is a local definition; the host's definition table maps
    /// this index to the node identifier.
    LocalDef(u32),
    /// The node's definition lives in a foreign crate; no local host node
    /// exists for it.
    Foreign,
}

impl ItemId {
    /// This identifier in the definition-like layout.
    pub fn def_id_info(self) -> (r: DefIdInfo)
        ensures
            r == (DefIdInfo { index: self.index, krate: self.krate }),
    {
        DefIdInfo { index: self.index, krate: self.krate }
    }
}

impl TyDefId {
    /// This identifier in the definition-like layout.
    pub fn def_id_info(self) -> (r: DefIdInfo)
        ensures
            r == (DefIdInfo { index: self.index, krate: self.krate }),
    {
        DefIdInfo { index: self.index, krate: self.krate }
    }
}

impl GenericId {
    /// This identifier in the definition-like layout.
    pub fn def_id_info(self) -> (r: DefIdInfo)
        ensures
            r == (DefIdInfo { index: self.index, krate: self.krate }),
    {
        DefIdInfo { index: self.index, krate: self.krate }
    }
}

impl VariantId {
    /// This identifier in the definition-like layout.
    pub fn def_id_info(self) -> (r: DefIdInfo)
        ensures
            r == (DefIdInfo { index: self.index, krate: self.krate }),
    {
        DefIdInfo { index: self.index, krate: self.krate }
    }
}

impl ExprId {
    /// This identifier in the expression-like layout.
    pub fn hir_id_info(self) -> (r: HirIdInfo)
        ensures
            r == (HirIdInfo { owner: self.owner, index: self.index }),
    {
        HirIdInfo { owner: self.owner, index: self.index }
    }
}

impl VarId {
    /// This identifier in the expression-like layout.
    pub fn hir_id_info(self) -> (r: HirIdInfo)
        ensures
            r == (HirIdInfo { owner: self.owner, index: self.index }),
    {
        HirIdInfo { owner: self.owner, index: self.index }
    }
}

impl FieldId {
    /// This identifier in the expression-like layout.
    pub fn hir_id_info(self) -> (r: HirIdInfo)
        ensures
            r == (HirIdInfo { owner: self.owner, index: self.index }),
    {
        HirIdInfo { owner: self.owner, index: self.index }
    }
}

impl LetStmtId {
    /// This identifier in the expression-like layout.
    pub fn hir_id_info(self) -> (r: HirIdInfo)
        ensures
            r == (HirIdInfo { owner: self.owner, index: self.index }),
    {
        HirIdInfo { owner: self.owner, index: self.index }
    }
}

/// Translates stable identifiers and spans back into host identifiers and
/// coordinates, for diagnostic reporting.
#[derive(Debug, Clone, Copy, PartialEq, Eq, Structural)]
pub struct RustcConverter;

/// What [`RustcConverter::to_crate_num`] returns.
pub open spec fn spec_to_crate_num(api_id: CrateId) -> HostCrateNum {
    HostCrateNum { data: api_id.data }
}

/// What [`RustcConverter::to_item_id`] returns.
pub open spec fn spec_to_item_id(api_id: ItemId) -> HostItemId {
    HostItemId { local_def_index: api_id.index }
}

/// What [`RustcConverter::to_body_id`] returns.
pub open spec fn spec_to_body_id(api_id: BodyId) -> HostBodyId {
    HostBodyId { hir_id: HostHirId { owner: api_id.owner, local_id: api_id.index } }
}

/// What [`RustcConverter::to_symbol`] returns.
pub open spec fn spec_to_symbol(api_id: SymbolId) -> HostSymbol {
    HostSymbol { data: api_id.data }
}

/// What [`RustcConverter::to_span_from_id`] returns.
pub open spec fn spec_to_span_from_id(api_id: SpanId) -> HostSpanId {
    HostSpanId { raw: api_id.raw }
}

/// What [`RustcConverter::to_def_id`] returns.
pub open spec fn spec_to_def_id(info: DefIdInfo) -> HostDefId {
    HostDefId { krate: info.krate, index: info.index }
}

/// What [`RustcConverter::to_hir_id`] returns.
pub open spec fn spec_to_hir_id(info: HirIdInfo) -> HostHirId {
    HostHirId { owner: info.owner, local_id: info.index }
}

/// What [`RustcConverter::static_to_lint_level`] returns.
pub open spec fn spec_to_lint_level(api_level: Level) -> HostLintLevel {
    match api_level {
        Level::Allow => HostLintLevel::Allow,
        Level::Warn => HostLintLevel::Warn,
        Level::Deny => HostLintLevel::Deny,
        Level::Forbid => HostLintLevel::Forbid,
    }
}

/// What [`RustcConverter::to_applicability`] returns.
pub open spec fn spec_to_applicability(app: Applicability) -> HostApplicability {
    match app {
        Applicability::MachineApplicable => HostApplicability::MachineApplicable,
        Applicability::MaybeIncorrect => HostApplicability::MaybeIncorrect,
        Applicability::HasPlaceholders => HostApplicability::HasPlaceholders,
        Applicability::Unspecified => HostApplicability::Unspecified,
    }
}

/// What [`RustcConverter::try_to_hir_id_from_emission_node`] returns: the
/// expression-like identifiers determine the host node identifier alone;
/// the definition-like identifiers go through the host's definition table
/// when local, and have no local host node when foreign.
pub open spec fn spec_hir_lookup(node: EmissionNode) -> HirLookup {
    match node {
        EmissionNode::Expr(id) => HirLookup::Direct(
            HostHirId { owner: id.owner, local_id: id.index },
        ),
        EmissionNode::Item(id) => if id.krate == LOCAL_CRATE {
            HirLookup::LocalDef(id.index)
        } else {
            HirLookup::Foreign
        },
        EmissionNode::Stmt(stmt_id) => match stmt_id.data {
            StmtIdInner::Expr(id) => HirLookup::Direct(
                HostHirId { owner: id.owner, local_id: id.index },
            ),
            StmtIdInner::Item(id) => if id.krate == LOCAL_CRATE {
                HirLookup::LocalDef(id.index)
            } else {
                HirLookup::Foreign
            },
            StmtIdInner::LetStmt(id) => HirLookup::Direct(
                HostHirId { owner: id.owner, local_id: id.index },
            ),
        },
        EmissionNode::Field(id) => HirLookup::Direct(
            HostHirId { owner: id.owner, local_id: id.index },
        ),
        EmissionNode::Variant(id) => if id.krate == LOCAL_CRATE {
            HirLookup::LocalDef(id.index)
        } else {
            HirLookup::Foreign
        },
    }
}

/// The host coordinates of a stable span, under the metadata of its source:
/// the registered byte-offset base is added to both offsets and the
/// registered synthetic-context tag is attached.
pub open spec fn spec_to_host_span(api_span: Span, info: SpanSourceInfo) -> HostSpan {
    HostSpan {
        lo: (api_span.start + info.rustc_start_offset) as u32,
        hi: (api_span.end + info.rustc_start_offset) as u32,
        ctxt: info.rustc_span_cx,
    }
}

/// The stable span of host coordinates, under a source handle and its
/// metadata: the registered byte-offset base is stripped from both offsets
/// and the context tag is discarded.
pub open spec fn spec_from_host_span(host: HostSpan, api_src: SpanSource, info: SpanSourceInfo)
    -> Span {
    Span {
        source: api_src,
        start: (host.lo - info.rustc_start_offset) as usize,
        end: (host.hi - info.rustc_start_offset) as usize,
    }
}

impl RustcConverter {
    /// The host crate number of a stable crate identifier: the same
    /// 32-bit value in the host's layout.
    #[must_use]
    pub fn to_crate_num(&self, api_id: CrateId) -> (r: HostCrateNum)
        ensures
            r == spec_to_crate_num(api_id),
    {
        HostCrateNum { data: api_id.data }
    }

    /// The host item identifier of a stable item identifier. A host item
    /// identifier names a local definition, so only the definition index
    /// carries over.
    #[must_use]
    pub fn to_item_id(&self, api_id: ItemId) -> (r: HostItemId)
        ensures
            r == spec_to_item_id(api_id),
    {
        HostItemId { local_def_index: api_id.index }
    }

    /// The host body identifier of a stable body identifier: the owner and
    /// item-local indices carry over into the host's node-identifier
    /// layout.
    #[must_use]
    pub fn to_body_id(&self, api_id: BodyId) -> (r: HostBodyId)
        ensures
            r == spec_to_body_id(api_id),
    {
        HostBodyId { hir_id: HostHirId { owner: api_id.owner, local_id: api_id.index } }
    }

    /// The host symbol of a stable symbol identifier: the same 32-bit
    /// index into the host's interning table.
    #[must_use]
    pub fn to_symbol(&self, api_id: SymbolId) -> (r: HostSymbol)
        ensures
            r == spec_to_symbol(api_id),
    {
        HostSymbol { data: api_id.data }
    }

    /// The host packed span behind a stable span identifier: the identifier
    /// mirrors the host representation bit for bit.
    #[must_use]
    pub fn to_span_from_id(&self, api_id: SpanId) -> (r: HostSpanId)
        ensures
            r == spec_to_span_from_id(api_id),
    {
        HostSpanId { raw: api_id.raw }
    }

    /// The host definition identifier of a definition-like layout value.
    #[must_use]
    pub fn to_def_id(&self, info: DefIdInfo) -> (r: HostDefId)
        ensures
            r == spec_to_def_id(info),
    {
        HostDefId { krate: info.krate, index: info.index }
    }

    /// The host node identifier of an expression-like layout value.
    #[must_use]
    pub fn to_hir_id(&self, info: HirIdInfo) -> (r: HostHirId)
        ensures
            r == spec_to_hir_id(info),
    {
        HostHirId { owner: info.owner, local_id: info.index }
    }

    /// Translates the node a diagnostic attaches to towards a host node
    /// identifier. Expression-like nodes are fully determined here;
    /// definition-like nodes yield the local definition index for the host
    /// to resolve, or nothing when the definition is foreign.
    #[must_use]
    pub fn try_to_hir_id_from_emission_node(&self, node: EmissionNode) -> (r: HirLookup)
        ensures
            r == spec_hir_lookup(node),
    {
        match node {
            EmissionNode::Expr(id) => HirLookup::Direct(self.to_hir_id(id.hir_id_info())),
            EmissionNode::Item(id) => self.def_lookup(id.def_id_info()),
            EmissionNode::Stmt(stmt_id) => match stmt_id.data() {
                StmtIdInner::Expr(id) => HirLookup::Direct(self.to_hir_id(id.hir_id_info())),
                StmtIdInner::Item(id) => self.def_lookup(id.def_id_info()),
                StmtIdInner::LetStmt(id) => HirLookup::Direct(self.to_hir_id(id.hir_id_info())),
            },
            EmissionNode::Field(id) => HirLookup::Direct(self.to_hir_id(id.hir_id_info())),
            EmissionNode::Variant(id) => self.def_lookup(id.def_id_info()),
        }
    }

    /// How a definition-like layout value reaches a host node identifier:
    /// local definitions go through the host's definition table, foreign
    /// ones have no local host node.
    fn def_lookup(&self, info: DefIdInfo) -> (r: HirLookup)
        ensures
            r == if info.krate == LOCAL_CRATE {
                HirLookup::LocalDef(info.index)
            } else {
                HirLookup::Foreign
            },
    {
        if info.krate == LOCAL_CRATE {
            HirLookup::LocalDef(info.index)
        } else {
            HirLookup::Foreign
        }
    }

    /// The host lint level of a stable severity level.
    #[must_use]
    pub fn to_lint_level(&self, api_level: Level) -> (r: HostLintLevel)
        ensures
            r == spec_to_lint_level(api_level),
    {
        Self::static_to_lint_level(api_level)
    }

    /// The host lint level of a stable severity level. This not being a
    /// method allows translation before a converter for the run exists,
    /// when host-side lint descriptions are built; when possible, prefer
    /// [`RustcConverter::to_lint_level`].
    #[must_use]
    pub fn static_to_lint_level(api_level: Level) -> (r: HostLintLevel)
        ensures
            r == spec_to_lint_level(api_level),
    {
        match api_level {
            Level::Allow => HostLintLevel::Allow,
            Level::Warn => HostLintLevel::Warn,
            Level::Deny => HostLintLevel::Deny,
            Level::Forbid => HostLintLevel::Forbid,
        }
    }

    /// The host fix-confidence value of a stable one.
    #[must_use]
    pub fn to_applicability(&self, app: Applicability) -> (r: HostApplicability)
        ensures
            r == spec_to_applicability(app),
    {
        match app {
            Applicability::MachineApplicable => HostApplicability::MachineApplicable,
            Applicability::MaybeIncorrect => HostApplicability::MaybeIncorrect,
            Applicability::HasPlaceholders => HostApplicability::HasPlaceholders,
            Applicability::Unspecified => HostApplicability::Unspecified,
        }
    }

    /// The host coordinates of a stable span: the byte-offset base
    /// registered for the span's source is added to both offsets and the
    /// registered synthetic-context tag is attached.
    ///
    /// The metadata of the span's source must have been registered: every
    /// span handed out by this layer points into a registered source, and a
    /// span that does not is a programming error. The translated offsets
    /// must fit the host's 32-bit byte positions, as the host guarantees
    /// for every span it produced.
    #[must_use]
    pub fn to_span(&self, storage: &Storage, api_span: &Span) -> (r: HostSpan)
        requires
            storage.span_src_infos().contains_key(api_span.source.handle),
            api_span.start + storage.span_src_infos()[api_span.source.handle].rustc_start_offset
                <= u32::MAX,
            api_span.end + storage.span_src_infos()[api_span.source.handle].rustc_start_offset
                <= u32::MAX,
        ensures
            r == spec_to_host_span(*api_span, storage.span_src_infos()[api_span.source.handle]),
    {
        let src_info = storage.span_src_info(api_span.source()).unwrap();
        let lo: usize = api_span.start() + src_info.rustc_start_offset;
        let hi: usize = api_span.end() + src_info.rustc_start_offset;
        HostSpan { lo: lo as u32, hi: hi as u32, ctxt: src_info.rustc_span_cx }
    }

    /// The stable span of host coordinates, under the source handle the
    /// host coordinates belong to: the registered byte-offset base is
    /// stripped from both offsets and the context tag is discarded, since
    /// it stays recoverable through the cached metadata.
    ///
    /// The source's metadata must have been registered, and the host
    /// coordinates must lie at or after the source's base, as every span
    /// inside the source does.
    #[must_use]
    pub fn from_host_span(&self, storage: &Storage, api_src: SpanSource, host: HostSpan) -> (r:
        Span)
        requires
            storage.span_src_infos().contains_key(api_src.handle),
            host.lo >= storage.span_src_infos()[api_src.handle].rustc_start_offset,
            host.hi >= storage.span_src_infos()[api_src.handle].rustc_start_offset,
        ensures
            r == spec_from_host_span(host, api_src, storage.span_src_infos()[api_src.handle]),
    {
        let src_info = storage.span_src_info(api_src).unwrap();
        let start: usize = host.lo as usize - src_info.rustc_start_offset;
        let end: usize = host.hi as usize - src_info.rustc_start_offset;
        Span { source: api_src, start, end }
    }
}

/// Everything the host's diagnostic sink is handed for one emitted
/// diagnostic: the resolved host target of the node the diagnostic
/// attaches to, the host severity, and the host fix confidence.
#[derive(Debug, Clone, Copy, PartialEq, Eq, Structural)]
pub struct HostDiagnostic {
    pub target: HirLookup,
    pub level: HostLintLevel,
    pub applicability: HostApplicability,
}

impl RustcConverter {
    /// Resolves one diagnostic emission into host terms: the stable
    /// identifier of the node is translated back towards a host node, and
    /// the severity and fix confidence are translated to their host
    /// values. This never fails; forwarding the result to the host's
    /// diagnostic sink is the caller's step.
    #[must_use]
    pub fn to_diagnostic(&self, node: EmissionNode, level: Level, app: Applicability) -> (r:
        HostDiagnostic)
        ensures
            r.target == spec_hir_lookup(node),
            r.level == spec_to_lint_level(level),
            r.applicability == spec_to_applicability(app),
    {
        HostDiagnostic {
            target: self.try_to_hir_id_from_emission_node(node),
            level: self.to_lint_level(level),
            applicability: self.to_applicability(app),
        }
    }
}

/// Builds stable identifiers from host identifiers, when the host's
/// representation is walked.
#[derive(Debug, Clone, Copy, PartialEq, Eq, Structural)]
pub struct MarkerConverter;

/// What [`MarkerConverter::to_crate_id`] returns.
pub open spec fn spec_to_crate_id(num: HostCrateNum) -> CrateId {
    CrateId { data: num.data }
}

/// What [`MarkerConverter::to_api_item_id`] returns.
pub open spec fn spec_to_api_item_id(did: HostDefId) -> ItemId {
    ItemId { krate: did.krate, index: did.index }
}

/// What [`MarkerConverter::to_ty_def_id`] returns.
pub open spec fn spec_to_ty_def_id(did: HostDefId) -> TyDefId {
    TyDefId { krate: did.krate, index: did.index }
}

/// What [`MarkerConverter::to_generic_id`] returns.
pub open spec fn spec_to_generic_id(did: HostDefId) -> GenericId {
    GenericId { krate: did.krate, index: did.index }
}

/// What [`MarkerConverter::to_variant_id`] returns.
pub open spec fn spec_to_variant_id(did: HostDefId) -> VariantId {
    VariantId { krate: did.krate, index: did.index }
}

/// What [`MarkerConverter::to_expr_id`] returns.
pub open spec fn spec_to_expr_id(hid: HostHirId) -> ExprId {
    ExprId { owner: hid.owner, index: hid.local_id }
}

/// What [`MarkerConverter::to_var_id`] returns.
pub open spec fn spec_to_var_id(hid: HostHirId) -> VarId {
    VarId { owner: hid.owner, index: hid.local_id }
}

/// What [`MarkerConverter::to_field_id`] returns.
pub open spec fn spec_to_field_id(hid: HostHirId) -> FieldId {
    FieldId { owner: hid.owner, index: hid.local_id }
}

/// What [`MarkerConverter::to_let_stmt_id`] returns.
pub open spec fn spec_to_let_stmt_id(hid: HostHirId) -> LetStmtId {
    LetStmtId { owner: hid.owner, index: hid.local_id }
}

/// What [`MarkerConverter::to_api_body_id`] returns.
pub open spec fn spec_to_api_body_id(bid: HostBodyId) -> BodyId {
    BodyId { owner: bid.hir_id.owner, index: bid.hir_id.local_id }
}

/// What [`MarkerConverter::to_symbol_id`] returns.
pub open spec fn spec_to_symbol_id(sym: HostSymbol) -> SymbolId {
    SymbolId { data: sym.data }
}

/// What [`MarkerConverter::to_span_id`] returns.
pub open spec fn spec_to_span_id(sid: HostSpanId) -> SpanId {
    SpanId { raw: sid.raw }
}

impl MarkerConverter {
    /// The stable crate identifier of a host crate number.
    #[must_use]
    pub fn to_crate_id(&self, num: HostCrateNum) -> (r: CrateId)
        ensures
            r == spec_to_crate_id(num),
    {
        CrateId { data: num.data }
    }

    /// The stable item identifier of a host definition identifier.
    #[must_use]
    pub fn to_api_item_id(&self, did: HostDefId) -> (r: ItemId)
        ensures
            r == spec_to_api_item_id(did),
    {
        ItemId { krate: did.krate, index: did.index }
    }

    /// The stable type-definition identifier of a host definition
    /// identifier.
    #[must_use]
    pub fn to_ty_def_id(&self, did: HostDefId) -> (r: TyDefId)
        ensures
            r == spec_to_ty_def_id(did),
    {
        TyDefId { krate: did.krate, index: did.index }
    }

    /// The stable generic-parameter identifier of a host definition
    /// identifier.
    #[must_use]
    pub fn to_generic_id(&self, did: HostDefId) -> (r: GenericId)
        ensures
            r == spec_to_generic_id(did),
    {
        GenericId { krate: did.krate, index: did.index }
    }

    /// The stable variant identifier of a host definition identifier.
    #[must_use]
    pub fn to_variant_id(&self, did: HostDefId) -> (r: VariantId)
        ensures
            r == spec_to_variant_id(did),
    {
        VariantId { krate: did.krate, index: did.index }
    }

    /// The stable expression identifier of a host node identifier.
    #[must_use]
    pub fn to_expr_id(&self, hid: HostHirId) -> (r: ExprId)
        ensures
            r == spec_to_expr_id(hid),
    {
        ExprId { owner: hid.owner, index: hid.local_id }
    }

    /// The stable variable identifier of a host node identifier.
    #[must_use]
    pub fn to_var_id(&self, hid: HostHirId) -> (r: VarId)
        ensures
            r == spec_to_var_id(hid),
    {
        VarId { owner: hid.owner, index: hid.local_id }
    }

    /// The stable field identifier of a host node identifier.
    #[must_use]
    pub fn to_field_id(&self, hid: HostHirId) -> (r: FieldId)
        ensures
            r == spec_to_field_id(hid),
    {
        FieldId { owner: hid.owner, index: hid.local_id }
    }

    /// The stable `let`-statement identifier of a host node identifier.
    #[must_use]
    pub fn to_let_stmt_id(&self, hid: HostHirId) -> (r: LetStmtId)
        ensures
            r == spec_to_let_stmt_id(hid),
    {
        LetStmtId { owner: hid.owner, index: hid.local_id }
    }

    /// The stable body identifier of a host body identifier.
    #[must_use]
    pub fn to_api_body_id(&self, bid: HostBodyId) -> (r: BodyId)
        ensures
            r == spec_to_api_body_id(bid),
    {
        BodyId { owner: bid.hir_id.owner, index: bid.hir_id.local_id }
    }

    /// The stable symbol identifier of a host symbol.
    #[must_use]
    pub fn to_symbol_id(&self, sym: HostSymbol) -> (r: SymbolId)
        ensures
            r == spec_to_symbol_id(sym),
    {
        SymbolId { data: sym.data }
    }

    /// The stable span identifier of a host packed span.
    #[must_use]
    pub fn to_span_id(&self, sid: HostSpanId) -> (r: SpanId)
        ensures
            r == spec_to_span_id(sid),
    {
        SpanId { raw: sid.raw }
    }
}

/// Translating a host crate number to its stable identifier and back is
/// the identity; so is the reverse composition on every stable identifier.
pub proof fn crate_num_round_trip(num: HostCrateNum, api_id: CrateId)
    ensures
        spec_to_crate_num(spec_to_crate_id(num)) == num,
        spec_to_crate_id(spec_to_crate_num(api_id)) == api_id,
{
}

/// Translating a host definition identifier to any of its stable,
/// definition-like identifiers and back through the shared layout is the
/// identity; so is the reverse composition on every stable identifier.
pub proof fn def_id_round_trip(did: HostDefId, item: ItemId, ty_def: TyDefId, generic: GenericId,
    variant: VariantId)
    ensures
        spec_to_def_id(
            DefIdInfo { index: spec_to_api_item_id(did).index, krate: spec_to_api_item_id(did).krate },
        ) == did,
        spec_to_def_id(
            DefIdInfo { index: spec_to_ty_def_id(did).index, krate: spec_to_ty_def_id(did).krate },
        ) == did,
        spec_to_def_id(
            DefIdInfo { index: spec_to_generic_id(did).index, krate: spec_to_generic_id(did).krate },
        ) == did,
        spec_to_def_id(
            DefIdInfo { index: spec_to_variant_id(did).index, krate: spec_to_variant_id(did).krate },
        ) == did,
        spec_to_api_item_id(spec_to_def_id(DefIdInfo { index: item.index, krate: item.krate }))
            == item,
        spec_to_ty_def_id(spec_to_def_id(DefIdInfo { index: ty_def.index, krate: ty_def.krate }))
            == ty_def,
        spec_to_generic_id(
            spec_to_def_id(DefIdInfo { index: generic.index, krate: generic.krate }),
        ) == generic,
        spec_to_variant_id(
            spec_to_def_id(DefIdInfo { index: variant.index, krate: variant.krate }),
        ) == variant,
{
}

/// Translating a host node identifier to any of its stable,
/// expression-like identifiers and back through the shared layout is the
/// identity; so is the reverse composition on every stable identifier.
pub proof fn hir_id_round_trip(hid: HostHirId, expr: ExprId, var: VarId, field: FieldId,
    let_stmt: LetStmtId)
    ensures
        spec_to_hir_id(
            HirIdInfo { owner: spec_to_expr_id(hid).owner, index: spec_to_expr_id(hid).index },
        ) == hid,
        spec_to_hir_id(
            HirIdInfo { owner: spec_to_var_id(hid).owner, index: spec_to_var_id(hid).index },
        ) == hid,
        spec_to_hir_id(
            HirIdInfo { owner: spec_to_field_id(hid).owner, index: spec_to_field_id(hid).index },
        ) == hid,
        spec_to_hir_id(
            HirIdInfo {
                owner: spec_to_let_stmt_id(hid).owner,
                index: spec_to_let_stmt_id(hid).index,
            },
        ) == hid,
        spec_to_expr_id(spec_to_hir_id(HirIdInfo { owner: expr.owner, index: expr.index }))
            == expr,
        spec_to_var_id(spec_to_hir_id(HirIdInfo { owner: var.owner, index: var.index })) == var,
        spec_to_field_id(spec_to_hir_id(HirIdInfo { owner: field.owner, index: field.index }))
            == field,
        spec_to_let_stmt_id(
            spec_to_hir_id(HirIdInfo { owner: let_stmt.owner, index: let_stmt.index }),
        ) == let_stmt,
{
}

/// Translating a host body identifier to its stable identifier and back is
/// the identity; so is the reverse composition.
pub proof fn body_id_round_trip(bid: HostBodyId, api_id: BodyId)
    ensures
        spec_to_body_id(spec_to_api_body_id(bid)) == bid,
        spec_to_api_body_id(spec_to_body_id(api_id)) == api_id,
{
}

/// Translating a host symbol to its stable identifier and back is the
/// identity; so is the reverse composition.
pub proof fn symbol_round_trip(sym: HostSymbol, api_id: SymbolId)
    ensures
        spec_to_symbol(spec_to_symbol_id(sym)) == sym,
        spec_to_symbol_id(spec_to_symbol(api_id)) == api_id,
{
}

/// Translating a host packed span to its stable identifier and back is the
/// identity; so is the reverse composition.
pub proof fn span_id_round_trip(sid: HostSpanId, api_id: SpanId)
    ensures
        spec_to_span_from_id(spec_to_span_id(sid)) == sid,
        spec_to_span_id(spec_to_span_from_id(api_id)) == api_id,
{
}

/// Span translation round trip under one registered source: translating a
/// stable span `[s, e)` to host coordinates yields `[s + B, e + B)` tagged
/// with the registered context, and translating those host coordinates
/// back strips exactly `B` and restores the original span. In the other
/// direction, host coordinates at or after the base come back unchanged,
/// with the registered context tag reattached.
pub proof fn span_round_trip(api_span: Span, api_src: SpanSource, host: HostSpan,
    info: SpanSourceInfo)
    requires
        api_span.source == api_src,
        api_span.start + info.rustc_start_offset <= u32::MAX,
        api_span.end + info.rustc_start_offset <= u32::MAX,
        host.lo >= info.rustc_start_offset,
        host.hi >= info.rustc_start_offset,
        host.ctxt == info.rustc_span_cx,
    ensures
        spec_to_host_span(api_span, info).lo == api_span.start + info.rustc_start_offset,
        spec_to_host_span(api_span, info).hi == api_span.end + info.rustc_start_offset,
        spec_to_host_span(api_span, info).ctxt == info.rustc_span_cx,
        spec_from_host_span(spec_to_host_span(api_span, info), api_src, info) == api_span,
        spec_to_host_span(spec_from_host_span(host, api_src, info), info) == host,
{
}

/// Translating severities to the host preserves the fixed total order
/// `Allow < Warn < Deny < Forbid` exactly.
pub proof fn lint_level_order_preserved(a: Level, b: Level)
    ensures
        a.rank() <= b.rank() <==> spec_to_lint_level(a).rank() <= spec_to_lint_level(b).rank(),
        a == b <==> spec_to_lint_level(a) == spec_to_lint_level(b),
{
}

} // verus!
