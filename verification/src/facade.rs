//! The per-run conversion facade.
//!
//! One [`AstContext`] exists per analysis run. It owns the run's
//! [`Storage`] and one memoized node arena per node category, and is the
//! entry point handed to lint plugins. Its central operation is
//! "materialize or fetch": given the key of a host node, return the
//! already-materialized stable node if one exists for that host node in
//! this run, and allocate and populate one only otherwise — exactly one
//! stable node exists per host node per run, and a second conversion of
//! the same host node yields the identical arena slot.
use vstd::prelude::*;

use crate::pat::{PatKind, PatNode};
use crate::span::{Span, SpanSource, SpanSourceInfo};
use crate::storage::{fx_map_get_u64, fx_map_insert_u64, new_fx_map_u64, FxMap64, Storage};
use crate::translate::{spec_from_host_span, HostHirId, HostSpan, RustcConverter};
use crate::ty::{SynTyKind, SynTyNode};

verus! {

/// One node category's slice of the arena, with its memo table: nodes are
/// appended once and never moved or dropped before the whole arena is, and
/// the memo table maps the key of a host node to the slot its stable node
/// was materialized into.
pub struct NodeArena<T> {
    nodes: Vec<T>,
    memo: FxMap64<usize>,
}

impl<T> NodeArena<T> {
    /// The materialized nodes, in materialization order.
    pub closed spec fn nodes(self) -> Seq<T> {
        self.nodes@
    }

    /// The host-key-to-slot memo table.
    pub closed spec fn memo(self) -> Map<u64, usize> {
        self.memo@
    }

    /// Every memoized slot points into the arena.
    pub open spec fn wf(self) -> bool {
        forall|k: u64| #[trigger]
            self.memo().contains_key(k) ==> self.memo()[k] < self.nodes().len()
    }

    /// Creates an empty arena slice.
    pub fn new() -> (r: Self)
        ensures
            r.nodes() == Seq::<T>::empty(),
            r.memo() == (Map::<u64, usize>::empty()),
            r.wf(),
    {
        NodeArena { nodes: Vec::new(), memo: new_fx_map_u64() }
    }

    /// Materialize or fetch: returns the slot already materialized for the
    /// host node with this key, and materializes the given node into a
    /// fresh slot only if none exists. Converting the same host node twice
    /// within one run thus yields the identical slot, with the arena left
    /// untouched by the second call; no slot's contents ever change.
    pub fn get_or_insert(&mut self, key: u64, node: T) -> (slot: usize)
        requires
            old(self).wf(),
        ensures
            final(self).wf(),
            old(self).memo().contains_key(key) ==> {
                &&& slot == old(self).memo()[key]
                &&& final(self).nodes() == old(self).nodes()
                &&& final(self).memo() == old(self).memo()
            },
            !old(self).memo().contains_key(key) ==> {
                &&& slot == old(self).nodes().len()
                &&& final(self).nodes() == old(self).nodes().push(node)
                &&& final(self).memo() == old(self).memo().insert(key, old(self).nodes().len() as usize)
            },
            final(self).memo().contains_key(key) && slot == final(self).memo()[key],
            slot < final(self).nodes().len(),
            final(self).nodes()[slot as int] == if old(self).memo().contains_key(key) {
                old(self).nodes()[slot as int]
            } else {
                node
            },
    {
        match fx_map_get_u64(&self.memo, key) {
            Some(slot) => slot,
            None => {
                let slot = self.nodes.len();
                self.nodes.push(node);
                fx_map_insert_u64(&mut self.memo, key, slot);
                proof {
                    assert forall|k: u64| self.memo().contains_key(k) implies self.memo()[k]
                        < self.nodes().len() by {
                        if k != key {
                            assert(old(self).memo().contains_key(k));
                        }
                    }
                }
                slot
            },
        }
    }

    /// The slot already materialized for the host node with this key, if
    /// any.
    pub fn lookup(&self, key: u64) -> (r: Option<usize>)
        ensures
            r == if self.memo().contains_key(key) {
                Some(self.memo()[key])
            } else {
                None::<usize>
            },
    {
        fx_map_get_u64(&self.memo, key)
    }

    /// Borrows the node in a slot.
    pub fn get(&self, slot: usize) -> (r: &T)
        requires
            slot < self.nodes().len(),
        ensures
            *r == self.nodes()[slot as int],
    {
        &self.nodes[slot]
    }

    /// The number of materialized nodes.
    pub fn len(&self) -> (r: usize)
        ensures
            r == self.nodes().len(),
    {
        self.nodes.len()
    }
}

/// The key of a host node identifier in the memo tables: the owner index
/// in the upper half, the item-local index in the lower half.
pub open spec fn spec_hir_key(hid: HostHirId) -> u64 {
    (hid.owner * 0x1_0000_0000 + hid.local_id) as u64
}

/// Computes the memo key of a host node identifier.
pub fn hir_key(hid: HostHirId) -> (r: u64)
    ensures
        r == spec_hir_key(hid),
{
    hid.owner as u64 * 0x1_0000_0000 + hid.local_id as u64
}

/// Distinct host node identifiers have distinct memo keys.
pub proof fn hir_key_injective(a: HostHirId, b: HostHirId)
    requires
        spec_hir_key(a) == spec_hir_key(b),
    ensures
        a == b,
{
}

/// The per-run conversion facade: the run's storage, and one memoized
/// arena per node category.
pub struct AstContext {
    /// The run's arena and span-source registry.
    pub storage: Storage,
    /// The pattern arena and its memo table.
    pub pats: NodeArena<PatNode>,
    /// The syntactic type arena and its memo table.
    pub syn_tys: NodeArena<SynTyNode>,
    /// The next span-source handle to hand out.
    pub next_handle: u32,
}

impl AstContext {
    /// The materialized pattern nodes.
    pub open spec fn pat_nodes(self) -> Seq<PatNode> {
        self.pats.nodes()
    }

    /// The pattern memo table.
    pub open spec fn pat_memo(self) -> Map<u64, usize> {
        self.pats.memo()
    }

    /// The materialized syntactic type nodes.
    pub open spec fn syn_ty_nodes(self) -> Seq<SynTyNode> {
        self.syn_tys.nodes()
    }

    /// The syntactic type memo table.
    pub open spec fn syn_ty_memo(self) -> Map<u64, usize> {
        self.syn_tys.memo()
    }

    /// The next span-source handle to hand out.
    pub open spec fn next_handle(self) -> u32 {
        self.next_handle
    }

    /// Both node arenas are well formed.
    pub open spec fn wf(self) -> bool {
        &&& self.pats.wf()
        &&& self.syn_tys.wf()
    }

    /// Creates the facade of a fresh run: empty storage, empty arenas.
    pub fn new() -> (r: AstContext)
        ensures
            r.wf(),
            r.storage.span_srcs() == (Map::<u64, SpanSource>::empty()),
            r.storage.span_src_infos() == (Map::<u32, SpanSourceInfo>::empty()),
            r.pat_nodes() == Seq::<PatNode>::empty(),
            r.syn_ty_nodes() == Seq::<SynTyNode>::empty(),
            r.next_handle() == 0,
    {
        AstContext {
            storage: Storage::new(),
            pats: NodeArena::new(),
            syn_tys: NodeArena::new(),
            next_handle: 0,
        }
    }

    /// Materialize or fetch the stable pattern node of the host node with
    /// this identifier: one stable node exists per host node per run.
    pub fn convert_pat(&mut self, hid: HostHirId, node: PatNode) -> (slot: usize)
        requires
            old(self).wf(),
        ensures
            final(self).wf(),
            old(self).pat_memo().contains_key(spec_hir_key(hid)) ==> {
                &&& slot == old(self).pat_memo()[spec_hir_key(hid)]
                &&& final(self).pat_nodes() == old(self).pat_nodes()
                &&& final(self).pat_memo() == old(self).pat_memo()
            },
            !old(self).pat_memo().contains_key(spec_hir_key(hid)) ==> {
                &&& slot == old(self).pat_nodes().len()
                &&& final(self).pat_nodes() == old(self).pat_nodes().push(node)
                &&& final(self).pat_memo() == old(self).pat_memo().insert(spec_hir_key(hid), old(self).pat_nodes().len() as usize)
            },
            slot < final(self).pat_nodes().len(),
            final(self).pat_nodes()[slot as int] == if old(self).pat_memo().contains_key(
                spec_hir_key(hid),
            ) {
                old(self).pat_nodes()[slot as int]
            } else {
                node
            },
            final(self).syn_ty_nodes() == old(self).syn_ty_nodes(),
            final(self).syn_ty_memo() == old(self).syn_ty_memo(),
            final(self).storage == old(self).storage,
            final(self).next_handle() == old(self).next_handle(),
    {
        let key = hir_key(hid);
        self.pats.get_or_insert(key, node)
    }

    /// Projects the pattern node in a slot into the plugin-facing tagged
    /// union, borrowing the arena slot itself.
    pub fn pat(&self, slot: usize) -> (r: PatKind<'_>)
        requires
            slot < self.pat_nodes().len(),
        ensures
            match self.pat_nodes()[slot as int] {
                PatNode::Ident(n) => r matches PatKind::Ident(m) && *m == n,
                PatNode::Wildcard(n) => r matches PatKind::Wildcard(m) && *m == n,
                PatNode::Rest(n) => r matches PatKind::Rest(m) && *m == n,
                PatNode::Ref(n) => r matches PatKind::Ref(m) && *m == n,
                PatNode::Struct(n) => r matches PatKind::Struct(m) && *m == n,
            },
    {
        self.pats.get(slot).as_pat()
    }

    /// Materialize or fetch the stable syntactic type node of the host
    /// node with this identifier: one stable node exists per host node per
    /// run.
    pub fn convert_syn_ty(&mut self, hid: HostHirId, node: SynTyNode) -> (slot: usize)
        requires
            old(self).wf(),
        ensures
            final(self).wf(),
            old(self).syn_ty_memo().contains_key(spec_hir_key(hid)) ==> {
                &&& slot == old(self).syn_ty_memo()[spec_hir_key(hid)]
                &&& final(self).syn_ty_nodes() == old(self).syn_ty_nodes()
                &&& final(self).syn_ty_memo() == old(self).syn_ty_memo()
            },
            !old(self).syn_ty_memo().contains_key(spec_hir_key(hid)) ==> {
                &&& slot == old(self).syn_ty_nodes().len()
                &&& final(self).syn_ty_nodes() == old(self).syn_ty_nodes().push(node)
                &&& final(self).syn_ty_memo() == old(self).syn_ty_memo().insert(spec_hir_key(hid), old(self).syn_ty_nodes().len() as usize)
            },
            slot < final(self).syn_ty_nodes().len(),
            final(self).syn_ty_nodes()[slot as int] == if old(self).syn_ty_memo().contains_key(
                spec_hir_key(hid),
            ) {
                old(self).syn_ty_nodes()[slot as int]
            } else {
                node
            },
            final(self).pat_nodes() == old(self).pat_nodes(),
            final(self).pat_memo() == old(self).pat_memo(),
            final(self).storage == old(self).storage,
            final(self).next_handle() == old(self).next_handle(),
    {
        let key = hir_key(hid);
        self.syn_tys.get_or_insert(key, node)
    }

    /// Projects the syntactic type node in a slot into the plugin-facing
    /// tagged union, borrowing the arena slot itself.
    pub fn syn_ty(&self, slot: usize) -> (r: SynTyKind<'_>)
        requires
            slot < self.syn_ty_nodes().len(),
        ensures
            match self.syn_ty_nodes()[slot as int] {
                SynTyNode::Bool(n) => r matches SynTyKind::Bool(m) && *m == n,
                SynTyNode::Num(n) => r matches SynTyKind::Num(m) && *m == n,
                SynTyNode::Text(n) => r matches SynTyKind::Text(m) && *m == n,
                SynTyNode::Never(n) => r matches SynTyKind::Never(m) && *m == n,
                SynTyNode::Tuple(n) => r matches SynTyKind::Tuple(m) && *m == n,
                SynTyNode::Array(n) => r matches SynTyKind::Array(m) && *m == n,
                SynTyNode::Slice(n) => r matches SynTyKind::Slice(m) && *m == n,
                SynTyNode::Closure(n) => r matches SynTyKind::Closure(m) && *m == n,
                SynTyNode::Ref(n) => r matches SynTyKind::Ref(m) && *m == n,
                SynTyNode::RawPtr(n) => r matches SynTyKind::RawPtr(m) && *m == n,
                SynTyNode::FnPtr(n) => r matches SynTyKind::FnPtr(m) && *m == n,
                SynTyNode::TraitObj(n) => r matches SynTyKind::TraitObj(m) && *m == n,
                SynTyNode::ImplTrait(n) => r matches SynTyKind::ImplTrait(m) && *m == n,
                SynTyNode::Inferred(n) => r matches SynTyKind::Inferred(m) && *m == n,
                SynTyNode::Path(n) => r matches SynTyKind::Path(m) && *m == n,
            },
    {
        self.syn_tys.get(slot).as_kind()
    }

    /// Looks up, or registers under a fresh handle, the stable span source
    /// of a host source file: one handle exists per host source per run.
    /// The handle space is 32 bits wide, far more than any run registers;
    /// the bound on the next handle states that headroom.
    pub fn get_or_register_span_src(&mut self, rustc_src: u64) -> (r: SpanSource)
        requires
            old(self).wf(),
            old(self).next_handle() < u32::MAX,
        ensures
            final(self).wf(),
            old(self).storage.span_srcs().contains_key(rustc_src) ==> {
                &&& r == old(self).storage.span_srcs()[rustc_src]
                &&& final(self).storage == old(self).storage
                &&& final(self).next_handle() == old(self).next_handle()
            },
            !old(self).storage.span_srcs().contains_key(rustc_src) ==> {
                &&& r == (SpanSource { handle: old(self).next_handle() })
                &&& final(self).storage.span_srcs() == old(self).storage.span_srcs().insert(
                    rustc_src,
                    r,
                )
                &&& final(self).next_handle() == old(self).next_handle() + 1
            },
            final(self).storage.span_srcs().contains_key(rustc_src) && final(self).storage.span_srcs()[rustc_src] == r,
            final(self).storage.span_src_infos() == old(self).storage.span_src_infos(),
            final(self).pat_nodes() == old(self).pat_nodes(),
            final(self).pat_memo() == old(self).pat_memo(),
            final(self).syn_ty_nodes() == old(self).syn_ty_nodes(),
            final(self).syn_ty_memo() == old(self).syn_ty_memo(),
    {
        match self.storage.span_src(rustc_src) {
            Some(src) => src,
            None => {
                let src = SpanSource { handle: self.next_handle };
                self.storage.add_span_src(rustc_src, src);
                self.next_handle = self.next_handle + 1;
                src
            },
        }
    }

    /// Translates host coordinates into a stable span and allocates it
    /// into the run's arena, handing out a borrow that stays valid for the
    /// storage's lifetime, as plugin-facing span access requires. The
    /// span's source must be registered with its metadata, and the host
    /// coordinates must lie at or after the source's base.
    pub fn alloc_api_span<'a>(&'a self, api_src: SpanSource, host: HostSpan) -> (r: &'a Span)
        requires
            self.storage.span_src_infos().contains_key(api_src.handle),
            host.lo >= self.storage.span_src_infos()[api_src.handle].rustc_start_offset,
            host.hi >= self.storage.span_src_infos()[api_src.handle].rustc_start_offset,
        ensures
            *r == spec_from_host_span(host, api_src, self.storage.span_src_infos()[api_src.handle]),
    {
        let converter = RustcConverter;
        let span = converter.from_host_span(&self.storage, api_src, host);
        self.storage.alloc_value(span)
    }

    /// Translates a sequence of host coordinates from one source into
    /// stable spans and allocates them as one exact-size slice in the
    /// run's arena, in order.
    pub fn alloc_api_spans<'a>(&'a self, api_src: SpanSource, hosts: &Vec<HostSpan>) -> (r: &'a [Span])
        requires
            self.storage.span_src_infos().contains_key(api_src.handle),
            forall|i: int|
                0 <= i < hosts@.len() ==> (#[trigger] hosts@[i]).lo >= self.storage.span_src_infos()[api_src.handle].rustc_start_offset && hosts@[i].hi >= self.storage.span_src_infos()[api_src.handle].rustc_start_offset,
        ensures
            r@.len() == hosts@.len(),
            forall|i: int|
                0 <= i < hosts@.len() ==> r@[i] == spec_from_host_span(
                    hosts@[i],
                    api_src,
                    self.storage.span_src_infos()[api_src.handle],
                ),
    {
        let converter = RustcConverter;
        let n = hosts.len();
        let mut spans: Vec<Span> = Vec::new();
        let mut i: usize = 0;
        while i < n
            invariant
                0 <= i <= n,
                n == hosts@.len(),
                spans@.len() == i,
                self.storage.span_src_infos().contains_key(api_src.handle),
                forall|j: int|
                    0 <= j < hosts@.len() ==> (#[trigger] hosts@[j]).lo
                        >= self.storage.span_src_infos()[api_src.handle].rustc_start_offset
                        && hosts@[j].hi >= self.storage.span_src_infos()[api_src.handle].rustc_start_offset,
                forall|j: int|
                    0 <= j < i ==> spans@[j] == spec_from_host_span(
                        hosts@[j],
                        api_src,
                        self.storage.span_src_infos()[api_src.handle],
                    ),
            decreases n - i,
        {
            spans.push(converter.from_host_span(&self.storage, api_src, hosts[i]));
            i = i + 1;
        }
        self.storage.alloc_slice_iter(spans)
    }

    /// The cached host-side metadata of a span source, or, when none is
    /// cached yet, the metadata just fetched from the host, which is
    /// cached now: metadata is fetched lazily, at most once per source.
    pub fn span_src_info_or_cache(&mut self, api_src: SpanSource, fetched: SpanSourceInfo) -> (r:
        SpanSourceInfo)
        requires
            old(self).wf(),
        ensures
            final(self).wf(),
            old(self).storage.span_src_infos().contains_key(api_src.handle) ==> {
                &&& r == old(self).storage.span_src_infos()[api_src.handle]
                &&& final(self).storage == old(self).storage
            },
            !old(self).storage.span_src_infos().contains_key(api_src.handle) ==> {
                &&& r == fetched
                &&& final(self).storage.span_src_infos() == old(self).storage.span_src_infos().insert(api_src.handle, fetched)
            },
            final(self).storage.span_src_infos().contains_key(api_src.handle) && final(self).storage.span_src_infos()[api_src.handle] == r,
            final(self).storage.span_srcs() == old(self).storage.span_srcs(),
            final(self).pat_nodes() == old(self).pat_nodes(),
            final(self).pat_memo() == old(self).pat_memo(),
            final(self).syn_ty_nodes() == old(self).syn_ty_nodes(),
            final(self).syn_ty_memo() == old(self).syn_ty_memo(),
            final(self).next_handle() == old(self).next_handle(),
    {
        match self.storage.span_src_info(api_src) {
            Some(info) => info,
            None => {
                self.storage.add_span_src_info(api_src, fetched);
                fetched
            },
        }
    }
}

} // verus!
