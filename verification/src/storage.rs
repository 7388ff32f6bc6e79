//! Arena storage and span-source bookkeeping for one analysis run.
//!
//! [`Storage`] owns every AST allocation of the run through a bump arena: no
//! allocation is moved or freed before the whole storage is dropped, so a
//! borrow handed out by [`Storage::alloc_value`] stays valid for the storage's
//! lifetime. Beside the arena sit two insert-once memo tables: host source
//! file to stable [`SpanSource`] handle, and handle to the host-side
//! [`SpanSourceInfo`] needed when a stable span is translated back to host
//! coordinates. Duplicate registration is a programming error, ruled out by
//! precondition; [`insert_once_no_collision`] states that a registration
//! never disturbs any other entry.
//!
//! The tables are the host's hash maps keyed by plain integers; the host
//! source file is identified by the caller-supplied key that stands for it.
use vstd::prelude::*;

use std::collections::HashMap;

use rustc_hash::FxBuildHasher;

use crate::span::{SpanSource, SpanSourceInfo};

verus! {

#[verifier::external_type_specification]
#[verifier::external_body]
pub struct ExBump<const MIN_ALIGN: usize>(bumpalo::Bump<MIN_ALIGN>);

#[verifier::external_type_specification]
#[verifier::external_body]
pub struct ExFxBuildHasher(FxBuildHasher);

/// Relies on `bumpalo::Bump::new`: creates an empty arena.
#[verifier::external_body]
fn new_bump() -> bumpalo::Bump<1> {
    bumpalo::Bump::new()
}

/// A hash map of the host's hashed-collections crate, keyed by `u64`.
pub type FxMap64<V> = HashMap<u64, V, FxBuildHasher>;

/// A hash map of the host's hashed-collections crate, keyed by `u32`.
pub type FxMap32<V> = HashMap<u32, V, FxBuildHasher>;

/// Relies on `HashMap::default`: the new map is empty.
#[verifier::external_body]
pub(crate) fn new_fx_map_u64<V>() -> (r: FxMap64<V>)
    ensures
        r@ == (Map::<u64, V>::empty()),
{
    rustc_hash::FxHashMap::default()
}

/// Relies on `HashMap::default`: the new map is empty.
#[verifier::external_body]
fn new_fx_map_u32<V>() -> (r: FxMap32<V>)
    ensures
        r@ == (Map::<u32, V>::empty()),
{
    rustc_hash::FxHashMap::default()
}

/// Relies on `HashMap::get` with rustc-hash's `FxBuildHasher`: `FxHasher`
/// is deterministic and integer keys compare structurally, so lookup agrees
/// with the map's contents.
#[verifier::external_body]
pub(crate) fn fx_map_get_u64<V: Copy>(m: &FxMap64<V>, k: u64) -> (r: Option<V>)
    ensures
        r == if m@.contains_key(k) {
            Some(m@[k])
        } else {
            None::<V>
        },
{
    m.get(&k).copied()
}

/// Relies on `HashMap::get` with rustc-hash's `FxBuildHasher`: `FxHasher`
/// is deterministic and integer keys compare structurally, so lookup agrees
/// with the map's contents.
#[verifier::external_body]
fn fx_map_get_u32<V: Copy>(m: &FxMap32<V>, k: u32) -> (r: Option<V>)
    ensures
        r == if m@.contains_key(k) {
            Some(m@[k])
        } else {
            None::<V>
        },
{
    m.get(&k).copied()
}

/// Relies on `HashMap::insert` with rustc-hash's `FxBuildHasher`: the entry
/// for the key is replaced and every other entry is kept.
#[verifier::external_body]
pub(crate) fn fx_map_insert_u64<V>(m: &mut FxMap64<V>, k: u64, v: V)
    ensures
        final(m)@ == old(m)@.insert(k, v),
{
    m.insert(k, v);
}

/// Relies on `HashMap::insert` with rustc-hash's `FxBuildHasher`: the entry
/// for the key is replaced and every other entry is kept.
#[verifier::external_body]
fn fx_map_insert_u32<V>(m: &mut FxMap32<V>, k: u32, v: V)
    ensures
        final(m)@ == old(m)@.insert(k, v),
{
    m.insert(k, v);
}

/// Single-owner arena plus the span-source memo tables of one analysis run.
pub struct Storage {
    buffer: bumpalo::Bump<1>,
    span_src_map: FxMap64<SpanSource>,
    span_infos: FxMap32<SpanSourceInfo>,
}

impl Storage {
    /// The registered host-source-to-handle table.
    pub closed spec fn span_srcs(self) -> Map<u64, SpanSource> {
        self.span_src_map@
    }

    /// The registered handle-to-host-metadata table.
    pub closed spec fn span_src_infos(self) -> Map<u32, SpanSourceInfo> {
        self.span_infos@
    }

    /// Creates the storage of a fresh run: an empty arena and empty memo
    /// tables.
    pub fn new() -> (s: Storage)
        ensures
            s.span_srcs() == Map::<u64, SpanSource>::empty(),
            s.span_src_infos() == Map::<u32, SpanSourceInfo>::empty(),
    {
        Storage {
            buffer: new_bump(),
            span_src_map: new_fx_map_u64(),
            span_infos: new_fx_map_u32(),
        }
    }

    /// Relies on `bumpalo::Bump::alloc`: the allocation holds exactly the
    /// given value and stays valid, unmoved and unchanged, for the arena's
    /// lifetime.
    #[verifier::external_body]
    #[must_use]
    pub fn alloc_value<T>(&self, value: T) -> (r: &T)
        ensures
            *r == value,
    {
        self.buffer.alloc(value)
    }

    /// Relies on `bumpalo::Bump::alloc_slice_fill_iter`: the allocated
    /// slice holds exactly the given items, in order, and stays valid for
    /// the arena's lifetime.
    #[verifier::external_body]
    #[must_use]
    pub fn alloc_slice_iter<T>(&self, items: Vec<T>) -> (r: &[T])
        ensures
            r@ == items@,
    {
        self.buffer.alloc_slice_fill_iter(items)
    }

    /// The stable handle registered for a host source file, if any.
    pub fn span_src(&self, rustc_src: u64) -> (r: Option<SpanSource>)
        ensures
            r == if self.span_srcs().contains_key(rustc_src) {
                Some(self.span_srcs()[rustc_src])
            } else {
                None::<SpanSource>
            },
    {
        fx_map_get_u64(&self.span_src_map, rustc_src)
    }

    /// Registers the stable handle of a host source file. Each host source
    /// is registered at most once per run; a second registration of the
    /// same key is a programming error and is ruled out up front.
    pub fn add_span_src(&mut self, rustc_src: u64, api_src: SpanSource)
        requires
            !old(self).span_srcs().contains_key(rustc_src),
        ensures
            final(self).span_srcs() == old(self).span_srcs().insert(rustc_src, api_src),
            final(self).span_src_infos() == old(self).span_src_infos(),
    {
        fx_map_insert_u64(&mut self.span_src_map, rustc_src, api_src);
    }

    /// The cached host-side metadata of a span source, if it was already
    /// fetched this run.
    pub fn span_src_info(&self, api_src: SpanSource) -> (r: Option<SpanSourceInfo>)
        ensures
            r == if self.span_src_infos().contains_key(api_src.handle) {
                Some(self.span_src_infos()[api_src.handle])
            } else {
                None::<SpanSourceInfo>
            },
    {
        fx_map_get_u32(&self.span_infos, api_src.handle)
    }

    /// Caches the host-side metadata of a span source. The metadata of a
    /// handle is registered at most once per run; a second registration of
    /// the same handle is a programming error and is ruled out up front.
    pub fn add_span_src_info(&mut self, api_src: SpanSource, src_info: SpanSourceInfo)
        requires
            !old(self).span_src_infos().contains_key(api_src.handle),
        ensures
            final(self).span_src_infos() == old(self).span_src_infos().insert(
                api_src.handle,
                src_info,
            ),
            final(self).span_srcs() == old(self).span_srcs(),
    {
        fx_map_insert_u32(&mut self.span_infos, api_src.handle, src_info);
    }
}

impl Default for Storage {
    /// Creates the storage of a fresh run, as [`Storage::new`] does.
    fn default() -> (s: Storage)
        ensures
            s.span_srcs() == Map::<u64, SpanSource>::empty(),
            s.span_src_infos() == Map::<u32, SpanSourceInfo>::empty(),
    {
        Storage::new()
    }
}

/// Insert-once tables never collide: registering a key that is not yet
/// present binds exactly that key and leaves the entry of every other key
/// untouched. Both memo tables of [`Storage`] register through this
/// discipline, as does the node memo table of the conversion facade.
pub proof fn insert_once_no_collision<K, V>(pre: Map<K, V>, post: Map<K, V>, key: K, value: V)
    requires
        !pre.contains_key(key),
        post == pre.insert(key, value),
    ensures
        post.contains_key(key) && post[key] == value,
        forall|other: K| other != key ==> pre.contains_key(other) == post.contains_key(other),
        forall|other: K|
            other != key && pre.contains_key(other) ==> post[other] == pre[other],
{
}

} // verus!
