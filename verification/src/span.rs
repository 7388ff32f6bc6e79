//! Stable spans and span sources.
//!
//! A [`Span`] is a lightweight value: a source handle plus start/end byte
//! offsets, copyable without touching the arena. A [`SpanSource`] is the
//! opaque handle identifying the file or buffer a span points into; it is
//! registered at most once per underlying file. The metadata needed to
//! translate a stable span back into host coordinates is kept in
//! [`SpanSourceInfo`] and cached separately, since most spans are only read.
use vstd::prelude::*;

verus! {

/// Opaque handle identifying one registered source file or buffer.
#[derive(Debug, Clone, Copy, PartialEq, Eq, Hash, Structural)]
pub struct SpanSource {
    pub handle: u32,
}

/// Host-side metadata of a registered span source: the synthetic-context
/// tag the host attached to the file, and the byte offset at which the
/// file's contents start in the host's global source map.
#[derive(Debug, Clone, Copy, PartialEq, Eq, Structural)]
pub struct SpanSourceInfo {
    pub rustc_span_cx: u32,
    pub rustc_start_offset: usize,
}

/// A byte-offset range `[start, end)` into a registered span source.
#[derive(Debug, Clone, Copy, PartialEq, Eq, Structural)]
pub struct Span {
    pub source: SpanSource,
    pub start: usize,
    pub end: usize,
}

impl Span {
    /// Builds a span from its source handle and byte offsets.
    pub fn new(source: SpanSource, start: usize, end: usize) -> (r: Span)
        ensures
            r.source == source,
            r.start == start,
            r.end == end,
    {
        Span { source, start, end }
    }

    /// The handle of the source this span points into.
    pub fn source(&self) -> (r: SpanSource)
        ensures
            r == self.source,
    {
        self.source
    }

    /// The start byte offset, relative to the span source.
    pub fn start(&self) -> (r: usize)
        ensures
            r == self.start,
    {
        self.start
    }

    /// The end byte offset, relative to the span source.
    pub fn end(&self) -> (r: usize)
        ensures
            r == self.end,
    {
        self.end
    }
}

} // verus!
