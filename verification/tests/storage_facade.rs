use marker_bridge::facade::{hir_key, AstContext, NodeArena};
use marker_bridge::ids::{SpanId, VarId};
use marker_bridge::pat::{CommonPatData, IdentPat, PatKind, PatNode, WildcardPat};
use marker_bridge::span::{SpanSource, SpanSourceInfo};
use marker_bridge::storage::Storage;
use marker_bridge::translate::{HostHirId, HostSpan};
use marker_bridge::ty::{CommonSynTyData, SynTyKind, SynTyNode, TupleTy};

fn wildcard(raw: u64) -> PatNode {
    PatNode::Wildcard(WildcardPat { data: CommonPatData::new(SpanId { raw }) })
}

#[test]
fn arena_allocations_keep_their_value() {
    let storage = Storage::new();
    let a = storage.alloc_value(41u64);
    let b = storage.alloc_value(42u64);
    assert_eq!(*a, 41);
    assert_eq!(*b, 42);
}

#[test]
fn arena_slices_keep_their_items_in_order() {
    let storage = Storage::new();
    let items: Vec<u32> = vec![3, 1, 4, 1, 5];
    let slice = storage.alloc_slice_iter(items);
    assert_eq!(slice, &[3, 1, 4, 1, 5]);
}

#[test]
fn span_source_lookup_follows_registration() {
    let mut storage = Storage::new();
    assert_eq!(storage.span_src(10), None);
    let first = SpanSource { handle: 0 };
    let second = SpanSource { handle: 1 };
    storage.add_span_src(10, first);
    storage.add_span_src(11, second);
    assert_eq!(storage.span_src(10), Some(first));
    assert_eq!(storage.span_src(11), Some(second));
    assert_eq!(storage.span_src(12), None);
}

#[test]
fn span_source_metadata_lookup_follows_registration() {
    let mut storage = Storage::new();
    let src = SpanSource { handle: 5 };
    assert_eq!(storage.span_src_info(src), None);
    let info = SpanSourceInfo { rustc_span_cx: 2, rustc_start_offset: 1000 };
    storage.add_span_src_info(src, info);
    assert_eq!(storage.span_src_info(src), Some(info));
    assert_eq!(storage.span_src_info(SpanSource { handle: 6 }), None);
}

#[test]
fn node_arena_memoizes_by_key() {
    let mut arena: NodeArena<PatNode> = NodeArena::new();
    let first = arena.get_or_insert(7, wildcard(1));
    let again = arena.get_or_insert(7, wildcard(999));
    assert_eq!(first, again);
    assert_eq!(arena.len(), 1);
    assert_eq!(*arena.get(first), wildcard(1));
    let other = arena.get_or_insert(8, wildcard(2));
    assert_ne!(first, other);
    assert_eq!(arena.len(), 2);
    assert_eq!(arena.lookup(7), Some(first));
    assert_eq!(arena.lookup(9), None);
}

#[test]
fn converting_the_same_host_pattern_twice_yields_the_same_slot() {
    let mut cx = AstContext::new();
    let hid = HostHirId { owner: 1, local_id: 2 };
    let node = PatNode::Ident(IdentPat {
        data: CommonPatData::new(SpanId { raw: 3 }),
        var: VarId { owner: 1, index: 2 },
        is_mut: false,
        is_ref: false,
    });
    let first = cx.convert_pat(hid, node.clone());
    let second = cx.convert_pat(hid, node.clone());
    assert_eq!(first, second);
    match cx.pat(first) {
        PatKind::Ident(ident) => assert_eq!(*ident, match node {
            PatNode::Ident(i) => i,
            _ => unreachable!(),
        }),
        _ => panic!("expected an identifier pattern"),
    }
    let other = cx.convert_pat(HostHirId { owner: 1, local_id: 3 }, wildcard(4));
    assert_ne!(first, other);
}

#[test]
fn converting_the_same_host_type_twice_yields_the_same_slot() {
    let mut cx = AstContext::new();
    let hid = HostHirId { owner: 2, local_id: 0 };
    let node = SynTyNode::Tuple(TupleTy { data: CommonSynTyData::new_syntactic(SpanId { raw: 5 }) });
    let first = cx.convert_syn_ty(hid, node);
    let second = cx.convert_syn_ty(hid, node);
    assert_eq!(first, second);
    match cx.syn_ty(first) {
        SynTyKind::Tuple(t) => assert_eq!(t.data.span, SpanId { raw: 5 }),
        _ => panic!("expected a tuple type"),
    }
}

#[test]
fn hir_keys_separate_owner_and_local_index() {
    let a = hir_key(HostHirId { owner: 1, local_id: 0 });
    let b = hir_key(HostHirId { owner: 0, local_id: 1 });
    let c = hir_key(HostHirId { owner: 1, local_id: 1 });
    assert_ne!(a, b);
    assert_ne!(a, c);
    assert_ne!(b, c);
    assert_eq!(a, 0x1_0000_0000);
    assert_eq!(b, 1);
}

#[test]
fn span_sources_register_once_per_host_file() {
    let mut cx = AstContext::new();
    let first = cx.get_or_register_span_src(100);
    let again = cx.get_or_register_span_src(100);
    assert_eq!(first, again);
    let other = cx.get_or_register_span_src(101);
    assert_ne!(first, other);
    assert_eq!(first, SpanSource { handle: 0 });
    assert_eq!(other, SpanSource { handle: 1 });
}

#[test]
fn span_source_metadata_is_cached_on_first_fetch() {
    let mut cx = AstContext::new();
    let src = cx.get_or_register_span_src(100);
    let fetched = SpanSourceInfo { rustc_span_cx: 3, rustc_start_offset: 50 };
    let first = cx.span_src_info_or_cache(src, fetched);
    assert_eq!(first, fetched);
    let ignored = SpanSourceInfo { rustc_span_cx: 9, rustc_start_offset: 9999 };
    let second = cx.span_src_info_or_cache(src, ignored);
    assert_eq!(second, fetched);
}

#[test]
fn facade_allocates_translated_spans_in_the_arena() {
    let mut cx = AstContext::new();
    let src = cx.get_or_register_span_src(100);
    cx.span_src_info_or_cache(src, SpanSourceInfo { rustc_span_cx: 1, rustc_start_offset: 10 });
    let span = cx.alloc_api_span(src, HostSpan { lo: 15, hi: 20, ctxt: 1 });
    assert_eq!(span.start(), 5);
    assert_eq!(span.end(), 10);
    assert_eq!(span.source(), src);
    let spans = cx.alloc_api_spans(
        src,
        &vec![HostSpan { lo: 10, hi: 12, ctxt: 1 }, HostSpan { lo: 30, hi: 40, ctxt: 1 }],
    );
    assert_eq!(spans.len(), 2);
    assert_eq!(spans[0].start(), 0);
    assert_eq!(spans[0].end(), 2);
    assert_eq!(spans[1].start(), 20);
    assert_eq!(spans[1].end(), 30);
}
