use marker_bridge::diag::{Applicability, EmissionNode, Level};
use marker_bridge::ids::{
    BodyId, CrateId, ExprId, FieldId, ItemId, LetStmtId, SpanId, StmtId, StmtIdInner, SymbolId,
    VariantId,
};
use marker_bridge::span::{Span, SpanSource, SpanSourceInfo};
use marker_bridge::storage::Storage;
use marker_bridge::translate::{
    HirLookup, HostApplicability, HostBodyId, HostCrateNum, HostDefId, HostDiagnostic,
    HostHirId, HostLintLevel, HostSpan, HostSpanId, HostSymbol, MarkerConverter, RustcConverter,
};

#[test]
fn crate_num_round_trips() {
    let rustc = RustcConverter;
    let marker = MarkerConverter;
    let host = HostCrateNum { data: 17 };
    assert_eq!(rustc.to_crate_num(marker.to_crate_id(host)), host);
    let api = CrateId { data: 23 };
    assert_eq!(marker.to_crate_id(rustc.to_crate_num(api)), api);
}

#[test]
fn def_like_ids_round_trip() {
    let rustc = RustcConverter;
    let marker = MarkerConverter;
    let host = HostDefId { krate: 4, index: 99 };
    assert_eq!(rustc.to_def_id(marker.to_api_item_id(host).def_id_info()), host);
    assert_eq!(rustc.to_def_id(marker.to_ty_def_id(host).def_id_info()), host);
    assert_eq!(rustc.to_def_id(marker.to_generic_id(host).def_id_info()), host);
    assert_eq!(rustc.to_def_id(marker.to_variant_id(host).def_id_info()), host);
    let api = ItemId { krate: 1, index: 2 };
    assert_eq!(marker.to_api_item_id(rustc.to_def_id(api.def_id_info())), api);
}

#[test]
fn expr_like_ids_round_trip() {
    let rustc = RustcConverter;
    let marker = MarkerConverter;
    let host = HostHirId { owner: 7, local_id: 31 };
    assert_eq!(rustc.to_hir_id(marker.to_expr_id(host).hir_id_info()), host);
    assert_eq!(rustc.to_hir_id(marker.to_var_id(host).hir_id_info()), host);
    assert_eq!(rustc.to_hir_id(marker.to_field_id(host).hir_id_info()), host);
    assert_eq!(rustc.to_hir_id(marker.to_let_stmt_id(host).hir_id_info()), host);
    let api = ExprId { owner: 11, index: 12 };
    assert_eq!(marker.to_expr_id(rustc.to_hir_id(api.hir_id_info())), api);
}

#[test]
fn body_symbol_and_span_ids_round_trip() {
    let rustc = RustcConverter;
    let marker = MarkerConverter;
    let host_body = HostBodyId { hir_id: HostHirId { owner: 3, local_id: 0 } };
    assert_eq!(rustc.to_body_id(marker.to_api_body_id(host_body)), host_body);
    let api_body = BodyId { owner: 9, index: 4 };
    assert_eq!(marker.to_api_body_id(rustc.to_body_id(api_body)), api_body);

    let host_sym = HostSymbol { data: 512 };
    assert_eq!(rustc.to_symbol(marker.to_symbol_id(host_sym)), host_sym);
    assert_eq!(marker.to_symbol_id(rustc.to_symbol(SymbolId { data: 8 })), SymbolId { data: 8 });

    let host_span = HostSpanId { raw: 0xdead_beef_0123 };
    assert_eq!(rustc.to_span_from_id(marker.to_span_id(host_span)), host_span);
    assert_eq!(
        marker.to_span_id(rustc.to_span_from_id(SpanId { raw: 77 })),
        SpanId { raw: 77 }
    );
}

#[test]
fn item_id_maps_to_local_definition_index() {
    let rustc = RustcConverter;
    let api = ItemId { krate: 0, index: 41 };
    assert_eq!(rustc.to_item_id(api).local_def_index, 41);
}

#[test]
fn lint_levels_map_in_order() {
    let rustc = RustcConverter;
    assert_eq!(rustc.to_lint_level(Level::Allow), HostLintLevel::Allow);
    assert_eq!(rustc.to_lint_level(Level::Warn), HostLintLevel::Warn);
    assert_eq!(rustc.to_lint_level(Level::Deny), HostLintLevel::Deny);
    assert_eq!(rustc.to_lint_level(Level::Forbid), HostLintLevel::Forbid);
    assert_eq!(RustcConverter::static_to_lint_level(Level::Warn), HostLintLevel::Warn);
}

#[test]
fn applicability_maps_variant_for_variant() {
    let rustc = RustcConverter;
    assert_eq!(
        rustc.to_applicability(Applicability::MachineApplicable),
        HostApplicability::MachineApplicable
    );
    assert_eq!(
        rustc.to_applicability(Applicability::MaybeIncorrect),
        HostApplicability::MaybeIncorrect
    );
    assert_eq!(
        rustc.to_applicability(Applicability::HasPlaceholders),
        HostApplicability::HasPlaceholders
    );
    assert_eq!(
        rustc.to_applicability(Applicability::Unspecified),
        HostApplicability::Unspecified
    );
}

#[test]
fn emission_nodes_resolve_towards_host_nodes() {
    let rustc = RustcConverter;
    let expr = ExprId { owner: 2, index: 5 };
    assert_eq!(
        rustc.try_to_hir_id_from_emission_node(EmissionNode::Expr(expr)),
        HirLookup::Direct(HostHirId { owner: 2, local_id: 5 })
    );
    let local_item = ItemId { krate: 0, index: 6 };
    assert_eq!(
        rustc.try_to_hir_id_from_emission_node(EmissionNode::Item(local_item)),
        HirLookup::LocalDef(6)
    );
    let foreign_variant = VariantId { krate: 3, index: 6 };
    assert_eq!(
        rustc.try_to_hir_id_from_emission_node(EmissionNode::Variant(foreign_variant)),
        HirLookup::Foreign
    );
    let field = FieldId { owner: 1, index: 1 };
    assert_eq!(
        rustc.try_to_hir_id_from_emission_node(EmissionNode::Field(field)),
        HirLookup::Direct(HostHirId { owner: 1, local_id: 1 })
    );
    let stmt = StmtId { data: StmtIdInner::LetStmt(LetStmtId { owner: 4, index: 9 }) };
    assert_eq!(
        rustc.try_to_hir_id_from_emission_node(EmissionNode::Stmt(stmt)),
        HirLookup::Direct(HostHirId { owner: 4, local_id: 9 })
    );
    let stmt_item = StmtId { data: StmtIdInner::Item(ItemId { krate: 0, index: 13 }) };
    assert_eq!(
        rustc.try_to_hir_id_from_emission_node(EmissionNode::Stmt(stmt_item)),
        HirLookup::LocalDef(13)
    );
}

#[test]
fn span_translation_adds_base_and_context() {
    let rustc = RustcConverter;
    let mut storage = Storage::new();
    let src = SpanSource { handle: 1 };
    storage.add_span_src(900, src);
    storage.add_span_src_info(
        src,
        SpanSourceInfo { rustc_span_cx: 7, rustc_start_offset: 100 },
    );
    let api_span = Span::new(src, 5, 9);
    let host = rustc.to_span(&storage, &api_span);
    assert_eq!(host, HostSpan { lo: 105, hi: 109, ctxt: 7 });
    let back = rustc.from_host_span(&storage, src, host);
    assert_eq!(back, api_span);
}

#[test]
fn span_translation_from_host_strips_exactly_the_base() {
    let rustc = RustcConverter;
    let mut storage = Storage::new();
    let src = SpanSource { handle: 0 };
    storage.add_span_src(1, src);
    storage.add_span_src_info(
        src,
        SpanSourceInfo { rustc_span_cx: 0, rustc_start_offset: 64 },
    );
    let host = HostSpan { lo: 64, hi: 80, ctxt: 0 };
    let api = rustc.from_host_span(&storage, src, host);
    assert_eq!(api.start(), 0);
    assert_eq!(api.end(), 16);
    assert_eq!(api.source(), src);
    assert_eq!(rustc.to_span(&storage, &api), host);
}

#[test]
fn diagnostics_resolve_to_host_terms() {
    let rustc = RustcConverter;
    let node = EmissionNode::Expr(ExprId { owner: 6, index: 2 });
    let diag = rustc.to_diagnostic(node, Level::Deny, Applicability::MaybeIncorrect);
    assert_eq!(
        diag,
        HostDiagnostic {
            target: HirLookup::Direct(HostHirId { owner: 6, local_id: 2 }),
            level: HostLintLevel::Deny,
            applicability: HostApplicability::MaybeIncorrect,
        }
    );
}
