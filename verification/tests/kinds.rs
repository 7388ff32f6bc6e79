use marker_bridge::fn_ptr_ty::{CommonCallableData, FnPtrTy};
use marker_bridge::ids::{GenericId, SpanId, TyDefId, VarId};
use marker_bridge::pat::{
    CommonPatData, IdentPat, PatData, PatKind, RefPat, RestPat, StructPat, WildcardPat,
};
use marker_bridge::ty::{
    ArrayTy, BoolTy, ClosureTy, CommonSynTyData, ImplTraitTy, InferredTy, NeverTy, NumTy, PathTy,
    RawPtrTy, RefTy, SemAdtTy, SemAliasTy, SemGenericTy, SemNumTy, SemTyKind, SemUnstableTy,
    SliceTy, SynTyData, SynTyKind, TextTy, TraitObjTy, TupleTy,
};

fn header(raw: u64) -> CommonSynTyData {
    CommonSynTyData::new_syntactic(SpanId { raw })
}

#[test]
fn common_headers_keep_their_span() {
    assert_eq!(CommonPatData::new(SpanId { raw: 9 }).span, SpanId { raw: 9 });
    assert_eq!(CommonSynTyData::new_syntactic(SpanId { raw: 8 }).span, SpanId { raw: 8 });
}

#[test]
fn fn_ptr_ty_keeps_both_headers() {
    let callable = CommonCallableData { is_unsafe: false, is_extern: false, param_count: 2 };
    let ty = FnPtrTy::new(header(4), callable);
    assert_eq!(ty.data, header(4));
    assert_eq!(ty.callable_data, callable);
    assert!(matches!(ty.as_kind(), SynTyKind::FnPtr(_)));
}

#[test]
fn primitive_types_satisfy_only_the_primitive_predicate() {
    let bool_ty = BoolTy { data: header(1) };
    let num_ty = NumTy { data: header(2) };
    let text_ty = TextTy { data: header(3) };
    let never_ty = NeverTy { data: header(4) };
    for kind in [
        bool_ty.as_kind(),
        num_ty.as_kind(),
        text_ty.as_kind(),
        never_ty.as_kind(),
    ] {
        assert!(kind.is_primitive_ty());
        assert!(!kind.is_sequence_ty());
        assert!(!kind.is_fn());
        assert!(!kind.is_ptr_ty());
        assert!(!kind.is_trait_ty());
        assert!(!kind.is_inferred());
    }
}

#[test]
fn sequence_types_satisfy_only_the_sequence_predicate() {
    let tuple_ty = TupleTy { data: header(1) };
    let array_ty = ArrayTy { data: header(2) };
    let slice_ty = SliceTy { data: header(3) };
    for kind in [tuple_ty.as_kind(), array_ty.as_kind(), slice_ty.as_kind()] {
        assert!(kind.is_sequence_ty());
        assert!(!kind.is_primitive_ty());
        assert!(!kind.is_fn());
        assert!(!kind.is_ptr_ty());
        assert!(!kind.is_trait_ty());
        assert!(!kind.is_inferred());
    }
}

#[test]
fn fn_ptr_is_both_function_and_pointer() {
    let callable = CommonCallableData { is_unsafe: false, is_extern: false, param_count: 0 };
    let fn_ptr = FnPtrTy::new(header(1), callable);
    let kind = fn_ptr.as_kind();
    assert!(kind.is_fn());
    assert!(kind.is_ptr_ty());
    assert!(!kind.is_primitive_ty());
    assert!(!kind.is_sequence_ty());
    assert!(!kind.is_trait_ty());
    assert!(!kind.is_inferred());

    let closure_ty = ClosureTy { data: header(2) };
    assert!(closure_ty.as_kind().is_fn());
    assert!(!closure_ty.as_kind().is_ptr_ty());

    let ref_ty = RefTy { data: header(3), is_mut: false };
    let raw_ptr_ty = RawPtrTy { data: header(4), is_mut: true };
    for kind in [ref_ty.as_kind(), raw_ptr_ty.as_kind()] {
        assert!(kind.is_ptr_ty());
        assert!(!kind.is_fn());
    }
}

#[test]
fn trait_inferred_and_path_types_classify_exactly() {
    let trait_obj = TraitObjTy { data: header(1) };
    let impl_trait = ImplTraitTy { data: header(2) };
    for kind in [trait_obj.as_kind(), impl_trait.as_kind()] {
        assert!(kind.is_trait_ty());
        assert!(!kind.is_primitive_ty());
        assert!(!kind.is_sequence_ty());
        assert!(!kind.is_fn());
        assert!(!kind.is_ptr_ty());
        assert!(!kind.is_inferred());
    }
    let inferred = InferredTy { data: header(3) };
    assert!(inferred.as_kind().is_inferred());
    assert!(!inferred.as_kind().is_trait_ty());
    let path = PathTy { data: header(4) };
    let kind = path.as_kind();
    assert!(
        !kind.is_primitive_ty() && !kind.is_sequence_ty() && !kind.is_fn() && !kind.is_ptr_ty()
            && !kind.is_trait_ty() && !kind.is_inferred()
    );
}

#[test]
fn syn_ty_kind_span_dispatches_to_the_node() {
    let num_ty = NumTy { data: header(12) };
    assert_eq!(num_ty.as_kind().span(), SpanId { raw: 12 });
    assert_eq!(num_ty.span(), SpanId { raw: 12 });
}

#[test]
fn pat_kinds_project_and_dispatch_span() {
    let ident = IdentPat {
        data: CommonPatData::new(SpanId { raw: 1 }),
        var: VarId { owner: 0, index: 0 },
        is_mut: true,
        is_ref: false,
    };
    let wildcard = WildcardPat { data: CommonPatData::new(SpanId { raw: 2 }) };
    let rest = RestPat { data: CommonPatData::new(SpanId { raw: 3 }) };
    let reference = RefPat { data: CommonPatData::new(SpanId { raw: 4 }), is_mut: false };
    let strukt = StructPat {
        data: CommonPatData::new(SpanId { raw: 5 }),
        ty: TyDefId { krate: 0, index: 1 },
        field_count: 2,
        has_rest: false,
    };
    assert!(matches!(ident.as_pat(), PatKind::Ident(_)));
    assert!(matches!(wildcard.as_pat(), PatKind::Wildcard(_)));
    assert!(matches!(rest.as_pat(), PatKind::Rest(_)));
    assert!(matches!(reference.as_pat(), PatKind::Ref(_)));
    assert!(matches!(strukt.as_pat(), PatKind::Struct(_)));
    assert_eq!(ident.as_pat().span(), SpanId { raw: 1 });
    assert_eq!(strukt.as_pat().span(), SpanId { raw: 5 });
    assert_eq!(PatData::span(&rest), SpanId { raw: 3 });
}

#[test]
fn semantic_kinds_carry_their_definitions() {
    let adt = SemAdtTy { def: TyDefId { krate: 1, index: 2 } };
    let generic = SemGenericTy { generic: GenericId { krate: 0, index: 3 } };
    let alias = SemAliasTy { alias: TyDefId { krate: 0, index: 4 } };
    let num = SemNumTy;
    let unstable = SemUnstableTy;
    let kinds = [
        SemTyKind::Adt(&adt),
        SemTyKind::Generic(&generic),
        SemTyKind::Alias(&alias),
        SemTyKind::Num(&num),
        SemTyKind::Unstable(&unstable),
    ];
    match kinds[0] {
        SemTyKind::Adt(a) => assert_eq!(a.def, TyDefId { krate: 1, index: 2 }),
        _ => panic!("expected a user-defined type"),
    }
    assert!(matches!(kinds[3], SemTyKind::Num(_)));
    assert!(matches!(kinds[4], SemTyKind::Unstable(_)));
}
