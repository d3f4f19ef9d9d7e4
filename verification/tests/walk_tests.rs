//! Behavior of the walker on small bodies: the documented scenarios for
//! cell accesses, pointer offsets, releases, allocation, bulk operations
//! and null handling.

use mir_rewrite::ctx::{AnalysisCtxt, FnSig, PtrClass};
use mir_rewrite::ir::{
    BasicBlockData, Body, Callee, Location, Mutability, Operand, Place, PlaceElem, Rvalue,
    StatementKind, TerminatorKind,
};
use mir_rewrite::rewrite::{MirRewrite, RewriteKind, SubLoc};
use mir_rewrite::shape::Ownership;
use mir_rewrite::ty::{ty_clone, FieldTy, LTy, Ty};
use mir_rewrite::walk::gen_mir_rewrites;
use mir_rewrite::zeroize::ZeroizeType;

fn u32_ty() -> Ty {
    Ty::Uint { bytes: 4 }
}

fn base_class(own: Ownership) -> PtrClass {
    PtrClass {
        own,
        offset_add: false,
        offset_sub: false,
        non_null: true,
        dyn_owned: false,
        fixed: false,
        used: false,
    }
}

fn plain_lty(ty: Ty) -> LTy {
    LTy { label: None, ty, args: vec![] }
}

fn ptr_lty(label: u32, mutbl: bool, pointee: Ty) -> LTy {
    LTy {
        label: Some(label),
        ty: Ty::RawPtr { mutbl, pointee: Box::new(ty_clone(&pointee)) },
        args: vec![plain_lty(pointee)],
    }
}

fn ctx(classes: Vec<PtrClass>, local_tys: Vec<LTy>, addr_of_local: Vec<Option<u32>>) -> AnalysisCtxt {
    let n = classes.len();
    AnalysisCtxt {
        classes,
        pointee_tys: (0..n).map(|_| None).collect(),
        fn_sigs: vec![],
        local_tys,
        addr_of_local,
    }
}

fn place(local: usize, projection: Vec<PlaceElem>) -> Place {
    Place { local, projection }
}

fn one_statement_body(stmt: StatementKind) -> Body {
    Body {
        basic_blocks: vec![BasicBlockData { statements: vec![stmt], terminator: None }],
    }
}

fn one_call_body(term: TerminatorKind) -> Body {
    Body { basic_blocks: vec![BasicBlockData { statements: vec![], terminator: Some(term) }] }
}

fn rw(kind: RewriteKind, sub_loc: Vec<SubLoc>) -> MirRewrite {
    MirRewrite { kind, sub_loc }
}

#[test]
fn cell_write_emits_exactly_one_cell_set_and_no_cast() {
    let acx = ctx(
        vec![base_class(Ownership::Cell)],
        vec![ptr_lty(0, true, u32_ty())],
        vec![None],
    );
    let body = one_statement_body(StatementKind::Assign {
        place: place(0, vec![PlaceElem::Deref]),
        rvalue: Rvalue::Use(Operand::Constant { zero: false }),
        rv_lty: plain_lty(u32_ty()),
    });
    let (map, errs) = gen_mir_rewrites(&acx, &body);
    assert_eq!(
        map,
        vec![(
            Location { block: 0, statement_index: 0 },
            vec![rw(RewriteKind::CellSet, vec![])],
        )]
    );
    assert!(!errs.complex_cell && !errs.unsupported_ir && !errs.failed_cast);
}

#[test]
fn cell_read_emits_exactly_one_cell_get_and_no_cast() {
    let acx = ctx(
        vec![base_class(Ownership::Cell)],
        vec![ptr_lty(0, true, u32_ty()), plain_lty(u32_ty())],
        vec![None, None],
    );
    let body = one_statement_body(StatementKind::Assign {
        place: place(1, vec![]),
        rvalue: Rvalue::Use(Operand::Copy(place(0, vec![PlaceElem::Deref]))),
        rv_lty: plain_lty(u32_ty()),
    });
    let (map, errs) = gen_mir_rewrites(&acx, &body);
    assert_eq!(
        map,
        vec![(
            Location { block: 0, statement_index: 0 },
            vec![rw(RewriteKind::CellGet, vec![SubLoc::Rvalue])],
        )]
    );
    assert!(!errs.complex_cell && !errs.failed_cast);
}

#[test]
fn complex_cell_write_records_the_reason() {
    // Two levels of projection through a cell-classified pointer.
    let acx = ctx(
        vec![base_class(Ownership::Cell)],
        vec![ptr_lty(0, true, u32_ty())],
        vec![None],
    );
    let body = one_statement_body(StatementKind::Assign {
        place: place(0, vec![PlaceElem::Deref, PlaceElem::Index]),
        rvalue: Rvalue::Use(Operand::Constant { zero: false }),
        rv_lty: plain_lty(u32_ty()),
    });
    let (map, errs) = gen_mir_rewrites(&acx, &body);
    // The reason is recorded and the cell-write rewrite is skipped.
    assert!(errs.complex_cell);
    assert_eq!(map, vec![]);
}

#[test]
fn offsetable_cell_write_is_skipped_too() {
    // Multiplicity other than single fires the same guard.
    let mut c0 = base_class(Ownership::Cell);
    c0.offset_add = true;
    let acx = ctx(vec![c0], vec![ptr_lty(0, true, u32_ty())], vec![None]);
    let body = one_statement_body(StatementKind::Assign {
        place: place(0, vec![PlaceElem::Deref]),
        rvalue: Rvalue::Use(Operand::Constant { zero: false }),
        rv_lty: plain_lty(u32_ty()),
    });
    let (map, errs) = gen_mir_rewrites(&acx, &body);
    assert!(errs.complex_cell);
    assert_eq!(map, vec![]);
}

#[test]
fn ptr_offset_between_matching_slices_emits_one_reslice() {
    let mut c0 = base_class(Ownership::Imm);
    c0.offset_add = true;
    let mut c1 = base_class(Ownership::Imm);
    c1.offset_add = true;
    let acx = ctx(
        vec![c0, c1],
        vec![ptr_lty(0, false, u32_ty()), ptr_lty(1, false, u32_ty())],
        vec![None, None],
    );
    let body = one_call_body(TerminatorKind::Call {
        callee: Callee::PtrOffset,
        args: vec![Operand::Copy(place(0, vec![]))],
        destination: place(1, vec![]),
    });
    let (map, errs) = gen_mir_rewrites(&acx, &body);
    assert_eq!(
        map,
        vec![(
            Location { block: 0, statement_index: 0 },
            vec![rw(RewriteKind::OffsetSlice { mutbl: false }, vec![SubLoc::Rvalue])],
        )]
    );
    assert!(!errs.failed_cast);
}

#[test]
fn nullable_ptr_offset_maps_the_reslice() {
    let mut c0 = base_class(Ownership::Imm);
    c0.offset_add = true;
    c0.non_null = false;
    let mut c1 = base_class(Ownership::Imm);
    c1.offset_add = true;
    c1.non_null = false;
    let acx = ctx(
        vec![c0, c1],
        vec![ptr_lty(0, false, u32_ty()), ptr_lty(1, false, u32_ty())],
        vec![None, None],
    );
    let body = one_call_body(TerminatorKind::Call {
        callee: Callee::PtrOffset,
        args: vec![Operand::Copy(place(0, vec![]))],
        destination: place(1, vec![]),
    });
    let (map, _) = gen_mir_rewrites(&acx, &body);
    assert_eq!(
        map,
        vec![(
            Location { block: 0, statement_index: 0 },
            vec![rw(
                RewriteKind::OptionMapOffsetSlice { mutbl: false },
                vec![SubLoc::Rvalue],
            )],
        )]
    );
}

#[test]
fn release_of_dyn_owned_pointer_establishes_ownership_first() {
    let mut c0 = base_class(Ownership::Owning);
    c0.dyn_owned = true;
    let acx = ctx(
        vec![c0],
        vec![ptr_lty(0, true, u32_ty()), plain_lty(Ty::Opaque { oid: 0, size: 0 })],
        vec![None, None],
    );
    let body = one_call_body(TerminatorKind::Call {
        callee: Callee::Free,
        args: vec![Operand::Move(place(0, vec![]))],
        destination: place(1, vec![]),
    });
    let (map, errs) = gen_mir_rewrites(&acx, &body);
    assert_eq!(
        map,
        vec![(
            Location { block: 0, statement_index: 0 },
            vec![
                rw(
                    RewriteKind::DynOwnedUnwrap,
                    vec![SubLoc::Rvalue, SubLoc::CallArg(0)],
                ),
                rw(RewriteKind::FreeSafe { single: true }, vec![SubLoc::Rvalue]),
            ],
        )]
    );
    assert!(!errs.failed_cast);
}

#[test]
fn release_of_owning_pointer_needs_no_cast() {
    let acx = ctx(
        vec![base_class(Ownership::Owning)],
        vec![ptr_lty(0, true, u32_ty()), plain_lty(Ty::Opaque { oid: 0, size: 0 })],
        vec![None, None],
    );
    let body = one_call_body(TerminatorKind::Call {
        callee: Callee::Free,
        args: vec![Operand::Move(place(0, vec![]))],
        destination: place(1, vec![]),
    });
    let (map, _) = gen_mir_rewrites(&acx, &body);
    assert_eq!(
        map,
        vec![(
            Location { block: 0, statement_index: 0 },
            vec![rw(RewriteKind::FreeSafe { single: true }, vec![SubLoc::Rvalue])],
        )]
    );
}

#[test]
fn release_of_borrow_classified_pointer_fails_the_cast() {
    // The owning-shape cast cannot be built from a plain borrow: the
    // walk records a failed cast instead of silently releasing.
    let acx = ctx(
        vec![base_class(Ownership::Imm)],
        vec![ptr_lty(0, false, u32_ty()), plain_lty(Ty::Opaque { oid: 0, size: 0 })],
        vec![None, None],
    );
    let body = one_call_body(TerminatorKind::Call {
        callee: Callee::Free,
        args: vec![Operand::Move(place(0, vec![]))],
        destination: place(1, vec![]),
    });
    let (map, errs) = gen_mir_rewrites(&acx, &body);
    // The whole call emits nothing: no release rewrite stands without the
    // owning-shape cast in front of it.
    assert!(errs.failed_cast);
    assert_eq!(map, vec![]);
}

#[test]
fn is_null_becomes_absence_test_when_nullable() {
    let mut c0 = base_class(Ownership::Imm);
    c0.non_null = false;
    let acx = ctx(
        vec![c0],
        vec![ptr_lty(0, false, u32_ty()), plain_lty(Ty::Bool)],
        vec![None, None],
    );
    let body = one_call_body(TerminatorKind::Call {
        callee: Callee::IsNull,
        args: vec![Operand::Copy(place(0, vec![]))],
        destination: place(1, vec![]),
    });
    let (map, _) = gen_mir_rewrites(&acx, &body);
    assert_eq!(
        map,
        vec![(
            Location { block: 0, statement_index: 0 },
            vec![rw(RewriteKind::IsNullToIsNone, vec![SubLoc::Rvalue])],
        )]
    );
}

#[test]
fn is_null_becomes_false_when_proven_non_null() {
    let acx = ctx(
        vec![base_class(Ownership::Imm)],
        vec![ptr_lty(0, false, u32_ty()), plain_lty(Ty::Bool)],
        vec![None, None],
    );
    let body = one_call_body(TerminatorKind::Call {
        callee: Callee::IsNull,
        args: vec![Operand::Copy(place(0, vec![]))],
        destination: place(1, vec![]),
    });
    let (map, _) = gen_mir_rewrites(&acx, &body);
    assert_eq!(
        map,
        vec![(
            Location { block: 0, statement_index: 0 },
            vec![rw(RewriteKind::IsNullToConstFalse, vec![SubLoc::Rvalue])],
        )]
    );
}

#[test]
fn null_constant_becomes_none_only_when_nullable() {
    let mut c0 = base_class(Ownership::Imm);
    c0.non_null = false;
    let acx = ctx(
        vec![c0],
        vec![ptr_lty(0, false, u32_ty())],
        vec![None],
    );
    let body = one_call_body(TerminatorKind::Call {
        callee: Callee::Null,
        args: vec![],
        destination: place(0, vec![]),
    });
    let (map, _) = gen_mir_rewrites(&acx, &body);
    assert_eq!(
        map,
        vec![(
            Location { block: 0, statement_index: 0 },
            vec![rw(RewriteKind::PtrNullToNone, vec![SubLoc::Rvalue])],
        )]
    );

    // A destination proven non-null and not exempt is an impossible
    // classification: nothing is emitted and the reason is recorded.
    let acx2 = ctx(
        vec![base_class(Ownership::Imm)],
        vec![ptr_lty(0, false, u32_ty())],
        vec![None],
    );
    let body2 = one_call_body(TerminatorKind::Call {
        callee: Callee::Null,
        args: vec![],
        destination: place(0, vec![]),
    });
    let (map2, errs2) = gen_mir_rewrites(&acx2, &body2);
    assert_eq!(map2, vec![]);
    assert!(errs2.impossible_null);

    // An exempt destination is simply left alone.
    let mut fixed = base_class(Ownership::Imm);
    fixed.fixed = true;
    let acx3 = ctx(vec![fixed], vec![ptr_lty(0, false, u32_ty())], vec![None]);
    let body3 = one_call_body(TerminatorKind::Call {
        callee: Callee::Null,
        args: vec![],
        destination: place(0, vec![]),
    });
    let (map3, errs3) = gen_mir_rewrites(&acx3, &body3);
    assert_eq!(map3, vec![]);
    assert!(!errs3.impossible_null);
}

#[test]
fn deref_of_nullable_owning_pointer_downgrades_then_unwraps() {
    let mut c0 = base_class(Ownership::Owning);
    c0.non_null = false;
    let acx = ctx(
        vec![c0],
        vec![ptr_lty(0, true, u32_ty()), plain_lty(u32_ty())],
        vec![None, None],
    );
    let body = one_statement_body(StatementKind::Assign {
        place: place(1, vec![]),
        rvalue: Rvalue::Use(Operand::Copy(place(0, vec![PlaceElem::Deref]))),
        rv_lty: plain_lty(u32_ty()),
    });
    let (map, _) = gen_mir_rewrites(&acx, &body);
    let deref_path = vec![
        SubLoc::Rvalue,
        SubLoc::RvalueOperand(0),
        SubLoc::OperandPlace,
        SubLoc::PlaceDerefPointer,
    ];
    assert_eq!(
        map,
        vec![(
            Location { block: 0, statement_index: 0 },
            vec![
                rw(
                    RewriteKind::OptionDowngrade { mutbl: false, deref: true },
                    deref_path.clone(),
                ),
                rw(RewriteKind::OptionUnwrap, deref_path),
            ],
        )]
    );
}

#[test]
fn dyn_owned_move_takes_the_source_out() {
    let mut c0 = base_class(Ownership::Owning);
    c0.dyn_owned = true;
    let mut c1 = base_class(Ownership::Owning);
    c1.dyn_owned = true;
    let acx = ctx(
        vec![c0, c1],
        vec![ptr_lty(0, true, u32_ty()), ptr_lty(1, true, u32_ty())],
        vec![None, None],
    );
    let body = one_statement_body(StatementKind::Assign {
        place: place(0, vec![]),
        rvalue: Rvalue::Use(Operand::Move(place(1, vec![]))),
        rv_lty: ptr_lty(1, true, u32_ty()),
    });
    let (map, errs) = gen_mir_rewrites(&acx, &body);
    assert_eq!(
        map,
        vec![(
            Location { block: 0, statement_index: 0 },
            vec![rw(RewriteKind::DynOwnedTake, vec![SubLoc::Rvalue])],
        )]
    );
    assert!(!errs.failed_cast);
}

#[test]
fn memcpy_with_matching_pointees_carries_the_element_size() {
    let acx = ctx(
        vec![
            base_class(Ownership::Mut),
            base_class(Ownership::Imm),
            base_class(Ownership::RawMut),
        ],
        vec![
            ptr_lty(0, true, u32_ty()),
            ptr_lty(1, false, u32_ty()),
            ptr_lty(2, true, u32_ty()),
        ],
        vec![None, None, None],
    );
    let body = one_call_body(TerminatorKind::Call {
        callee: Callee::Memcpy,
        args: vec![
            Operand::Copy(place(0, vec![])),
            Operand::Copy(place(1, vec![])),
            Operand::Constant { zero: false },
        ],
        destination: place(2, vec![]),
    });
    let (map, _) = gen_mir_rewrites(&acx, &body);
    // The result is not marked used, so no output cast follows.
    assert_eq!(
        map,
        vec![(
            Location { block: 0, statement_index: 0 },
            vec![rw(
                RewriteKind::MemcpySafe { elem_size: 4, dest_single: true, src_single: true },
                vec![SubLoc::Rvalue],
            )],
        )]
    );
}

#[test]
fn memcpy_with_differing_pointees_is_left_alone() {
    let acx = ctx(
        vec![base_class(Ownership::Mut), base_class(Ownership::Imm)],
        vec![ptr_lty(0, true, u32_ty()), ptr_lty(1, false, Ty::Bool), plain_lty(Ty::Bool)],
        vec![None, None, None],
    );
    let body = one_call_body(TerminatorKind::Call {
        callee: Callee::Memcpy,
        args: vec![
            Operand::Copy(place(0, vec![])),
            Operand::Copy(place(1, vec![])),
            Operand::Constant { zero: false },
        ],
        destination: place(2, vec![]),
    });
    let (map, errs) = gen_mir_rewrites(&acx, &body);
    assert_eq!(map, vec![]);
    assert!(!errs.failed_cast);
}

#[test]
fn memset_of_pointer_bearing_struct_is_left_alone() {
    let node = Ty::Struct {
        sid: 3,
        name: "node".to_string(),
        size: 8,
        fields: vec![FieldTy {
            name: "next".to_string(),
            ty: Ty::RawPtr { mutbl: true, pointee: Box::new(Ty::Bool) },
        }],
    };
    let acx = ctx(
        vec![base_class(Ownership::Mut)],
        vec![ptr_lty(0, true, node), plain_lty(Ty::Bool)],
        vec![None, None],
    );
    let body = one_call_body(TerminatorKind::Call {
        callee: Callee::Memset,
        args: vec![
            Operand::Copy(place(0, vec![])),
            Operand::Constant { zero: true },
            Operand::Constant { zero: false },
        ],
        destination: place(1, vec![]),
    });
    let (map, _) = gen_mir_rewrites(&acx, &body);
    assert_eq!(map, vec![]);
}

#[test]
fn memset_of_primitive_struct_zeroizes_with_the_plan() {
    let pair = Ty::Struct {
        sid: 4,
        name: "pair".to_string(),
        size: 8,
        fields: vec![
            FieldTy { name: "a".to_string(), ty: u32_ty() },
            FieldTy { name: "b".to_string(), ty: u32_ty() },
        ],
    };
    let acx = ctx(
        vec![base_class(Ownership::Mut)],
        vec![ptr_lty(0, true, pair), plain_lty(Ty::Bool)],
        vec![None, None],
    );
    let body = one_call_body(TerminatorKind::Call {
        callee: Callee::Memset,
        args: vec![
            Operand::Copy(place(0, vec![])),
            Operand::Constant { zero: true },
            Operand::Constant { zero: false },
        ],
        destination: place(1, vec![]),
    });
    let (map, _) = gen_mir_rewrites(&acx, &body);
    assert_eq!(
        map,
        vec![(
            Location { block: 0, statement_index: 0 },
            vec![rw(
                RewriteKind::MemsetZeroize {
                    zero_ty: ZeroizeType::Struct(
                        "pair".to_string(),
                        vec![
                            ("a".to_string(), ZeroizeType::Int),
                            ("b".to_string(), ZeroizeType::Int),
                        ],
                    ),
                    elem_size: 8,
                    dest_single: true,
                },
                vec![SubLoc::Rvalue],
            )],
        )]
    );
}

#[test]
fn malloc_produces_owning_shape_and_bridges_to_destination() {
    let acx = ctx(
        vec![base_class(Ownership::Owning)],
        vec![ptr_lty(0, true, u32_ty())],
        vec![None],
    );
    let body = one_call_body(TerminatorKind::Call {
        callee: Callee::Malloc,
        args: vec![Operand::Constant { zero: false }],
        destination: place(0, vec![]),
    });
    let (map, errs) = gen_mir_rewrites(&acx, &body);
    // The destination is already the canonical owning single shape, so
    // the output cast adds nothing.
    assert_eq!(
        map,
        vec![(
            Location { block: 0, statement_index: 0 },
            vec![rw(
                RewriteKind::MallocSafe { zero_ty: ZeroizeType::Int, elem_size: 4, single: true },
                vec![SubLoc::Rvalue],
            )],
        )]
    );
    assert!(!errs.failed_cast);
}

#[test]
fn call_to_analyzed_function_bridges_arguments() {
    // The argument is classified raw mutable; the callee declares an
    // immutable borrow.
    let mut acx = ctx(
        vec![base_class(Ownership::RawMut), base_class(Ownership::Imm)],
        vec![ptr_lty(0, true, u32_ty()), plain_lty(Ty::Bool)],
        vec![None, None],
    );
    acx.fn_sigs = vec![FnSig {
        def_id: 42,
        inputs: vec![ptr_lty(1, false, u32_ty())],
        output: plain_lty(Ty::Bool),
    }];
    let body = one_call_body(TerminatorKind::Call {
        callee: Callee::LocalDef { def_id: 42 },
        args: vec![Operand::Copy(place(0, vec![]))],
        destination: place(1, vec![]),
    });
    let (map, errs) = gen_mir_rewrites(&acx, &body);
    assert_eq!(
        map,
        vec![(
            Location { block: 0, statement_index: 0 },
            vec![
                rw(
                    RewriteKind::CastRawToRaw { to_mutbl: false },
                    vec![SubLoc::Rvalue, SubLoc::CallArg(0)],
                ),
                rw(
                    RewriteKind::UnsafeCastRawToRef { mutbl: false },
                    vec![SubLoc::Rvalue, SubLoc::CallArg(0)],
                ),
            ],
        )]
    );
    assert!(!errs.failed_cast);
}

#[test]
fn unsupported_statement_records_the_reason_and_walks_on() {
    let acx = ctx(vec![], vec![], vec![]);
    let body = Body {
        basic_blocks: vec![BasicBlockData {
            statements: vec![StatementKind::SetDiscriminant, StatementKind::Nop],
            terminator: Some(TerminatorKind::Return),
        }],
    };
    let (map, errs) = gen_mir_rewrites(&acx, &body);
    assert_eq!(map, vec![]);
    assert!(errs.unsupported_ir);
    assert!(!errs.complex_cell);
}

#[test]
fn zero_as_ptr_cast_becomes_none_for_nullable_target() {
    let mut c0 = base_class(Ownership::Imm);
    c0.non_null = false;
    let acx = ctx(
        vec![c0],
        vec![ptr_lty(0, false, u32_ty())],
        vec![None],
    );
    let body = one_statement_body(StatementKind::Assign {
        place: place(0, vec![]),
        rvalue: Rvalue::Cast {
            op: Operand::Constant { zero: true },
            ty: Ty::RawPtr { mutbl: false, pointee: Box::new(u32_ty()) },
        },
        rv_lty: ptr_lty(0, false, u32_ty()),
    });
    let (map, _) = gen_mir_rewrites(&acx, &body);
    assert_eq!(
        map,
        vec![(
            Location { block: 0, statement_index: 0 },
            vec![rw(RewriteKind::ZeroAsPtrToNone, vec![SubLoc::Rvalue])],
        )]
    );
}

#[test]
fn variadic_tail_beyond_declared_arity_passes_through() {
    let mut acx = ctx(
        vec![base_class(Ownership::Imm), base_class(Ownership::Imm)],
        vec![ptr_lty(0, false, u32_ty()), plain_lty(Ty::Bool)],
        vec![None, None],
    );
    acx.fn_sigs = vec![FnSig {
        def_id: 7,
        inputs: vec![ptr_lty(1, false, u32_ty())],
        output: plain_lty(Ty::Bool),
    }];
    let body = one_call_body(TerminatorKind::Call {
        callee: Callee::LocalDef { def_id: 7 },
        args: vec![
            Operand::Copy(place(0, vec![])),
            Operand::Constant { zero: false },
            Operand::Constant { zero: true },
        ],
        destination: place(1, vec![]),
    });
    // The declared argument already matches its expected shape and the
    // trailing arguments have no declared shape: nothing is emitted.
    let (map, errs) = gen_mir_rewrites(&acx, &body);
    assert_eq!(map, vec![]);
    assert!(!errs.failed_cast);
}

#[test]
fn memcpy_result_cast_depends_on_the_used_flag() {
    let mut c2 = base_class(Ownership::RawMut);
    c2.used = true;
    let acx = ctx(
        vec![base_class(Ownership::Mut), base_class(Ownership::Imm), c2],
        vec![
            ptr_lty(0, true, u32_ty()),
            ptr_lty(1, false, u32_ty()),
            ptr_lty(2, true, u32_ty()),
        ],
        vec![None, None, None],
    );
    let body = one_call_body(TerminatorKind::Call {
        callee: Callee::Memcpy,
        args: vec![
            Operand::Copy(place(0, vec![])),
            Operand::Copy(place(1, vec![])),
            Operand::Constant { zero: false },
        ],
        destination: place(2, vec![]),
    });
    let (map, _) = gen_mir_rewrites(&acx, &body);
    // The used result draws a cast from the first pointer's shape
    // (mutable borrow) to the result's (raw mutable).
    assert_eq!(
        map,
        vec![(
            Location { block: 0, statement_index: 0 },
            vec![
                rw(
                    RewriteKind::MemcpySafe { elem_size: 4, dest_single: true, src_single: true },
                    vec![SubLoc::Rvalue],
                ),
                rw(RewriteKind::CastRefToRaw { mutbl: true }, vec![SubLoc::Rvalue]),
            ],
        )]
    );
}

#[test]
fn offset_pointer_classification_keeps_its_quantity() {
    let mut c0 = base_class(Ownership::RawMut);
    c0.offset_sub = true;
    let mut c1 = base_class(Ownership::RawMut);
    c1.offset_sub = true;
    let acx = ctx(
        vec![c0, c1],
        vec![ptr_lty(0, true, u32_ty()), ptr_lty(1, true, u32_ty())],
        vec![None, None],
    );
    let body = one_call_body(TerminatorKind::Call {
        callee: Callee::PtrOffset,
        args: vec![Operand::Copy(place(0, vec![]))],
        destination: place(1, vec![]),
    });
    let (map, errs) = gen_mir_rewrites(&acx, &body);
    assert_eq!(
        map,
        vec![(
            Location { block: 0, statement_index: 0 },
            vec![rw(RewriteKind::OffsetSlice { mutbl: false }, vec![SubLoc::Rvalue])],
        )]
    );
    assert!(!errs.failed_cast);
}

#[test]
fn raw_borrow_into_borrow_classified_result_becomes_plain_borrow() {
    let acx = ctx(
        vec![base_class(Ownership::Mut)],
        vec![plain_lty(u32_ty()), ptr_lty(0, true, u32_ty())],
        vec![None, None],
    );
    let body = one_statement_body(StatementKind::Assign {
        place: place(1, vec![]),
        rvalue: Rvalue::AddressOf { mutbl: Mutability::Mut, place: place(0, vec![]) },
        rv_lty: ptr_lty(0, true, u32_ty()),
    });
    let (map, _) = gen_mir_rewrites(&acx, &body);
    assert_eq!(
        map,
        vec![(
            Location { block: 0, statement_index: 0 },
            vec![rw(RewriteKind::RawToRef { mutbl: true }, vec![SubLoc::Rvalue])],
        )]
    );
}
