//! Behavior of the cast synthesizer on concrete shapes.

use mir_rewrite::cast::{CastBuilder, CastError};
use mir_rewrite::rewrite::RewriteKind;
use mir_rewrite::shape::{Ownership, Quantity, TypeDesc};
use mir_rewrite::ty::Ty;

fn u32_ty() -> Ty {
    Ty::Uint { bytes: 4 }
}

fn desc(own: Ownership, qty: Quantity, option: bool, dyn_owned: bool, pointee: Ty) -> TypeDesc {
    TypeDesc { own, qty, dyn_owned, option, pointee_ty: pointee }
}

fn simple(own: Ownership, qty: Quantity) -> TypeDesc {
    desc(own, qty, false, false, u32_ty())
}

fn run(from: &TypeDesc, to: &TypeDesc) -> Result<Vec<RewriteKind>, CastError> {
    let mut b = CastBuilder::new();
    match b.try_build_cast_desc_desc(from, to) {
        Ok(()) => Ok(b.ops),
        Err(e) => Err(e),
    }
}

#[test]
fn identity_emits_nothing() {
    let d = simple(Ownership::Imm, Quantity::Single);
    let ops = run(&d, &simple(Ownership::Imm, Quantity::Single)).unwrap();
    assert_eq!(ops, Vec::<RewriteKind>::new());
}

#[test]
fn identity_modulo_lifetimes_emits_nothing() {
    let p1 = Ty::Ref { lt: 1, mutbl: false, pointee: Box::new(u32_ty()) };
    let p2 = Ty::Ref { lt: 2, mutbl: false, pointee: Box::new(u32_ty()) };
    let from = desc(Ownership::Imm, Quantity::Single, false, false, p1);
    let to = desc(Ownership::Imm, Quantity::Single, false, false, p2);
    let ops = run(&from, &to).unwrap();
    assert_eq!(ops, Vec::<RewriteKind>::new());
}

#[test]
fn pointee_gate_fails_with_zero_operations() {
    let from = desc(Ownership::Imm, Quantity::Single, false, false, Ty::Bool);
    let to = simple(Ownership::Imm, Quantity::Single);
    let mut b = CastBuilder::new();
    let r = b.try_build_cast_desc_desc(&from, &to);
    assert!(matches!(r, Err(CastError::PointeeMismatch { .. })));
    assert_eq!(b.ops.len(), 0);
}

#[test]
fn pointee_gate_ignores_other_axes() {
    let from = desc(Ownership::Owning, Quantity::Slice, true, true, Ty::Bool);
    let to = desc(Ownership::RawMut, Quantity::Single, false, false, u32_ty());
    let mut b = CastBuilder::new();
    let r = b.try_build_cast_desc_desc(&from, &to);
    assert!(matches!(r, Err(CastError::PointeeMismatch { .. })));
    assert_eq!(b.ops.len(), 0);
}

#[test]
fn owning_to_imm_is_one_reborrow() {
    let ops = run(
        &simple(Ownership::Owning, Quantity::Single),
        &simple(Ownership::Imm, Quantity::Single),
    )
    .unwrap();
    assert_eq!(ops, vec![RewriteKind::Reborrow { mutbl: false }]);
}

#[test]
fn owning_to_raw_goes_through_early_then_late_phase() {
    let ops = run(
        &simple(Ownership::Owning, Quantity::Single),
        &simple(Ownership::Raw, Quantity::Single),
    )
    .unwrap();
    assert_eq!(
        ops,
        vec![
            RewriteKind::Reborrow { mutbl: false },
            RewriteKind::CastRefToRaw { mutbl: false },
        ]
    );
}

#[test]
fn mut_to_cell_is_cell_from_mut() {
    let ops = run(
        &simple(Ownership::Mut, Quantity::Single),
        &simple(Ownership::Cell, Quantity::Single),
    )
    .unwrap();
    assert_eq!(ops, vec![RewriteKind::CellFromMut]);
}

#[test]
fn raw_mut_to_cell_goes_through_cell_pointer() {
    let ops = run(
        &simple(Ownership::RawMut, Quantity::Single),
        &simple(Ownership::Cell, Quantity::Single),
    )
    .unwrap();
    assert_eq!(
        ops,
        vec![
            RewriteKind::CastRawMutToCellPtr { ty: u32_ty() },
            RewriteKind::UnsafeCastRawToRef { mutbl: false },
        ]
    );
}

#[test]
fn raw_mut_to_imm_goes_through_raw_const() {
    let ops = run(
        &simple(Ownership::RawMut, Quantity::Single),
        &simple(Ownership::Imm, Quantity::Single),
    )
    .unwrap();
    assert_eq!(
        ops,
        vec![
            RewriteKind::CastRawToRaw { to_mutbl: false },
            RewriteKind::UnsafeCastRawToRef { mutbl: false },
        ]
    );
}

#[test]
fn counted_downgrade_is_not_implemented() {
    let r = run(
        &simple(Ownership::Counted, Quantity::Single),
        &simple(Ownership::Imm, Quantity::Single),
    );
    assert!(matches!(r, Err(CastError::CountedCast)));
}

#[test]
fn slice_to_single_takes_first_element() {
    let ops = run(
        &simple(Ownership::Imm, Quantity::Slice),
        &simple(Ownership::Imm, Quantity::Single),
    )
    .unwrap();
    assert_eq!(ops, vec![RewriteKind::SliceFirst { mutbl: false }]);
}

#[test]
fn slice_and_offset_ptr_interchange_for_free() {
    let ops = run(
        &simple(Ownership::RawMut, Quantity::Slice),
        &simple(Ownership::RawMut, Quantity::OffsetPtr),
    )
    .unwrap();
    assert_eq!(ops, Vec::<RewriteKind>::new());
}

#[test]
fn array_converts_to_slice_at_no_cost() {
    let ops = run(
        &simple(Ownership::Imm, Quantity::Array),
        &simple(Ownership::Imm, Quantity::Slice),
    )
    .unwrap();
    assert_eq!(ops, Vec::<RewriteKind>::new());
}

#[test]
fn array_converts_only_to_slice() {
    let r = run(
        &simple(Ownership::Imm, Quantity::Array),
        &simple(Ownership::Imm, Quantity::Single),
    );
    assert!(matches!(r, Err(CastError::ArrayCast { to_qty: Quantity::Single })));
    let r2 = run(
        &simple(Ownership::RawMut, Quantity::Array),
        &simple(Ownership::RawMut, Quantity::OffsetPtr),
    );
    assert!(matches!(r2, Err(CastError::ArrayCast { to_qty: Quantity::OffsetPtr })));
}

#[test]
fn mapped_mode_defers_and_closes() {
    let from = desc(Ownership::Owning, Quantity::Single, true, false, u32_ty());
    let to = desc(Ownership::Imm, Quantity::Single, true, false, u32_ty());
    let ops = run(&from, &to).unwrap();
    assert_eq!(
        ops,
        vec![
            RewriteKind::OptionDowngrade { mutbl: false, deref: true },
            RewriteKind::OptionMapBegin,
            RewriteKind::OptionMapEnd,
        ]
    );
}

#[test]
fn nullable_to_plain_unwraps() {
    let from = desc(Ownership::Imm, Quantity::Single, true, false, u32_ty());
    let to = desc(Ownership::Imm, Quantity::Single, false, false, u32_ty());
    let ops = run(&from, &to).unwrap();
    assert_eq!(ops, vec![RewriteKind::OptionUnwrap]);
}

#[test]
fn plain_to_nullable_wraps_at_the_end() {
    let from = desc(Ownership::Mut, Quantity::Single, false, false, u32_ty());
    let to = desc(Ownership::Imm, Quantity::Single, true, false, u32_ty());
    let ops = run(&from, &to).unwrap();
    assert_eq!(
        ops,
        vec![RewriteKind::Reborrow { mutbl: false }, RewriteKind::OptionSome]
    );
}

#[test]
fn dyn_owned_source_downgrades_for_borrow_target() {
    let from = desc(Ownership::Owning, Quantity::Single, false, true, u32_ty());
    let to = simple(Ownership::Mut, Quantity::Single);
    let ops = run(&from, &to).unwrap();
    assert_eq!(
        ops,
        vec![
            RewriteKind::DynOwnedDowngrade { mutbl: true },
            RewriteKind::Reborrow { mutbl: true },
        ]
    );
}

#[test]
fn dyn_owned_target_wraps() {
    let from = simple(Ownership::Owning, Quantity::Single);
    let to = desc(Ownership::Owning, Quantity::Single, false, true, u32_ty());
    let ops = run(&from, &to).unwrap();
    assert_eq!(ops, vec![RewriteKind::DynOwnedWrap]);
}

#[test]
fn unbridgeable_pair_reports_residual_mismatch() {
    let r = run(
        &simple(Ownership::Imm, Quantity::Single),
        &simple(Ownership::Owning, Quantity::Single),
    );
    match r {
        Err(CastError::Mismatch { from, to, orig_from }) => {
            assert_eq!(from.own, Ownership::Imm);
            assert_eq!(to.own, Ownership::Owning);
            assert_eq!(orig_from.own, Ownership::Imm);
        },
        other => panic!("expected a residual mismatch, got {:?}", other),
    }
}

#[test]
fn build_cast_runs_the_same_synthesis() {
    let from = simple(Ownership::Owning, Quantity::Single);
    let to = simple(Ownership::Imm, Quantity::Single);
    let mut b = CastBuilder::new();
    b.build_cast_desc_desc(&from, &to);
    assert_eq!(b.ops, vec![RewriteKind::Reborrow { mutbl: false }]);
}
