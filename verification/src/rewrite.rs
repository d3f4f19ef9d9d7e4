//! The closed catalog of atomic rewrites, and the sub-location paths that
//! address the exact sub-expression each rewrite applies to.

use vstd::prelude::*;
use crate::ty::{ty_view, Ty, TyView};
use crate::zeroize::{zeroize_view, ZeroizeType, ZeroizeTypeView};

verus! {

/// One refinement step of the address of a sub-expression within a
/// statement or terminator.
#[derive(Clone, Copy, PartialEq, Eq, Structural, Debug)]
pub enum SubLoc {
    /// The destination of an assignment or call.
    Dest,
    /// The value side of an assignment or call.
    Rvalue,
    /// The Nth argument of a call.
    CallArg(usize),
    /// The Nth operand of a value expression.
    RvalueOperand(usize),
    /// The Nth referenced addressable location of a value expression.
    RvaluePlace(usize),
    /// The location inside an operand.
    OperandPlace,
    /// The pointer used in a dereference projection.
    PlaceDerefPointer,
    /// The base of a field projection.
    PlaceFieldBase,
    /// The array used in an index or slice projection.
    PlaceIndexArray,
}

/// An atomic rewrite operation.
#[derive(Debug, PartialEq, Eq)]
pub enum RewriteKind {
    /// Replace a pointer offset with a bounds-respecting re-slice.
    OffsetSlice { mutbl: bool },
    /// The nullable-mapped variant of `OffsetSlice`: apply the re-slice
    /// under the absence-of-value map so an absent input passes through.
    OptionMapOffsetSlice { mutbl: bool },
    /// Replace a run with a borrow of its first element.
    SliceFirst { mutbl: bool },
    /// Replace a pointer with a fresh borrow of its pointee.
    Reborrow { mutbl: bool },
    /// Remove a decay-to-pointer call.
    RemoveAsPtr,
    /// Remove a cast, keeping its operand.
    RemoveCast,
    /// Replace a raw borrow with a plain borrow.
    RawToRef { mutbl: bool },
    /// Replace a null test with the absence test.
    IsNullToIsNone,
    /// Replace a null test with the literal `false`, when the
    /// classification proves the argument can never be null.
    IsNullToConstFalse,
    /// Replace a null constant with the absence-of-value idiom.
    PtrNullToNone,
    /// Replace a zero-as-null-pointer cast with the absence-of-value
    /// idiom.
    ZeroAsPtrToNone,
    /// Replace a bulk copy with a safe copy over runs.  `elem_size`
    /// converts the byte count into an element count; the single flags say
    /// whether each side points at one value rather than a run.
    MemcpySafe { elem_size: u64, dest_single: bool, src_single: bool },
    /// Replace a bulk fill with a safe zeroize driven by the plan.
    MemsetZeroize { zero_ty: ZeroizeType, elem_size: u64, dest_single: bool },
    /// Replace an allocation with a safe zero-initialized allocation.
    MallocSafe { zero_ty: ZeroizeType, elem_size: u64, single: bool },
    /// Replace a release with a safe drop.
    FreeSafe { single: bool },
    /// Replace a resize with a safe reallocation driven by the plan.
    ReallocSafe { zero_ty: ZeroizeType, elem_size: u64, src_single: bool, dest_single: bool },
    /// Replace a counted allocation with a safe zero-initialized one.
    CallocSafe { zero_ty: ZeroizeType, elem_size: u64, single: bool },
    /// Unwrap the present value of a nullable pointer.
    OptionUnwrap,
    /// Wrap a value in the present-value form.
    OptionSome,
    /// Begin a deferred transform of the present value; an absent input
    /// passes through unchanged.
    OptionMapBegin,
    /// Close the deferred transform opened by `OptionMapBegin`.
    OptionMapEnd,
    /// Downgrade a nullable pointer to a borrow of its present value
    /// without consuming it.
    OptionDowngrade { mutbl: bool, deref: bool },
    /// Extract the owned value from a dynamically-owned slot.
    DynOwnedUnwrap,
    /// Move the owned value out and leave a definitely-non-owning sentinel
    /// behind.
    DynOwnedTake,
    /// Wrap an owned value into a dynamically-owned slot.
    DynOwnedWrap,
    /// Downgrade a dynamically-owned slot to a borrow of its value.
    DynOwnedDowngrade { mutbl: bool },
    /// Cast a borrow to the raw pointer of the same mutability.
    CastRefToRaw { mutbl: bool },
    /// Cast between the two raw pointer mutabilities.
    CastRawToRaw { to_mutbl: bool },
    /// Cast a raw pointer to a borrow; unsafe, used only late.
    UnsafeCastRawToRef { mutbl: bool },
    /// Cast a raw mutable pointer to a raw pointer to a cell of the given
    /// pointee type.
    CastRawMutToCellPtr { ty: Ty },
    /// Wrap the assigned value in a fresh cell.
    CellNew,
    /// Replace a read through a cell-classified pointer with a cell read.
    CellGet,
    /// Replace a write through a cell-classified pointer with a cell
    /// write.
    CellSet,
    /// Wrap a mutable borrow into a cell borrow.
    CellFromMut,
    /// Decay a value to a raw pointer.
    AsPtr,
}

/// Mathematical model of an atomic rewrite.
#[verifier::ext_equal]
pub enum RewriteKindView {
    OffsetSlice { mutbl: bool },
    OptionMapOffsetSlice { mutbl: bool },
    SliceFirst { mutbl: bool },
    Reborrow { mutbl: bool },
    RemoveAsPtr,
    RemoveCast,
    RawToRef { mutbl: bool },
    IsNullToIsNone,
    IsNullToConstFalse,
    PtrNullToNone,
    ZeroAsPtrToNone,
    MemcpySafe { elem_size: u64, dest_single: bool, src_single: bool },
    MemsetZeroize { zero_ty: ZeroizeTypeView, elem_size: u64, dest_single: bool },
    MallocSafe { zero_ty: ZeroizeTypeView, elem_size: u64, single: bool },
    FreeSafe { single: bool },
    ReallocSafe { zero_ty: ZeroizeTypeView, elem_size: u64, src_single: bool, dest_single: bool },
    CallocSafe { zero_ty: ZeroizeTypeView, elem_size: u64, single: bool },
    OptionUnwrap,
    OptionSome,
    OptionMapBegin,
    OptionMapEnd,
    OptionDowngrade { mutbl: bool, deref: bool },
    DynOwnedUnwrap,
    DynOwnedTake,
    DynOwnedWrap,
    DynOwnedDowngrade { mutbl: bool },
    CastRefToRaw { mutbl: bool },
    CastRawToRaw { to_mutbl: bool },
    UnsafeCastRawToRef { mutbl: bool },
    CastRawMutToCellPtr { ty: TyView },
    CellNew,
    CellGet,
    CellSet,
    CellFromMut,
    AsPtr,
}

pub open spec fn rewrite_kind_view(k: RewriteKind) -> RewriteKindView {
    match k {
        RewriteKind::OffsetSlice { mutbl } => RewriteKindView::OffsetSlice { mutbl },
        RewriteKind::OptionMapOffsetSlice { mutbl } => RewriteKindView::OptionMapOffsetSlice {
            mutbl,
        },
        RewriteKind::SliceFirst { mutbl } => RewriteKindView::SliceFirst { mutbl },
        RewriteKind::Reborrow { mutbl } => RewriteKindView::Reborrow { mutbl },
        RewriteKind::RemoveAsPtr => RewriteKindView::RemoveAsPtr,
        RewriteKind::RemoveCast => RewriteKindView::RemoveCast,
        RewriteKind::RawToRef { mutbl } => RewriteKindView::RawToRef { mutbl },
        RewriteKind::IsNullToIsNone => RewriteKindView::IsNullToIsNone,
        RewriteKind::IsNullToConstFalse => RewriteKindView::IsNullToConstFalse,
        RewriteKind::PtrNullToNone => RewriteKindView::PtrNullToNone,
        RewriteKind::ZeroAsPtrToNone => RewriteKindView::ZeroAsPtrToNone,
        RewriteKind::MemcpySafe { elem_size, dest_single, src_single } => {
            RewriteKindView::MemcpySafe { elem_size, dest_single, src_single }
        },
        RewriteKind::MemsetZeroize { zero_ty, elem_size, dest_single } => {
            RewriteKindView::MemsetZeroize {
                zero_ty: zeroize_view(zero_ty),
                elem_size,
                dest_single,
            }
        },
        RewriteKind::MallocSafe { zero_ty, elem_size, single } => RewriteKindView::MallocSafe {
            zero_ty: zeroize_view(zero_ty),
            elem_size,
            single,
        },
        RewriteKind::FreeSafe { single } => RewriteKindView::FreeSafe { single },
        RewriteKind::ReallocSafe { zero_ty, elem_size, src_single, dest_single } => {
            RewriteKindView::ReallocSafe {
                zero_ty: zeroize_view(zero_ty),
                elem_size,
                src_single,
                dest_single,
            }
        },
        RewriteKind::CallocSafe { zero_ty, elem_size, single } => RewriteKindView::CallocSafe {
            zero_ty: zeroize_view(zero_ty),
            elem_size,
            single,
        },
        RewriteKind::OptionUnwrap => RewriteKindView::OptionUnwrap,
        RewriteKind::OptionSome => RewriteKindView::OptionSome,
        RewriteKind::OptionMapBegin => RewriteKindView::OptionMapBegin,
        RewriteKind::OptionMapEnd => RewriteKindView::OptionMapEnd,
        RewriteKind::OptionDowngrade { mutbl, deref } => RewriteKindView::OptionDowngrade {
            mutbl,
            deref,
        },
        RewriteKind::DynOwnedUnwrap => RewriteKindView::DynOwnedUnwrap,
        RewriteKind::DynOwnedTake => RewriteKindView::DynOwnedTake,
        RewriteKind::DynOwnedWrap => RewriteKindView::DynOwnedWrap,
        RewriteKind::DynOwnedDowngrade { mutbl } => RewriteKindView::DynOwnedDowngrade { mutbl },
        RewriteKind::CastRefToRaw { mutbl } => RewriteKindView::CastRefToRaw { mutbl },
        RewriteKind::CastRawToRaw { to_mutbl } => RewriteKindView::CastRawToRaw { to_mutbl },
        RewriteKind::UnsafeCastRawToRef { mutbl } => RewriteKindView::UnsafeCastRawToRef { mutbl },
        RewriteKind::CastRawMutToCellPtr { ty } => RewriteKindView::CastRawMutToCellPtr {
            ty: ty_view(ty),
        },
        RewriteKind::CellNew => RewriteKindView::CellNew,
        RewriteKind::CellGet => RewriteKindView::CellGet,
        RewriteKind::CellSet => RewriteKindView::CellSet,
        RewriteKind::CellFromMut => RewriteKindView::CellFromMut,
        RewriteKind::AsPtr => RewriteKindView::AsPtr,
    }
}

impl View for RewriteKind {
    type V = RewriteKindView;

    open spec fn view(&self) -> RewriteKindView {
        rewrite_kind_view(*self)
    }
}

/// One rewrite to apply, together with the address of the sub-expression
/// it applies to within its program point.
#[derive(Debug, PartialEq, Eq)]
pub struct MirRewrite {
    pub kind: RewriteKind,
    pub sub_loc: Vec<SubLoc>,
}

/// Mathematical model of an addressed rewrite.
#[verifier::ext_equal]
pub struct MirRewriteView {
    pub kind: RewriteKindView,
    pub sub_loc: Seq<SubLoc>,
}

impl View for MirRewrite {
    type V = MirRewriteView;

    open spec fn view(&self) -> MirRewriteView {
        MirRewriteView { kind: self.kind@, sub_loc: self.sub_loc@ }
    }
}

/// The views of a list of rewrites.
pub open spec fn rewrites_view(rs: Seq<MirRewrite>) -> Seq<MirRewriteView>
    decreases rs,
{
    if rs.len() == 0 {
        Seq::empty()
    } else {
        rewrites_view(rs.drop_last()).push(rs.last()@)
    }
}

pub proof fn lemma_rewrites_view(rs: Seq<MirRewrite>)
    ensures
        rewrites_view(rs).len() == rs.len(),
        forall|i: int| 0 <= i < rs.len() ==> rewrites_view(rs)[i] == rs[i]@,
    decreases rs,
{
    if rs.len() > 0 {
        lemma_rewrites_view(rs.drop_last());
        assert(forall|i: int| 0 <= i < rs.len() - 1 ==> rs.drop_last()[i] == rs[i]);
    }
}

pub proof fn lemma_rewrites_view_push(rs: Seq<MirRewrite>, r: MirRewrite)
    ensures
        rewrites_view(rs.push(r)) == rewrites_view(rs).push(r@),
{
    assert(rs.push(r).drop_last() =~= rs);
    assert(rs.push(r).last() == r);
}

pub proof fn lemma_rewrites_view_concat(a: Seq<MirRewrite>, b: Seq<MirRewrite>)
    ensures
        rewrites_view(a + b) == rewrites_view(a) + rewrites_view(b),
{
    lemma_rewrites_view(a);
    lemma_rewrites_view(b);
    lemma_rewrites_view(a + b);
    assert(rewrites_view(a + b) =~= rewrites_view(a) + rewrites_view(b));
}

} // verus!
