//! The cast synthesizer: a phase-ordered procedure that bridges two
//! pointer shapes by emitting atomic rewrites, or fails with a
//! descriptive mismatch.
//!
//! The synthesizer is not transactional: when it fails it may already
//! have emitted operations, and the caller must discard them.  To make
//! that discard trivial, a [`CastBuilder`] collects the emitted
//! operations in an ordered list of its own; a caller keeps the list on
//! success and drops the builder on failure.

use vstd::prelude::*;
use crate::ctx::{class_of_spec, lty_to_desc_spec, AnalysisCtxt, AnalysisCtxtView};
use crate::rewrite::{RewriteKind, RewriteKindView};
use crate::shape::{Ownership, Quantity, TypeDesc, TypeDescView};
use crate::ty::{erase_ty, ty_clone, ty_eq_erased, LTy, LTyView, Ty, TyView};

verus! {

broadcast use vstd::std_specs::vec::group_vec_axioms;

/// Why a cast could not be synthesized.
#[derive(Debug, PartialEq, Eq)]
pub enum CastError {
    /// The two pointee types differ even after lifetime erasure.  This
    /// gate is checked first and never relaxed.
    PointeeMismatch { from_pointee: Ty, to_pointee: Ty },
    /// A fixed array converts only to a bounded run; any other target
    /// multiplicity is unimplemented.
    ArrayCast { to_qty: Quantity },
    /// No downgrade from shared-counted ownership is implemented.
    CountedCast,
    /// After all phases some axis still differs; `from` is the running
    /// shape the phases reached, `orig_from` the shape the caller gave.
    Mismatch { from: TypeDesc, to: TypeDesc, orig_from: TypeDesc },
}

/// Mathematical model of a cast failure.
#[verifier::ext_equal]
pub enum CastErrView {
    PointeeMismatch { from_pointee: TyView, to_pointee: TyView },
    ArrayCast { to_qty: Quantity },
    CountedCast,
    Mismatch { from: TypeDescView, to: TypeDescView, orig_from: TypeDescView },
}

impl View for CastError {
    type V = CastErrView;

    open spec fn view(&self) -> CastErrView {
        match *self {
            CastError::PointeeMismatch { from_pointee, to_pointee } => {
                CastErrView::PointeeMismatch {
                    from_pointee: from_pointee@,
                    to_pointee: to_pointee@,
                }
            },
            CastError::ArrayCast { to_qty } => CastErrView::ArrayCast { to_qty },
            CastError::CountedCast => CastErrView::CountedCast,
            CastError::Mismatch { from, to, orig_from } => CastErrView::Mismatch {
                from: from@,
                to: to@,
                orig_from: orig_from@,
            },
        }
    }
}

/// The views of a list of rewrite operations.
pub open spec fn kinds_view(ks: Seq<RewriteKind>) -> Seq<RewriteKindView>
    decreases ks,
{
    if ks.len() == 0 {
        Seq::empty()
    } else {
        kinds_view(ks.drop_last()).push(ks.last()@)
    }
}

pub proof fn lemma_kinds_view(ks: Seq<RewriteKind>)
    ensures
        kinds_view(ks).len() == ks.len(),
        forall|i: int| 0 <= i < ks.len() ==> kinds_view(ks)[i] == ks[i]@,
    decreases ks,
{
    if ks.len() > 0 {
        lemma_kinds_view(ks.drop_last());
        assert(forall|i: int| 0 <= i < ks.len() - 1 ==> ks.drop_last()[i] == ks[i]);
    }
}

pub proof fn lemma_kinds_view_push(ks: Seq<RewriteKind>, k: RewriteKind)
    ensures
        kinds_view(ks.push(k)) == kinds_view(ks).push(k@),
{
    assert(ks.push(k).drop_last() =~= ks);
    assert(ks.push(k).last() == k);
}

/// Concatenation of sequences is associative.
pub proof fn lemma_seq_assoc<A>(a: Seq<A>, b: Seq<A>, c: Seq<A>)
    ensures
        (a + b) + c == a + (b + c),
{
    assert((a + b) + c =~= a + (b + c));
}

/// One documented single-step ownership transition: from the current
/// ownership toward the target shape's ownership, emitting the documented
/// rewrites and advancing to the documented resulting ownership.  `None`
/// means no step applies; the early phase admits only the transitions
/// that are valid before a multiplicity change.
#[verifier::opaque]
pub open spec fn own_step_spec(own: Ownership, to: TypeDescView, early: bool) -> Result<
    Option<(Seq<RewriteKindView>, Ownership)>,
    CastErrView,
> {
    match own {
        Ownership::Owning => match to.own {
            Ownership::Raw | Ownership::Imm => Ok(
                Some((seq![RewriteKindView::Reborrow { mutbl: false }], Ownership::Imm)),
            ),
            Ownership::RawMut | Ownership::Mut | Ownership::Cell => Ok(
                Some((seq![RewriteKindView::Reborrow { mutbl: true }], Ownership::Mut)),
            ),
            _ => Ok(None),
        },
        Ownership::Counted => match to.own {
            Ownership::Imm | Ownership::Raw | Ownership::RawMut => Err(CastErrView::CountedCast),
            _ => Ok(None),
        },
        Ownership::Mut => match to.own {
            Ownership::Imm | Ownership::Raw => Ok(
                Some((seq![RewriteKindView::Reborrow { mutbl: false }], Ownership::Imm)),
            ),
            Ownership::Cell => Ok(Some((seq![RewriteKindView::CellFromMut], Ownership::Cell))),
            Ownership::RawMut => if !early {
                Ok(Some((seq![RewriteKindView::CastRefToRaw { mutbl: true }], Ownership::RawMut)))
            } else {
                Ok(None)
            },
            _ => Ok(None),
        },
        Ownership::Cell => match to.own {
            Ownership::RawMut | Ownership::Raw => if !early {
                Ok(Some((seq![RewriteKindView::AsPtr], Ownership::RawMut)))
            } else {
                Ok(None)
            },
            _ => Ok(None),
        },
        Ownership::Imm => match to.own {
            Ownership::Raw | Ownership::RawMut => if !early {
                Ok(Some((seq![RewriteKindView::CastRefToRaw { mutbl: false }], Ownership::Raw)))
            } else {
                Ok(None)
            },
            _ => Ok(None),
        },
        Ownership::RawMut => match to.own {
            // Toward an immutable borrow the path goes through the raw
            // immutable pointer, never through the mutable borrow.
            Ownership::Raw | Ownership::Imm => if !early {
                Ok(Some((seq![RewriteKindView::CastRawToRaw { to_mutbl: false }], Ownership::Raw)))
            } else {
                Ok(None)
            },
            Ownership::Mut => if !early {
                Ok(Some((seq![RewriteKindView::UnsafeCastRawToRef { mutbl: true }], Ownership::Mut)))
            } else {
                Ok(None)
            },
            Ownership::Cell => if !early {
                Ok(
                    Some(
                        (
                            seq![
                                RewriteKindView::CastRawMutToCellPtr { ty: to.pointee_ty },
                                RewriteKindView::UnsafeCastRawToRef { mutbl: false },
                            ],
                            Ownership::Cell,
                        ),
                    ),
                )
            } else {
                Ok(None)
            },
            _ => Ok(None),
        },
        Ownership::Raw => match to.own {
            Ownership::RawMut | Ownership::Mut => if !early {
                Ok(Some((seq![RewriteKindView::CastRawToRaw { to_mutbl: true }], Ownership::RawMut)))
            } else {
                Ok(None)
            },
            Ownership::Imm => if !early {
                Ok(
                    Some(
                        (seq![RewriteKindView::UnsafeCastRawToRef { mutbl: false }], Ownership::Imm),
                    ),
                )
            } else {
                Ok(None)
            },
            _ => Ok(None),
        },
    }
}

/// An upper bound on how many single steps remain from `own` to
/// `to_own`; every documented step strictly lowers it.
pub open spec fn own_dist(own: Ownership, to_own: Ownership) -> nat {
    if own == to_own {
        0
    } else {
        match (own, to_own) {
            (Ownership::Owning, Ownership::Imm) => 1,
            (Ownership::Owning, Ownership::Mut) => 1,
            (Ownership::Owning, _) => 2,
            (Ownership::Mut, Ownership::Imm) => 1,
            (Ownership::Mut, Ownership::Cell) => 1,
            (Ownership::Mut, Ownership::RawMut) => 1,
            (Ownership::Mut, _) => 2,
            (Ownership::Cell, Ownership::RawMut) => 1,
            (Ownership::Cell, _) => 2,
            (Ownership::Imm, Ownership::Raw) => 1,
            (Ownership::Imm, _) => 2,
            (Ownership::RawMut, Ownership::Raw) => 1,
            (Ownership::RawMut, Ownership::Mut) => 1,
            (Ownership::RawMut, Ownership::Cell) => 1,
            (Ownership::RawMut, _) => 2,
            (Ownership::Raw, Ownership::RawMut) => 1,
            (Ownership::Raw, Ownership::Imm) => 1,
            (Ownership::Raw, _) => 2,
            _ => 1,
        }
    }
}

/// Repeated single steps: advance the ownership axis toward the target
/// until it matches, no step applies, or a step fails.
#[verifier::opaque]
pub open spec fn own_steps_spec(own: Ownership, to: TypeDescView, early: bool) -> (
    Seq<RewriteKindView>,
    Result<Ownership, CastErrView>,
)
    decreases own_dist(own, to.own),
    via own_steps_spec_decreases
{
    if own == to.own {
        (Seq::empty(), Ok(own))
    } else {
        match own_step_spec(own, to, early) {
            Err(e) => (Seq::empty(), Err(e)),
            Ok(None) => (Seq::empty(), Ok(own)),
            Ok(Some((ops, new))) => {
                let (ops2, res) = own_steps_spec(new, to, early);
                (ops + ops2, res)
            },
        }
    }
}

#[via_fn]
proof fn own_steps_spec_decreases(own: Ownership, to: TypeDescView, early: bool) {
    reveal(own_step_spec);
}

/// Pre-unwrap downgrade: when the source is nullable, an ownership change
/// is also required, and the current ownership cannot be freely
/// duplicated, downgrade to the borrowing equivalent of the target's
/// ownership category first, so the later unwrap does not consume the
/// original.  Shared-counted ownership has no implemented downgrade and
/// passes through unchanged.
#[verifier::opaque]
pub open spec fn pre_downgrade_spec(own: Ownership, opt: bool, to_own: Ownership) -> (
    Seq<RewriteKindView>,
    Ownership,
) {
    if opt && own != to_own && !own.spec_is_copy() {
        match to_own {
            Ownership::Raw | Ownership::Imm => (
                seq![RewriteKindView::OptionDowngrade { mutbl: false, deref: true }],
                Ownership::Imm,
            ),
            Ownership::RawMut | Ownership::Cell | Ownership::Mut => (
                seq![RewriteKindView::OptionDowngrade { mutbl: true, deref: true }],
                Ownership::Mut,
            ),
            _ => (Seq::empty(), own),
        }
    } else {
        (Seq::empty(), own)
    }
}

/// Nullability resolution: unwrap when only the source is nullable; when
/// both sides are nullable but other axes differ, open a deferred map so
/// an absent input passes through unchanged.  Returns the emitted
/// operations, the nullability of the running shape, and whether a map
/// was opened.
#[verifier::opaque]
pub open spec fn null_resolve_spec(from_option: bool, to_option: bool) -> (
    Seq<RewriteKindView>,
    bool,
    bool,
) {
    if from_option && !to_option {
        (seq![RewriteKindView::OptionUnwrap], false, false)
    } else if from_option && to_option {
        (seq![RewriteKindView::OptionMapBegin], false, true)
    } else {
        (Seq::empty(), from_option, false)
    }
}

/// Dynamic-ownership resolution on the source side: convert a
/// dynamically-owned source to a concrete ownership — a borrow for
/// borrow-like targets, the owned value for owning targets.
#[verifier::opaque]
pub open spec fn dyn_src_spec(dyn_owned: bool, to_own: Ownership) -> Seq<RewriteKindView> {
    if dyn_owned {
        match to_own {
            Ownership::Raw | Ownership::Imm => seq![
                RewriteKindView::DynOwnedDowngrade { mutbl: false },
            ],
            Ownership::RawMut | Ownership::Cell | Ownership::Mut => seq![
                RewriteKindView::DynOwnedDowngrade { mutbl: true },
            ],
            Ownership::Counted | Ownership::Owning => seq![RewriteKindView::DynOwnedUnwrap],
        }
    } else {
        Seq::empty()
    }
}

/// Multiplicity resolution: a fixed array converts only to a bounded run
/// — its representation already is one — and any other array target fails
/// as unimplemented; bounded runs and offset pointers interchange at zero
/// cost; either converts to a single value by taking the first element,
/// valid only under a borrow-like ownership.  A pair this phase cannot
/// bridge is left as a residual mismatch for the final check.
#[verifier::opaque]
pub open spec fn qty_steps_spec(own: Ownership, qty: Quantity, to_qty: Quantity) -> (
    Seq<RewriteKindView>,
    Result<Quantity, CastErrView>,
) {
    if qty == to_qty {
        (Seq::empty(), Ok(qty))
    } else {
        match (qty, to_qty) {
            (Quantity::Array, Quantity::Slice) => (Seq::empty(), Ok(Quantity::Slice)),
            (Quantity::Array, _) => (Seq::empty(), Err(CastErrView::ArrayCast { to_qty })),
            (Quantity::Slice, Quantity::OffsetPtr) => (Seq::empty(), Ok(Quantity::OffsetPtr)),
            (Quantity::OffsetPtr, Quantity::Slice) => (Seq::empty(), Ok(Quantity::Slice)),
            (_, Quantity::Single) => match own {
                Ownership::Imm | Ownership::Cell => (
                    seq![RewriteKindView::SliceFirst { mutbl: false }],
                    Ok(Quantity::Single),
                ),
                Ownership::Mut => (
                    seq![RewriteKindView::SliceFirst { mutbl: true }],
                    Ok(Quantity::Single),
                ),
                _ => (Seq::empty(), Ok(qty)),
            },
            _ => (Seq::empty(), Ok(qty)),
        }
    }
}

/// Dynamic-ownership resolution on the target side: wrap when the target
/// is dynamically owned.
#[verifier::opaque]
pub open spec fn dyn_tgt_spec(to_dyn: bool) -> Seq<RewriteKindView> {
    if to_dyn {
        seq![RewriteKindView::DynOwnedWrap]
    } else {
        Seq::empty()
    }
}

/// Nullability closure: close the deferred map if one was opened, else
/// wrap in the present-value form when only the target is nullable.
/// Returns the emitted operations and the final nullability.
#[verifier::opaque]
pub open spec fn null_close_spec(in_map: bool, option_now: bool, to_option: bool) -> (
    Seq<RewriteKindView>,
    bool,
) {
    if in_map {
        (seq![RewriteKindView::OptionMapEnd], true)
    } else if !option_now && to_option {
        (seq![RewriteKindView::OptionSome], true)
    } else {
        (Seq::empty(), option_now)
    }
}

/// The whole synthesis: the pointee gate, then the eight phases in their
/// fixed order, then the final exact-match check.  Returns the ordered
/// operations emitted — also on failure, where the caller must discard
/// them — and success or the descriptive mismatch.
#[verifier::opaque]
pub open spec fn synth_cast(from: TypeDescView, to: TypeDescView) -> (
    Seq<RewriteKindView>,
    Result<(), CastErrView>,
) {
    if erase_ty(from.pointee_ty) != erase_ty(to.pointee_ty) {
        (
            Seq::empty(),
            Err(
                CastErrView::PointeeMismatch {
                    from_pointee: from.pointee_ty,
                    to_pointee: to.pointee_ty,
                },
            ),
        )
    } else {
        let f0 = from.with_pointee(to.pointee_ty);
        if f0 == to {
            (Seq::empty(), Ok(()))
        } else {
            let (ops1, own1) = pre_downgrade_spec(f0.own, f0.option, to.own);
            let (ops2, opt2, in_map) = null_resolve_spec(f0.option, to.option);
            let ops3 = dyn_src_spec(f0.dyn_owned, to.own);
            let (ops4, res4) = own_steps_spec(own1, to, true);
            match res4 {
                Err(e) => (ops1 + ops2 + ops3 + ops4, Err(e)),
                Ok(own4) => {
                    let (ops5, res5) = qty_steps_spec(own4, f0.qty, to.qty);
                    match res5 {
                        Err(e) => (ops1 + ops2 + ops3 + ops4 + ops5, Err(e)),
                        Ok(qty5) => {
                            let (ops6, res6) = own_steps_spec(own4, to, false);
                            match res6 {
                                Err(e) => (ops1 + ops2 + ops3 + ops4 + ops5 + ops6, Err(e)),
                                Ok(own6) => {
                                    let ops7 = dyn_tgt_spec(to.dyn_owned);
                                    let (ops8, opt8) = null_close_spec(in_map, opt2, to.option);
                                    let ops = ops1 + ops2 + ops3 + ops4 + ops5 + ops6 + ops7
                                        + ops8;
                                    let ffin = TypeDescView {
                                        own: own6,
                                        qty: qty5,
                                        dyn_owned: to.dyn_owned,
                                        option: opt8,
                                        pointee_ty: to.pointee_ty,
                                    };
                                    if ffin == to {
                                        (ops, Ok(()))
                                    } else {
                                        (
                                            ops,
                                            Err(
                                                CastErrView::Mismatch {
                                                    from: ffin,
                                                    to,
                                                    orig_from: from,
                                                },
                                            ),
                                        )
                                    }
                                },
                            }
                        },
                    }
                },
            }
        }
    }
}

/// Collects the operations one cast synthesis emits, in order.
pub struct CastBuilder {
    pub ops: Vec<RewriteKind>,
}

impl CastBuilder {
    /// A builder with no operations emitted yet.
    pub fn new() -> (r: CastBuilder)
        ensures
            r.ops@ == Seq::<RewriteKind>::empty(),
    {
        CastBuilder { ops: Vec::new() }
    }

    fn emit(&mut self, rw: RewriteKind)
        ensures
            final(self).ops@ == old(self).ops@.push(rw),
            kinds_view(final(self).ops@) == kinds_view(old(self).ops@).push(rw@),
    {
        proof {
            lemma_kinds_view_push(self.ops@, rw);
        }
        self.ops.push(rw);
    }

    /// Perform one documented single-step ownership transition.
    #[verifier::rlimit(100)]
    #[verifier::spinoff_prover]
    fn cast_ownership_one_step(&mut self, own: Ownership, to: &TypeDesc, early: bool) -> (r:
        Result<Option<Ownership>, CastError>)
        ensures
            ({
                let s = own_step_spec(own, to@, early);
                match (r, s) {
                    (Ok(Some(new)), Ok(Some(p))) => new == p.1 && kinds_view(final(self).ops@)
                        == kinds_view(old(self).ops@) + p.0,
                    (Ok(None), Ok(None)) => final(self).ops@ == old(self).ops@,
                    (Err(e), Err(se)) => e@ == se && final(self).ops@ == old(self).ops@,
                    _ => false,
                }
            }),
    {
        proof {
            reveal(own_step_spec);
        }
        let ghost base = kinds_view(self.ops@);
        match own {
            Ownership::Owning => match to.own {
                Ownership::Raw | Ownership::Imm => {
                    self.emit(RewriteKind::Reborrow { mutbl: false });
                    proof {
                        assert(kinds_view(self.ops@) =~= base + seq![
                            RewriteKindView::Reborrow { mutbl: false },
                        ]);
                    }
                    Ok(Some(Ownership::Imm))
                },
                Ownership::RawMut | Ownership::Mut | Ownership::Cell => {
                    self.emit(RewriteKind::Reborrow { mutbl: true });
                    proof {
                        assert(kinds_view(self.ops@) =~= base + seq![
                            RewriteKindView::Reborrow { mutbl: true },
                        ]);
                    }
                    Ok(Some(Ownership::Mut))
                },
                _ => Ok(None),
            },
            Ownership::Counted => match to.own {
                Ownership::Imm | Ownership::Raw | Ownership::RawMut => Err(CastError::CountedCast),
                _ => Ok(None),
            },
            Ownership::Mut => match to.own {
                Ownership::Imm | Ownership::Raw => {
                    self.emit(RewriteKind::Reborrow { mutbl: false });
                    proof {
                        assert(kinds_view(self.ops@) =~= base + seq![
                            RewriteKindView::Reborrow { mutbl: false },
                        ]);
                    }
                    Ok(Some(Ownership::Imm))
                },
                Ownership::Cell => {
                    self.emit(RewriteKind::CellFromMut);
                    proof {
                        assert(kinds_view(self.ops@) =~= base + seq![RewriteKindView::CellFromMut]);
                    }
                    Ok(Some(Ownership::Cell))
                },
                Ownership::RawMut => {
                    if !early {
                        self.emit(RewriteKind::CastRefToRaw { mutbl: true });
                        proof {
                            assert(kinds_view(self.ops@) =~= base + seq![
                                RewriteKindView::CastRefToRaw { mutbl: true },
                            ]);
                        }
                        Ok(Some(Ownership::RawMut))
                    } else {
                        Ok(None)
                    }
                },
                _ => Ok(None),
            },
            Ownership::Cell => match to.own {
                Ownership::RawMut | Ownership::Raw => {
                    if !early {
                        self.emit(RewriteKind::AsPtr);
                        proof {
                            assert(kinds_view(self.ops@) =~= base + seq![RewriteKindView::AsPtr]);
                        }
                        Ok(Some(Ownership::RawMut))
                    } else {
                        Ok(None)
                    }
                },
                _ => Ok(None),
            },
            Ownership::Imm => match to.own {
                Ownership::Raw | Ownership::RawMut => {
                    if !early {
                        self.emit(RewriteKind::CastRefToRaw { mutbl: false });
                        proof {
                            assert(kinds_view(self.ops@) =~= base + seq![
                                RewriteKindView::CastRefToRaw { mutbl: false },
                            ]);
                        }
                        Ok(Some(Ownership::Raw))
                    } else {
                        Ok(None)
                    }
                },
                _ => Ok(None),
            },
            Ownership::RawMut => match to.own {
                Ownership::Raw | Ownership::Imm => {
                    if !early {
                        self.emit(RewriteKind::CastRawToRaw { to_mutbl: false });
                        proof {
                            assert(kinds_view(self.ops@) =~= base + seq![
                                RewriteKindView::CastRawToRaw { to_mutbl: false },
                            ]);
                        }
                        Ok(Some(Ownership::Raw))
                    } else {
                        Ok(None)
                    }
                },
                Ownership::Mut => {
                    if !early {
                        self.emit(RewriteKind::UnsafeCastRawToRef { mutbl: true });
                        proof {
                            assert(kinds_view(self.ops@) =~= base + seq![
                                RewriteKindView::UnsafeCastRawToRef { mutbl: true },
                            ]);
                        }
                        Ok(Some(Ownership::Mut))
                    } else {
                        Ok(None)
                    }
                },
                Ownership::Cell => {
                    if !early {
                        self.emit(
                            RewriteKind::CastRawMutToCellPtr { ty: ty_clone(&to.pointee_ty) },
                        );
                        self.emit(RewriteKind::UnsafeCastRawToRef { mutbl: false });
                        proof {
                            assert(kinds_view(self.ops@) =~= base + seq![
                                RewriteKindView::CastRawMutToCellPtr { ty: to@.pointee_ty },
                                RewriteKindView::UnsafeCastRawToRef { mutbl: false },
                            ]);
                        }
                        Ok(Some(Ownership::Cell))
                    } else {
                        Ok(None)
                    }
                },
                _ => Ok(None),
            },
            Ownership::Raw => match to.own {
                Ownership::RawMut | Ownership::Mut => {
                    if !early {
                        self.emit(RewriteKind::CastRawToRaw { to_mutbl: true });
                        proof {
                            assert(kinds_view(self.ops@) =~= base + seq![
                                RewriteKindView::CastRawToRaw { to_mutbl: true },
                            ]);
                        }
                        Ok(Some(Ownership::RawMut))
                    } else {
                        Ok(None)
                    }
                },
                Ownership::Imm => {
                    if !early {
                        self.emit(RewriteKind::UnsafeCastRawToRef { mutbl: false });
                        proof {
                            assert(kinds_view(self.ops@) =~= base + seq![
                                RewriteKindView::UnsafeCastRawToRef { mutbl: false },
                            ]);
                        }
                        Ok(Some(Ownership::Imm))
                    } else {
                        Ok(None)
                    }
                },
                _ => Ok(None),
            },
        }
    }

    /// Advance the ownership axis toward the target, one documented step
    /// at a time.
    #[verifier::rlimit(100)]
    #[verifier::spinoff_prover]
    fn cast_ownership(&mut self, own: Ownership, to: &TypeDesc, early: bool) -> (r: Result<
        Ownership,
        CastError,
    >)
        ensures
            ({
                let (sops, sres) = own_steps_spec(own, to@, early);
                kinds_view(final(self).ops@) == kinds_view(old(self).ops@) + sops && match (r, sres) {
                    (Ok(o), Ok(so)) => o == so,
                    (Err(e), Err(se)) => e@ == se,
                    _ => false,
                }
            }),
        decreases own_dist(own, to@.own),
    {
        proof {
            reveal(own_step_spec);
            reveal(own_steps_spec);
        }
        let ghost base = kinds_view(self.ops@);
        if own == to.own {
            proof {
                assert(kinds_view(self.ops@) =~= base + Seq::<RewriteKindView>::empty());
            }
            return Ok(own);
        }
        match self.cast_ownership_one_step(own, to, early) {
            Err(e) => {
                proof {
                    assert(kinds_view(self.ops@) =~= base + Seq::<RewriteKindView>::empty());
                }
                Err(e)
            },
            Ok(None) => {
                proof {
                    assert(kinds_view(self.ops@) =~= base + Seq::<RewriteKindView>::empty());
                }
                Ok(own)
            },
            Ok(Some(new)) => {
                let ghost step_ops = own_step_spec(own, to@, early)->Ok_0->Some_0.0;
                let r2 = self.cast_ownership(new, to, early);
                proof {
                    let (rec_ops, _) = own_steps_spec(new, to@, early);
                    assert(kinds_view(self.ops@) =~= base + (step_ops + rec_ops));
                }
                r2
            },
        }
    }

    /// Phases one to three: the pre-unwrap downgrade, the nullability
    /// resolution, and the source-side dynamic-ownership resolution.
    /// Returns the ownership after the downgrade, the running
    /// nullability, and whether a deferred map was opened.
    fn cast_prep(&mut self, own0: Ownership, opt0: bool, dyn0: bool, to: &TypeDesc) -> (r: (
        Ownership,
        bool,
        bool,
    ))
        ensures
            kinds_view(final(self).ops@) == kinds_view(old(self).ops@) + (pre_downgrade_spec(
                own0,
                opt0,
                to@.own,
            ).0 + null_resolve_spec(opt0, to@.option).0 + dyn_src_spec(dyn0, to@.own)),
            r.0 == pre_downgrade_spec(own0, opt0, to@.own).1,
            r.1 == null_resolve_spec(opt0, to@.option).1,
            r.2 == null_resolve_spec(opt0, to@.option).2,
    {
        proof {
            reveal(pre_downgrade_spec);
            reveal(null_resolve_spec);
            reveal(dyn_src_spec);
        }
        let ghost base = kinds_view(self.ops@);
        let mut own = own0;
        let mut opt = opt0;

        // Pre-unwrap downgrade.
        if opt && own != to.own && !own.is_copy() {
            match to.own {
                Ownership::Raw | Ownership::Imm => {
                    self.emit(RewriteKind::OptionDowngrade { mutbl: false, deref: true });
                    own = Ownership::Imm;
                },
                Ownership::RawMut | Ownership::Cell | Ownership::Mut => {
                    self.emit(RewriteKind::OptionDowngrade { mutbl: true, deref: true });
                    own = Ownership::Mut;
                },
                _ => {},
            }
        }
        let ghost ops1 = pre_downgrade_spec(own0, opt0, to@.own).0;
        proof {
            assert(kinds_view(self.ops@) =~= base + ops1);
        }

        // Nullability resolution.
        let mut in_map = false;
        if opt && !to.option {
            self.emit(RewriteKind::OptionUnwrap);
            opt = false;
        } else if opt && to.option {
            self.emit(RewriteKind::OptionMapBegin);
            opt = false;
            in_map = true;
        }
        let ghost ops2 = null_resolve_spec(opt0, to@.option).0;
        proof {
            assert(kinds_view(self.ops@) =~= base + ops1 + ops2);
        }

        // Dynamic-ownership resolution, source side.
        if dyn0 {
            match to.own {
                Ownership::Raw | Ownership::Imm => {
                    self.emit(RewriteKind::DynOwnedDowngrade { mutbl: false });
                },
                Ownership::RawMut | Ownership::Cell | Ownership::Mut => {
                    self.emit(RewriteKind::DynOwnedDowngrade { mutbl: true });
                },
                Ownership::Counted | Ownership::Owning => {
                    self.emit(RewriteKind::DynOwnedUnwrap);
                },
            }
        }
        let ghost ops3 = dyn_src_spec(dyn0, to@.own);
        proof {
            assert(kinds_view(self.ops@) =~= base + ops1 + ops2 + ops3);
            assert(kinds_view(self.ops@) =~= base + (ops1 + ops2 + ops3));
        }
        (own, opt, in_map)
    }

    /// Phase five: multiplicity resolution.
    fn cast_quantity(&mut self, own: Ownership, qty0: Quantity, to_qty: Quantity) -> (r: Result<
        Quantity,
        CastError,
    >)
        ensures
            kinds_view(final(self).ops@) == kinds_view(old(self).ops@) + qty_steps_spec(
                own,
                qty0,
                to_qty,
            ).0,
            match (r, qty_steps_spec(own, qty0, to_qty).1) {
                (Ok(q), Ok(sq)) => q == sq,
                (Err(e), Err(se)) => e@ == se,
                _ => false,
            },
    {
        proof {
            reveal(qty_steps_spec);
        }
        let ghost base = kinds_view(self.ops@);
        let mut qty = qty0;
        if qty != to_qty {
            match (qty, to_qty) {
                (Quantity::Array, Quantity::Slice) => {
                    qty = Quantity::Slice;
                },
                (Quantity::Array, _) => {
                    proof {
                        assert(kinds_view(self.ops@) =~= base + qty_steps_spec(
                            own,
                            qty0,
                            to_qty,
                        ).0);
                    }
                    return Err(CastError::ArrayCast { to_qty });
                },
                (Quantity::Slice, Quantity::OffsetPtr) => {
                    qty = Quantity::OffsetPtr;
                },
                (Quantity::OffsetPtr, Quantity::Slice) => {
                    qty = Quantity::Slice;
                },
                (_, Quantity::Single) => {
                    match own {
                        Ownership::Imm | Ownership::Cell => {
                            self.emit(RewriteKind::SliceFirst { mutbl: false });
                            qty = Quantity::Single;
                        },
                        Ownership::Mut => {
                            self.emit(RewriteKind::SliceFirst { mutbl: true });
                            qty = Quantity::Single;
                        },
                        _ => {},
                    }
                },
                _ => {},
            }
        }
        proof {
            assert(kinds_view(self.ops@) =~= base + qty_steps_spec(own, qty0, to_qty).0);
        }
        Ok(qty)
    }

    /// Phases seven and eight: target-side dynamic ownership and the
    /// nullability closure.  Returns the final nullability and
    /// dynamic-ownership axes.
    fn cast_finish(&mut self, in_map: bool, opt0: bool, dyn0: bool, to: &TypeDesc) -> (r: (
        bool,
        bool,
    ))
        ensures
            kinds_view(final(self).ops@) == kinds_view(old(self).ops@) + (dyn_tgt_spec(
                to@.dyn_owned,
            ) + null_close_spec(in_map, opt0, to@.option).0),
            r.0 == null_close_spec(in_map, opt0, to@.option).1,
            r.1 == (to@.dyn_owned || dyn0),
    {
        proof {
            reveal(dyn_tgt_spec);
            reveal(null_close_spec);
        }
        let ghost base = kinds_view(self.ops@);
        let mut opt = opt0;
        let mut dyn_owned = dyn0;
        if to.dyn_owned {
            self.emit(RewriteKind::DynOwnedWrap);
            dyn_owned = true;
        }
        proof {
            assert(kinds_view(self.ops@) =~= base + dyn_tgt_spec(to@.dyn_owned));
        }
        if in_map {
            self.emit(RewriteKind::OptionMapEnd);
            opt = true;
        } else if !opt && to.option {
            self.emit(RewriteKind::OptionSome);
            opt = true;
        }
        proof {
            assert(kinds_view(self.ops@) =~= base + (dyn_tgt_spec(to@.dyn_owned)
                + null_close_spec(in_map, opt0, to@.option).0));
        }
        (opt, dyn_owned)
    }

    /// The synthesis run itself, specified phase by phase.
    #[verifier::rlimit(100)]
    #[verifier::spinoff_prover]
    fn try_build_core(&mut self, from: &TypeDesc, to: &TypeDesc) -> (r: Result<(), CastError>)
        ensures
            ({
                let f = from@;
                let t = to@;
                let f0 = f.with_pointee(t.pointee_ty);
                if erase_ty(f.pointee_ty) != erase_ty(t.pointee_ty) {
                    &&& final(self).ops@ == old(self).ops@
                    &&& r matches Err(e) && e@ == (CastErrView::PointeeMismatch {
                        from_pointee: f.pointee_ty,
                        to_pointee: t.pointee_ty,
                    })
                } else if f0 == t {
                    &&& final(self).ops@ == old(self).ops@
                    &&& r is Ok
                } else {
                    let (ops1, own1) = pre_downgrade_spec(f0.own, f0.option, t.own);
                    let (ops2, opt2, in_map) = null_resolve_spec(f0.option, t.option);
                    let ops3 = dyn_src_spec(f0.dyn_owned, t.own);
                    let (ops4, res4) = own_steps_spec(own1, t, true);
                    match res4 {
                        Err(e4) => {
                            &&& kinds_view(final(self).ops@) == kinds_view(old(self).ops@) + (ops1
                                + ops2 + ops3 + ops4)
                            &&& r matches Err(e) && e@ == e4
                        },
                        Ok(own4) => {
                            let (ops5, res5) = qty_steps_spec(own4, f0.qty, t.qty);
                            match res5 {
                                Err(e5) => {
                                    &&& kinds_view(final(self).ops@) == kinds_view(old(self).ops@)
                                        + (ops1 + ops2 + ops3 + ops4 + ops5)
                                    &&& r matches Err(e) && e@ == e5
                                },
                                Ok(qty5) => {
                                    let (ops6, res6) = own_steps_spec(own4, t, false);
                                    match res6 {
                                        Err(e6) => {
                                            &&& kinds_view(final(self).ops@) == kinds_view(
                                                old(self).ops@,
                                            ) + (ops1 + ops2 + ops3 + ops4 + ops5 + ops6)
                                            &&& r matches Err(e) && e@ == e6
                                        },
                                        Ok(own6) => {
                                            let ops7 = dyn_tgt_spec(t.dyn_owned);
                                            let (ops8, opt8) = null_close_spec(
                                                in_map,
                                                opt2,
                                                t.option,
                                            );
                                            let ffin = TypeDescView {
                                                own: own6,
                                                qty: qty5,
                                                dyn_owned: t.dyn_owned,
                                                option: opt8,
                                                pointee_ty: t.pointee_ty,
                                            };
                                            &&& kinds_view(final(self).ops@) == kinds_view(
                                                old(self).ops@,
                                            ) + (ops1 + ops2 + ops3 + ops4 + ops5 + ops6 + ops7
                                                + ops8)
                                            &&& if ffin == t {
                                                r is Ok
                                            } else {
                                                r matches Err(e) && e@ == (CastErrView::Mismatch {
                                                    from: ffin,
                                                    to: t,
                                                    orig_from: f,
                                                })
                                            }
                                        },
                                    }
                                },
                            }
                        },
                    }
                }
            }),
    {
        let ghost base = kinds_view(self.ops@);

        // The pointee gate: the two pointee types may differ only in
        // their lifetimes.  This check comes first and is never relaxed.
        if !ty_eq_erased(&from.pointee_ty, &to.pointee_ty) {
            return Err(
                CastError::PointeeMismatch {
                    from_pointee: ty_clone(&from.pointee_ty),
                    to_pointee: ty_clone(&to.pointee_ty),
                },
            );
        }
        // From here on the running shape carries `to`'s pointee type, so
        // only the four axes remain to bridge.
        let ghost f0 = from@.with_pointee(to@.pointee_ty);

        if from.own == to.own && from.qty == to.qty && from.option == to.option && from.dyn_owned
            == to.dyn_owned {
            proof {
                assert(f0 =~= to@);
            }
            return Ok(());
        }
        assert(f0 != to@);

        let ghost ops1 = pre_downgrade_spec(f0.own, f0.option, to@.own).0;
        let ghost ops2 = null_resolve_spec(f0.option, to@.option).0;
        let ghost ops3 = dyn_src_spec(f0.dyn_owned, to@.own);
        let (own1, opt2, in_map) = self.cast_prep(from.own, from.option, from.dyn_owned, to);

        // Early ownership casts, hoping to reach an ownership on which
        // the multiplicity can be adjusted safely.
        let ghost ops4 = own_steps_spec(own1, to@, true).0;
        let own4 = match self.cast_ownership(own1, to, true) {
            Ok(o) => o,
            Err(e) => {
                proof {
                    lemma_seq_assoc(base, ops1 + ops2 + ops3, ops4);
                }
                return Err(e);
            },
        };
        proof {
            lemma_seq_assoc(base, ops1 + ops2 + ops3, ops4);
        }

        // Multiplicity resolution.
        let ghost ops5 = qty_steps_spec(own4, f0.qty, to@.qty).0;
        let qty5 = match self.cast_quantity(own4, from.qty, to.qty) {
            Ok(q) => q,
            Err(e) => {
                proof {
                    lemma_seq_assoc(base, ops1 + ops2 + ops3 + ops4, ops5);
                }
                return Err(e);
            },
        };
        proof {
            lemma_seq_assoc(base, ops1 + ops2 + ops3 + ops4, ops5);
        }

        // Late ownership casts.
        let ghost ops6 = own_steps_spec(own4, to@, false).0;
        let own6 = match self.cast_ownership(own4, to, false) {
            Ok(o) => o,
            Err(e) => {
                proof {
                    lemma_seq_assoc(base, ops1 + ops2 + ops3 + ops4 + ops5, ops6);
                }
                return Err(e);
            },
        };
        proof {
            lemma_seq_assoc(base, ops1 + ops2 + ops3 + ops4 + ops5, ops6);
        }

        // Target-side dynamic ownership, then the nullability closure.
        let ghost ops7 = dyn_tgt_spec(to@.dyn_owned);
        let ghost ops8 = null_close_spec(in_map, opt2, to@.option).0;
        let (opt8, dyn8) = self.cast_finish(in_map, opt2, false, to);
        proof {
            lemma_seq_assoc(ops1 + ops2 + ops3 + ops4 + ops5 + ops6, ops7, ops8);
            lemma_seq_assoc(base, ops1 + ops2 + ops3 + ops4 + ops5 + ops6, ops7 + ops8);
        }

        // The final check: the running shape must equal the target on
        // every axis.
        let ghost ffin = TypeDescView {
            own: own6,
            qty: qty5,
            dyn_owned: to@.dyn_owned,
            option: opt8,
            pointee_ty: to@.pointee_ty,
        };
        if own6 == to.own && qty5 == to.qty && opt8 == to.option {
            proof {
                assert(ffin =~= to@);
            }
            Ok(())
        } else {
            let e = CastError::Mismatch {
                from: TypeDesc {
                    own: own6,
                    qty: qty5,
                    dyn_owned: dyn8,
                    option: opt8,
                    pointee_ty: ty_clone(&to.pointee_ty),
                },
                to: crate::shape::desc_clone(to),
                orig_from: crate::shape::desc_clone(from),
            };
            proof {
                assert(ffin != to@);
                assert(e@ =~= (CastErrView::Mismatch { from: ffin, to: to@, orig_from: from@ }));
            }
            Err(e)
        }
    }

    /// Try to bridge `from` to `to`, appending the rewrites of the
    /// attempt to this builder's list.  On failure operations may already
    /// have been appended; the caller must discard them.
    #[verifier::rlimit(100)]
    #[verifier::spinoff_prover]
    pub fn try_build_cast_desc_desc(&mut self, from: &TypeDesc, to: &TypeDesc) -> (r: Result<
        (),
        CastError,
    >)
        ensures
            kinds_view(final(self).ops@) == kinds_view(old(self).ops@) + synth_cast(
                from@,
                to@,
            ).0,
            match r {
                Ok(_) => synth_cast(from@, to@).1 is Ok,
                Err(e) => synth_cast(from@, to@).1 is Err && e@ == synth_cast(from@, to@).1->Err_0,
            },
    {
        let r = self.try_build_core(from, to);
        proof {
            reveal(synth_cast);
            if self.ops@ == old(self).ops@ {
                assert(kinds_view(self.ops@) =~= kinds_view(old(self).ops@)
                    + Seq::<RewriteKindView>::empty());
            }
        }
        r
    }

    /// Bridge `from` to `to`, which the caller already knows to succeed.
    pub fn build_cast_desc_desc(&mut self, from: &TypeDesc, to: &TypeDesc)
        requires
            synth_cast(from@, to@).1 is Ok,
        ensures
            kinds_view(final(self).ops@) == kinds_view(old(self).ops@) + synth_cast(
                from@,
                to@,
            ).0,
    {
        let r = self.try_build_cast_desc_desc(from, to);
        match r {
            Ok(_) => (),
            Err(_) => vstd::pervasive::unreached(),
        }
    }
}

/// The canonical owning shape an allocation produces or a release
/// consumes: unique ownership of a single value or of a bounded run, not
/// dynamically owned.
pub open spec fn owned_desc(single: bool, option: bool, pointee: TyView) -> TypeDescView {
    TypeDescView {
        own: Ownership::Owning,
        qty: if single {
            Quantity::Single
        } else {
            Quantity::Slice
        },
        dyn_owned: false,
        option,
        pointee_ty: pointee,
    }
}

/// The synthesis a cast from a labeled type to a target shape performs:
/// the source shape is the classification of the labeled type's own
/// label, over the target's pointee type.
pub open spec fn cast_lty_desc_spec(c: AnalysisCtxtView, f: LTyView, t: TypeDescView) -> (
    Seq<RewriteKindView>,
    Result<(), CastErrView>,
) {
    synth_cast(crate::ctx::desc_of_spec(class_of_spec(c, f.label), t.pointee_ty), t)
}

/// The synthesis a cast from a source shape to a labeled type performs:
/// the target shape is the classification of the labeled type's label,
/// over the source's pointee type.
pub open spec fn cast_desc_lty_spec(c: AnalysisCtxtView, f: TypeDescView, t: LTyView) -> (
    Seq<RewriteKindView>,
    Result<(), CastErrView>,
) {
    synth_cast(f, crate::ctx::desc_of_spec(class_of_spec(c, t.label), f.pointee_ty))
}

/// The synthesis a cast between two labeled types performs.  Two
/// non-pointers need no cast; so does a pair of already-safe sides; a
/// side exempt from rewriting keeps its classified shape over the other
/// side's pointee; two exempt sides are left as they are.
pub open spec fn cast_lty_lty_spec(c: AnalysisCtxtView, f: LTyView, t: LTyView) -> (
    Seq<RewriteKindView>,
    Result<(), CastErrView>,
) {
    if f.label is None && t.label is None {
        (Seq::empty(), Ok(()))
    } else if !(f.ty is RawPtr) && !(t.ty is RawPtr) {
        (Seq::empty(), Ok(()))
    } else {
        let from_fixed = class_of_spec(c, f.label).fixed;
        let to_fixed = class_of_spec(c, t.label).fixed;
        if !from_fixed && !to_fixed {
            synth_cast(lty_to_desc_spec(c, f), lty_to_desc_spec(c, t))
        } else if !from_fixed && to_fixed {
            cast_desc_lty_spec(c, lty_to_desc_spec(c, f), t)
        } else if from_fixed && !to_fixed {
            cast_lty_desc_spec(c, f, lty_to_desc_spec(c, t))
        } else {
            (Seq::empty(), Ok(()))
        }
    }
}

/// The synthesis of a cast from a labeled type to the canonical owning
/// shape over the same pointee, keeping the source's nullability.
pub open spec fn cast_lty_owned_spec(c: AnalysisCtxtView, f: LTyView, single: bool) -> (
    Seq<RewriteKindView>,
    Result<(), CastErrView>,
) {
    if f.label is None {
        (Seq::empty(), Ok(()))
    } else if !(f.ty is RawPtr) {
        (Seq::empty(), Ok(()))
    } else if class_of_spec(c, f.label).fixed {
        (Seq::empty(), Ok(()))
    } else {
        let from = lty_to_desc_spec(c, f);
        synth_cast(from, owned_desc(single, from.option, from.pointee_ty))
    }
}

/// The synthesis of a cast from the canonical owning shape to a labeled
/// type over the same pointee.
pub open spec fn cast_owned_lty_spec(c: AnalysisCtxtView, single: bool, t: LTyView) -> (
    Seq<RewriteKindView>,
    Result<(), CastErrView>,
) {
    if t.label is None {
        (Seq::empty(), Ok(()))
    } else if !(t.ty is RawPtr) {
        (Seq::empty(), Ok(()))
    } else if class_of_spec(c, t.label).fixed {
        (Seq::empty(), Ok(()))
    } else {
        let to = lty_to_desc_spec(c, t);
        synth_cast(owned_desc(single, false, to.pointee_ty), to)
    }
}

impl CastBuilder {
    /// Bridge from a labeled type to a target shape.
    pub fn build_cast_lty_desc(&mut self, c: &AnalysisCtxt, from_lty: &LTy, to: &TypeDesc) -> (r:
        Result<(), CastError>)
        ensures
            kinds_view(final(self).ops@) == kinds_view(old(self).ops@) + cast_lty_desc_spec(
                c@,
                from_lty@,
                to@,
            ).0,
            match r {
                Ok(_) => cast_lty_desc_spec(c@, from_lty@, to@).1 is Ok,
                Err(e) => cast_lty_desc_spec(c@, from_lty@, to@).1 matches Err(se) && e@ == se,
            },
    {
        let from = c.desc_with_pointee(&from_lty.label, &to.pointee_ty);
        self.try_build_cast_desc_desc(&from, to)
    }

    /// Bridge from a source shape to a labeled type.
    pub fn build_cast_desc_lty(&mut self, c: &AnalysisCtxt, from: &TypeDesc, to_lty: &LTy) -> (r:
        Result<(), CastError>)
        ensures
            kinds_view(final(self).ops@) == kinds_view(old(self).ops@) + cast_desc_lty_spec(
                c@,
                from@,
                to_lty@,
            ).0,
            match r {
                Ok(_) => cast_desc_lty_spec(c@, from@, to_lty@).1 is Ok,
                Err(e) => cast_desc_lty_spec(c@, from@, to_lty@).1 matches Err(se) && e@ == se,
            },
    {
        let to = c.desc_with_pointee(&to_lty.label, &from.pointee_ty);
        self.try_build_cast_desc_desc(from, &to)
    }

    /// Bridge between two labeled types.
    pub fn build_cast_lty_lty(&mut self, c: &AnalysisCtxt, from_lty: &LTy, to_lty: &LTy) -> (r:
        Result<(), CastError>)
        ensures
            kinds_view(final(self).ops@) == kinds_view(old(self).ops@) + cast_lty_lty_spec(
                c@,
                from_lty@,
                to_lty@,
            ).0,
            match r {
                Ok(_) => cast_lty_lty_spec(c@, from_lty@, to_lty@).1 is Ok,
                Err(e) => cast_lty_lty_spec(c@, from_lty@, to_lty@).1 matches Err(se) && e@ == se,
            },
    {
        let ghost base = kinds_view(self.ops@);
        if from_lty.label.is_none() && to_lty.label.is_none() {
            // Neither side is a labeled pointer.
            proof {
                assert(kinds_view(self.ops@) =~= base + Seq::<RewriteKindView>::empty());
            }
            return Ok(());
        }
        if !from_lty.ty.is_raw_ptr() && !to_lty.ty.is_raw_ptr() {
            // Both sides are already safe; leave them as they are.
            proof {
                assert(kinds_view(self.ops@) =~= base + Seq::<RewriteKindView>::empty());
            }
            return Ok(());
        }
        let from_fixed = c.class_of(&from_lty.label).fixed;
        let to_fixed = c.class_of(&to_lty.label).fixed;
        if !from_fixed && !to_fixed {
            let from = c.lty_to_desc(from_lty);
            let to = c.lty_to_desc(to_lty);
            self.try_build_cast_desc_desc(&from, &to)
        } else if !from_fixed && to_fixed {
            let from = c.lty_to_desc(from_lty);
            self.build_cast_desc_lty(c, &from, to_lty)
        } else if from_fixed && !to_fixed {
            let to = c.lty_to_desc(to_lty);
            self.build_cast_lty_desc(c, from_lty, &to)
        } else {
            // Both sides are exempt; the existing code is taken as valid.
            proof {
                assert(kinds_view(self.ops@) =~= base + Seq::<RewriteKindView>::empty());
            }
            Ok(())
        }
    }

    /// Bridge from a labeled type to the canonical owning shape over the
    /// same pointee, keeping the source's nullability.
    pub fn build_cast_lty_adjust(&mut self, c: &AnalysisCtxt, from_lty: &LTy, single: bool) -> (r:
        Result<(), CastError>)
        ensures
            kinds_view(final(self).ops@) == kinds_view(old(self).ops@) + cast_lty_owned_spec(
                c@,
                from_lty@,
                single,
            ).0,
            match r {
                Ok(_) => cast_lty_owned_spec(c@, from_lty@, single).1 is Ok,
                Err(e) => cast_lty_owned_spec(c@, from_lty@, single).1 matches Err(se) && e@ == se,
            },
    {
        let ghost base = kinds_view(self.ops@);
        if from_lty.label.is_none() || !from_lty.ty.is_raw_ptr() || c.class_of(
            &from_lty.label,
        ).fixed {
            proof {
                assert(kinds_view(self.ops@) =~= base + Seq::<RewriteKindView>::empty());
            }
            return Ok(());
        }
        let from = c.lty_to_desc(from_lty);
        let to = TypeDesc {
            own: Ownership::Owning,
            qty: if single {
                Quantity::Single
            } else {
                Quantity::Slice
            },
            dyn_owned: false,
            option: from.option,
            pointee_ty: ty_clone(&from.pointee_ty),
        };
        proof {
            assert(to@ =~= owned_desc(single, lty_to_desc_spec(c@, from_lty@).option, lty_to_desc_spec(c@, from_lty@).pointee_ty));
        }
        self.try_build_cast_desc_desc(&from, &to)
    }

    /// Bridge from the canonical owning shape to a labeled type over the
    /// same pointee.
    pub fn build_cast_adjust_lty(&mut self, c: &AnalysisCtxt, single: bool, to_lty: &LTy) -> (r:
        Result<(), CastError>)
        ensures
            kinds_view(final(self).ops@) == kinds_view(old(self).ops@) + cast_owned_lty_spec(
                c@,
                single,
                to_lty@,
            ).0,
            match r {
                Ok(_) => cast_owned_lty_spec(c@, single, to_lty@).1 is Ok,
                Err(e) => cast_owned_lty_spec(c@, single, to_lty@).1 matches Err(se) && e@ == se,
            },
    {
        let ghost base = kinds_view(self.ops@);
        if to_lty.label.is_none() || !to_lty.ty.is_raw_ptr() || c.class_of(&to_lty.label).fixed {
            proof {
                assert(kinds_view(self.ops@) =~= base + Seq::<RewriteKindView>::empty());
            }
            return Ok(());
        }
        let to = c.lty_to_desc(to_lty);
        let from = TypeDesc {
            own: Ownership::Owning,
            qty: if single {
                Quantity::Single
            } else {
                Quantity::Slice
            },
            dyn_owned: false,
            option: false,
            pointee_ty: ty_clone(&to.pointee_ty),
        };
        proof {
            assert(from@ =~= owned_desc(single, false, lty_to_desc_spec(c@, to_lty@).pointee_ty));
        }
        self.try_build_cast_desc_desc(&from, &to)
    }
}

/// Law: synthesizing a cast from a shape to itself emits no operations
/// and succeeds.
pub proof fn lemma_cast_identity(d: TypeDescView)
    ensures
        synth_cast(d, d).0 == Seq::<RewriteKindView>::empty(),
        synth_cast(d, d).1 is Ok,
{
    reveal(synth_cast);
    assert(d.with_pointee(d.pointee_ty) =~= d);
}

/// Law: between shapes whose pointee types differ after lifetime erasure,
/// synthesis fails immediately with zero operations, whatever the other
/// axes hold.
pub proof fn lemma_pointee_gate(from: TypeDescView, to: TypeDescView)
    requires
        erase_ty(from.pointee_ty) != erase_ty(to.pointee_ty),
    ensures
        synth_cast(from, to).0 == Seq::<RewriteKindView>::empty(),
        synth_cast(from, to).1 == Err::<(), CastErrView>(
            CastErrView::PointeeMismatch {
                from_pointee: from.pointee_ty,
                to_pointee: to.pointee_ty,
            },
        ),
{
    reveal(synth_cast);
}

/// Law: an ordered pair of ownership kinds one documented single step
/// apart bridges by exactly the documented rewrites and lands exactly on
/// the target ownership.
pub proof fn lemma_own_single_step_exact(own: Ownership, to: TypeDescView, early: bool)
    requires
        own_step_spec(own, to, early) matches Ok(p) && p matches Some(q) && q.1 == to.own,
    ensures
        own_steps_spec(own, to, early).0 == own_step_spec(own, to, early)->Ok_0->Some_0.0,
        own_steps_spec(own, to, early).1 == Ok::<Ownership, CastErrView>(to.own),
{
    reveal(own_step_spec);
    reveal_with_fuel(own_steps_spec, 3);
    assert(own != to.own);
    let q = own_step_spec(own, to, early)->Ok_0->Some_0;
    assert(q.0 + Seq::<RewriteKindView>::empty() =~= q.0);
}

/// Law: the phase-agnostic rows of the transition table.  From unique
/// ownership toward a shared target the step is an immutable reborrow,
/// toward a mutable target a mutable reborrow; from a mutable borrow
/// toward a shared target an immutable reborrow, toward a cell the
/// mut-to-cell wrap — in the early and the late phase alike, with exactly
/// the documented rewrite and resulting ownership.
pub proof fn lemma_own_step_phase_free(to: TypeDescView, early: bool)
    ensures
        to.own == Ownership::Raw || to.own == Ownership::Imm ==> own_step_spec(
            Ownership::Owning,
            to,
            early,
        ) == Ok::<_, CastErrView>(
            Some((seq![RewriteKindView::Reborrow { mutbl: false }], Ownership::Imm)),
        ),
        to.own == Ownership::RawMut || to.own == Ownership::Mut || to.own == Ownership::Cell
            ==> own_step_spec(Ownership::Owning, to, early) == Ok::<_, CastErrView>(
            Some((seq![RewriteKindView::Reborrow { mutbl: true }], Ownership::Mut)),
        ),
        to.own == Ownership::Imm || to.own == Ownership::Raw ==> own_step_spec(
            Ownership::Mut,
            to,
            early,
        ) == Ok::<_, CastErrView>(
            Some((seq![RewriteKindView::Reborrow { mutbl: false }], Ownership::Imm)),
        ),
        to.own == Ownership::Cell ==> own_step_spec(Ownership::Mut, to, early) == Ok::<
            _,
            CastErrView,
        >(Some((seq![RewriteKindView::CellFromMut], Ownership::Cell))),
{
    reveal(own_step_spec);
}

/// Law: the early phase admits no raw or cell transitions.  A pair whose
/// only documented step is raw- or cell-directed makes no step and emits
/// nothing in the early phase; it is bridged only by the early phase
/// followed by the late one, never directly.
pub proof fn lemma_own_step_early_gate(own: Ownership, to: TypeDescView)
    requires
        own != to.own,
        own == Ownership::Cell || own == Ownership::Imm || own == Ownership::RawMut || own
            == Ownership::Raw || (own == Ownership::Mut && to.own == Ownership::RawMut),
    ensures
        own_step_spec(own, to, true) == Ok::<Option<(Seq<RewriteKindView>, Ownership)>, CastErrView>(
            None,
        ),
{
    reveal(own_step_spec);
}

/// Law: shared-counted ownership has no implemented downgrade.  Toward a
/// shared or raw target the step fails with the not-yet-implemented
/// error; toward any other target no step applies — either way nothing is
/// emitted.
pub proof fn lemma_own_step_counted(to: TypeDescView, early: bool)
    ensures
        to.own == Ownership::Imm || to.own == Ownership::Raw || to.own == Ownership::RawMut
            ==> own_step_spec(Ownership::Counted, to, early) == Err::<
            Option<(Seq<RewriteKindView>, Ownership)>,
            _,
        >(CastErrView::CountedCast),
        !(to.own == Ownership::Imm || to.own == Ownership::Raw || to.own == Ownership::RawMut)
            ==> own_step_spec(Ownership::Counted, to, early) == Ok::<
            Option<(Seq<RewriteKindView>, Ownership)>,
            CastErrView,
        >(None),
{
    reveal(own_step_spec);
}

/// Which ordered pairs of ownership kinds the documented transitions can
/// bridge at all, across the early and the late phase together.
pub open spec fn own_reachable(a: Ownership, b: Ownership) -> bool {
    a == b || match (a, b) {
        (Ownership::Owning, _) => b != Ownership::Counted,
        (Ownership::Counted, _) => false,
        (Ownership::Mut, Ownership::Imm) => true,
        (Ownership::Mut, Ownership::Raw) => true,
        (Ownership::Mut, Ownership::RawMut) => true,
        (Ownership::Mut, Ownership::Cell) => true,
        (Ownership::Imm, Ownership::Raw) => true,
        (Ownership::Imm, Ownership::RawMut) => true,
        (Ownership::Cell, Ownership::RawMut) => true,
        (Ownership::Cell, Ownership::Raw) => true,
        (Ownership::RawMut, Ownership::Raw) => true,
        (Ownership::RawMut, Ownership::Imm) => true,
        (Ownership::RawMut, Ownership::Mut) => true,
        (Ownership::RawMut, Ownership::Cell) => true,
        (Ownership::Raw, Ownership::RawMut) => true,
        (Ownership::Raw, Ownership::Mut) => true,
        (Ownership::Raw, Ownership::Imm) => true,
        _ => false,
    }
}

/// Law: the ownership transition table is complete.  The early phase
/// fails exactly on the unimplemented shared-counted downgrades; after
/// the early and then the late phase, the ownership axis has reached the
/// target exactly for the documented reachable pairs, and every other
/// pair is left as a residual mismatch for the final check.
#[verifier::rlimit(100)]
#[verifier::spinoff_prover]
pub proof fn lemma_ownership_two_phases(own: Ownership, to: TypeDescView)
    ensures
        own_steps_spec(own, to, true).1 is Err <==> (own == Ownership::Counted && (to.own
            == Ownership::Imm || to.own == Ownership::Raw || to.own == Ownership::RawMut)),
        own_steps_spec(own, to, true).1 matches Ok(o1) ==> {
            &&& own_steps_spec(o1, to, false).1 is Ok
            &&& (own_steps_spec(o1, to, false).1->Ok_0 == to.own <==> own_reachable(own, to.own))
        },
{
    reveal(own_step_spec);
    reveal_with_fuel(own_steps_spec, 4);
    // Case split on the source ownership; each case is finite and the
    // chains are at most two steps long.
    match (own, to.own) {
        (Ownership::Owning, _) => {},
        (Ownership::Counted, _) => {},
        (Ownership::Mut, _) => {},
        (Ownership::Imm, _) => {},
        (Ownership::Cell, _) => {},
        (Ownership::RawMut, _) => {},
        (Ownership::Raw, _) => {},
    }
}

/// Simulation of a rewrite sequence on an absent input, from position `i`
/// onward.  Outside a deferred map, a non-consuming downgrade keeps the
/// absent value and a map begin defers; while deferring, every operation
/// up to the matching map end is skipped, never invoked.  Any other
/// operation would touch the absent value, so the simulation rejects it.
/// The whole sequence passes when it ends outside a map with the value
/// still absent.
pub open spec fn passes_absent_from(ops: Seq<RewriteKindView>, i: int, skipping: bool) -> bool
    decreases ops.len() - i,
    when 0 <= i <= ops.len()
{
    if i >= ops.len() {
        !skipping
    } else if skipping {
        if ops[i] == RewriteKindView::OptionMapEnd {
            passes_absent_from(ops, i + 1, false)
        } else {
            passes_absent_from(ops, i + 1, true)
        }
    } else {
        match ops[i] {
            RewriteKindView::OptionDowngrade { .. } => passes_absent_from(ops, i + 1, false),
            RewriteKindView::OptionMapBegin => passes_absent_from(ops, i + 1, true),
            _ => false,
        }
    }
}

/// Whether simulating the sequence on an absent input yields an absent
/// output while invoking none of the deferred operations.
pub open spec fn passes_absent(ops: Seq<RewriteKindView>) -> bool {
    passes_absent_from(ops, 0, false)
}

/// Every operation of the sequence is a non-consuming downgrade.
pub open spec fn all_option_downgrades(ops: Seq<RewriteKindView>) -> bool {
    forall|i: int| 0 <= i < ops.len() ==> (#[trigger] ops[i]) is OptionDowngrade
}

/// No operation of the sequence opens or closes a deferred map.
pub open spec fn no_map_marks(ops: Seq<RewriteKindView>) -> bool {
    forall|i: int|
        0 <= i < ops.len() ==> !((#[trigger] ops[i]) is OptionMapBegin) && !(ops[i] is OptionMapEnd)
}

proof fn lemma_absent_inner(pre: Seq<RewriteKindView>, inner: Seq<RewriteKindView>, k: int)
    requires
        no_map_marks(inner),
        pre.len() + 1 <= k <= pre.len() + 1 + inner.len(),
    ensures
        passes_absent_from(
            pre + seq![RewriteKindView::OptionMapBegin] + inner + seq![
                RewriteKindView::OptionMapEnd,
            ],
            k,
            true,
        ),
    decreases pre.len() + 2 + inner.len() - k,
{
    let s = pre + seq![RewriteKindView::OptionMapBegin] + inner + seq![
        RewriteKindView::OptionMapEnd,
    ];
    if k == pre.len() + 1 + inner.len() {
        assert(s[k] == RewriteKindView::OptionMapEnd);
        assert(passes_absent_from(s, k + 1, false));
    } else {
        assert(s[k] == inner[k - pre.len() - 1]);
        lemma_absent_inner(pre, inner, k + 1);
    }
}

proof fn lemma_absent_pre(pre: Seq<RewriteKindView>, inner: Seq<RewriteKindView>, k: int)
    requires
        all_option_downgrades(pre),
        no_map_marks(inner),
        0 <= k <= pre.len(),
    ensures
        passes_absent_from(
            pre + seq![RewriteKindView::OptionMapBegin] + inner + seq![
                RewriteKindView::OptionMapEnd,
            ],
            k,
            false,
        ),
    decreases pre.len() - k,
{
    let s = pre + seq![RewriteKindView::OptionMapBegin] + inner + seq![
        RewriteKindView::OptionMapEnd,
    ];
    if k == pre.len() {
        assert(s[k] == RewriteKindView::OptionMapBegin);
        lemma_absent_inner(pre, inner, k + 1);
    } else {
        assert(s[k] == pre[k]);
        lemma_absent_pre(pre, inner, k + 1);
    }
}

/// A sequence of downgrades, one deferred-map opening, arbitrary deferred
/// operations without map marks, and the closing mark passes an absent
/// input through.
pub proof fn lemma_passes_absent_structure(pre: Seq<RewriteKindView>, inner: Seq<RewriteKindView>)
    requires
        all_option_downgrades(pre),
        no_map_marks(inner),
    ensures
        passes_absent(
            pre + seq![RewriteKindView::OptionMapBegin] + inner + seq![
                RewriteKindView::OptionMapEnd,
            ],
        ),
{
    lemma_absent_pre(pre, inner, 0);
}

proof fn lemma_own_steps_no_marks(own: Ownership, to: TypeDescView, early: bool)
    ensures
        no_map_marks(own_steps_spec(own, to, early).0),
    decreases own_dist(own, to.own),
{
    reveal(own_step_spec);
    reveal(own_steps_spec);
    if own != to.own {
        match own_step_spec(own, to, early) {
            Err(_) => {},
            Ok(None) => {},
            Ok(Some((ops, new))) => {
                lemma_own_steps_no_marks(new, to, early);
            },
        }
    }
}

/// Law: for a mapped-mode cast between two nullable shapes, simulating
/// the emitted sequence on an absent input yields an absent output while
/// invoking none of the inner operations.
#[verifier::rlimit(100)]
#[verifier::spinoff_prover]
pub proof fn lemma_nullable_pass_through(from: TypeDescView, to: TypeDescView)
    requires
        from.option,
        to.option,
        synth_cast(from, to).1 is Ok,
    ensures
        passes_absent(synth_cast(from, to).0),
{
    reveal(synth_cast);
    reveal(pre_downgrade_spec);
    reveal(null_resolve_spec);
    reveal(dyn_src_spec);
    reveal(qty_steps_spec);
    reveal(dyn_tgt_spec);
    reveal(null_close_spec);
    let f0 = from.with_pointee(to.pointee_ty);
    if erase_ty(from.pointee_ty) == erase_ty(to.pointee_ty) && f0 != to {
        let (ops1, own1) = pre_downgrade_spec(f0.own, f0.option, to.own);
        let ops2 = null_resolve_spec(f0.option, to.option).0;
        let ops3 = dyn_src_spec(f0.dyn_owned, to.own);
        let (ops4, res4) = own_steps_spec(own1, to, true);
        let own4 = res4->Ok_0;
        let (ops5, res5) = qty_steps_spec(own4, f0.qty, to.qty);
        let (ops6, res6) = own_steps_spec(own4, to, false);
        let ops7 = dyn_tgt_spec(to.dyn_owned);
        let ops8 = null_close_spec(true, false, to.option).0;
        lemma_own_steps_no_marks(own1, to, true);
        lemma_own_steps_no_marks(own4, to, false);
        let inner = ops3 + ops4 + ops5 + ops6 + ops7;
        assert(no_map_marks(inner));
        assert(all_option_downgrades(ops1));
        lemma_passes_absent_structure(ops1, inner);
        assert(ops1 + ops2 + ops3 + ops4 + ops5 + ops6 + ops7 + ops8 =~= ops1 + seq![
            RewriteKindView::OptionMapBegin,
        ] + inner + seq![RewriteKindView::OptionMapEnd]);
    }
}

} // verus!
