//! The walker: recursive descent over a body's basic blocks, statements
//! and terminators, expressions and addressable locations, tracking the
//! exact sub-expression address and emitting atomic rewrites, either
//! directly or through the cast synthesizer.
//!
//! Every visit is a pure function of the read-only context and the
//! visited node: it appends the rewrites it decides on to the caller's
//! list and joins the suppression reasons it runs into.  The
//! sub-location path is a value extended per recursive call, never shared
//! mutable state, so no visit can leave a non-empty path behind when it
//! returns.  A cast the synthesizer cannot build contributes no rewrites
//! at all — the operations of the failed attempt are discarded whole —
//! and records a suppression reason instead.

use vstd::prelude::*;
use crate::cast::{
    cast_lty_desc_spec, cast_lty_lty_spec, cast_lty_owned_spec,
    cast_owned_lty_spec, kinds_view, lemma_kinds_view, synth_cast, CastBuilder,
};
use crate::ctx::{
    class_of_spec, is_dyn_owned_spec, is_nullable_spec, place_prefix_lty_spec, type_of_place_spec,
    AnalysisCtxt, AnalysisCtxtView,
};
use crate::ctx::{desc_of_spec, pointee_lty_spec, type_of_operand_spec};
use crate::ir::{
    lemma_operands_view, operands_view, BorrowKind, Mutability, Operand, OperandView, Place,
    PlaceElem, PlaceView, Rvalue, RvalueView,
};
use crate::shape::desc_eq;
use crate::ty::lty_eq;
use crate::rewrite::{lemma_rewrites_view, rewrites_view, MirRewrite, MirRewriteView, RewriteKind, RewriteKindView, SubLoc};
use crate::shape::TypeDesc;
use crate::ty::{LTy, LTyView};

verus! {

broadcast use vstd::std_specs::vec::group_vec_axioms;

/// How an enclosing context intends to use a visited place.
#[derive(Clone, Copy, PartialEq, Eq, Structural, Debug)]
pub enum PlaceAccess {
    /// The context reads from the place.
    Imm,
    /// The context writes to the place.
    Mut,
    /// The context moves out of the place.
    Move,
}

impl PlaceAccess {
    /// The access a boolean mutability asks for.
    pub fn from_bool(mutbl: bool) -> (r: PlaceAccess)
        ensures
            r == (if mutbl {
                PlaceAccess::Mut
            } else {
                PlaceAccess::Imm
            }),
    {
        if mutbl {
            PlaceAccess::Mut
        } else {
            PlaceAccess::Imm
        }
    }

    /// The access a borrow mutability asks for.
    pub fn from_mutbl(mutbl: Mutability) -> (r: PlaceAccess)
        ensures
            r == (match mutbl {
                Mutability::Not => PlaceAccess::Imm,
                Mutability::Mut => PlaceAccess::Mut,
            }),
    {
        match mutbl {
            Mutability::Not => PlaceAccess::Imm,
            Mutability::Mut => PlaceAccess::Mut,
        }
    }
}

/// The reasons a function-level walk records for abandoning rewrites at
/// some site; never cleared during a walk.
#[derive(Clone, Copy, PartialEq, Eq, Structural, Debug)]
pub struct SuppressReasons {
    /// A shared-mutable-cell pattern too complex to rewrite: a cell
    /// inside an aggregate, an array, or behind further indirection.
    pub complex_cell: bool,
    /// A statement or terminator kind outside the supported subset.
    pub unsupported_ir: bool,
    /// A shape cast the synthesizer could not build.
    pub failed_cast: bool,
    /// A null constant in a position whose classification nevertheless
    /// proves it non-null: an impossible classification the inference
    /// pass should never produce.
    pub impossible_null: bool,
}

impl SuppressReasons {
    /// No reason recorded.
    pub open spec fn spec_empty() -> SuppressReasons {
        SuppressReasons { complex_cell: false, unsupported_ir: false, failed_cast: false, impossible_null: false }
    }

    /// No reason recorded.
    #[verifier::when_used_as_spec(spec_empty)]
    pub fn empty() -> (r: SuppressReasons)
        ensures
            r == SuppressReasons::spec_empty(),
    {
        SuppressReasons { complex_cell: false, unsupported_ir: false, failed_cast: false, impossible_null: false }
    }

    /// Both sets of reasons together.
    pub open spec fn union(self, o: SuppressReasons) -> SuppressReasons {
        SuppressReasons {
            complex_cell: self.complex_cell || o.complex_cell,
            unsupported_ir: self.unsupported_ir || o.unsupported_ir,
            failed_cast: self.failed_cast || o.failed_cast,
            impossible_null: self.impossible_null || o.impossible_null,
        }
    }

    /// Record the given reasons as well.
    pub fn add(&mut self, o: SuppressReasons)
        ensures
            *final(self) == old(self).union(o),
    {
        self.complex_cell = self.complex_cell || o.complex_cell;
        self.unsupported_ir = self.unsupported_ir || o.unsupported_ir;
        self.failed_cast = self.failed_cast || o.failed_cast;
        self.impossible_null = self.impossible_null || o.impossible_null;
    }
}

/// Only the complex-cell reason.
pub open spec fn spec_complex_cell() -> SuppressReasons {
    SuppressReasons { complex_cell: true, unsupported_ir: false, failed_cast: false, impossible_null: false }
}

/// Only the complex-cell reason.
#[verifier::when_used_as_spec(spec_complex_cell)]
pub fn complex_cell() -> (r: SuppressReasons)
    ensures
        r == spec_complex_cell(),
{
    SuppressReasons { complex_cell: true, unsupported_ir: false, failed_cast: false, impossible_null: false }
}

/// Only the unsupported-IR reason.
pub open spec fn spec_unsupported_ir() -> SuppressReasons {
    SuppressReasons { complex_cell: false, unsupported_ir: true, failed_cast: false, impossible_null: false }
}

/// Only the unsupported-IR reason.
#[verifier::when_used_as_spec(spec_unsupported_ir)]
pub fn unsupported_ir() -> (r: SuppressReasons)
    ensures
        r == spec_unsupported_ir(),
{
    SuppressReasons { complex_cell: false, unsupported_ir: true, failed_cast: false, impossible_null: false }
}

/// Only the impossible-null reason.
pub open spec fn spec_impossible_null() -> SuppressReasons {
    SuppressReasons {
        complex_cell: false,
        unsupported_ir: false,
        failed_cast: false,
        impossible_null: true,
    }
}

/// Only the impossible-null reason.
#[verifier::when_used_as_spec(spec_impossible_null)]
pub fn impossible_null() -> (r: SuppressReasons)
    ensures
        r == spec_impossible_null(),
{
    SuppressReasons {
        complex_cell: false,
        unsupported_ir: false,
        failed_cast: false,
        impossible_null: true,
    }
}

/// Only the failed-cast reason.
pub open spec fn spec_failed_cast() -> SuppressReasons {
    SuppressReasons { complex_cell: false, unsupported_ir: false, failed_cast: true, impossible_null: false }
}

/// Only the failed-cast reason.
#[verifier::when_used_as_spec(spec_failed_cast)]
pub fn failed_cast() -> (r: SuppressReasons)
    ensures
        r == spec_failed_cast(),
{
    SuppressReasons { complex_cell: false, unsupported_ir: false, failed_cast: true, impossible_null: false }
}

/// Copy a sub-location path.
#[verifier::loop_isolation(false)]
pub fn clone_path(path: &Vec<SubLoc>) -> (r: Vec<SubLoc>)
    ensures
        r@ == path@,
{
    let mut out: Vec<SubLoc> = Vec::new();
    let n: usize = path.len();
    let mut i: usize = 0;
    while i < n
        invariant
            0 <= i <= n,
            out@ == path@.take(i as int),
        decreases n - i,
    {
        out.push(path[i]);
        proof {
            assert(out@ =~= path@.take(i + 1 as int));
        }
        i = i + 1;
    }
    proof {
        assert(path@.take(n as int) =~= path@);
    }
    out
}

/// Extend a sub-location path by one step.
pub fn path_push(path: &Vec<SubLoc>, s: SubLoc) -> (r: Vec<SubLoc>)
    ensures
        r@ == path@.push(s),
{
    let mut r = clone_path(path);
    r.push(s);
    r
}

/// Append one rewrite, addressed at the given path.
pub fn emit(out: &mut Vec<MirRewrite>, path: &Vec<SubLoc>, kind: RewriteKind)
    ensures
        rewrites_view(final(out)@) == rewrites_view(old(out)@).push(
            MirRewriteView { kind: kind@, sub_loc: path@ },
        ),
{
    let ghost k = kind@;
    let rw = MirRewrite { kind, sub_loc: clone_path(path) };
    proof {
        crate::rewrite::lemma_rewrites_view_push(out@, rw);
    }
    out.push(rw);
}

/// The rewrites a sequence of operations becomes when each is addressed
/// at the same path.
pub open spec fn ops_at(ops: Seq<RewriteKindView>, path: Seq<SubLoc>) -> Seq<MirRewriteView> {
    ops.map_values(|k: RewriteKindView| MirRewriteView { kind: k, sub_loc: path })
}

/// Append a list of synthesized operations, each addressed at the given
/// path.
#[verifier::loop_isolation(false)]
pub fn emit_ops(out: &mut Vec<MirRewrite>, path: &Vec<SubLoc>, ops: Vec<RewriteKind>)
    ensures
        rewrites_view(final(out)@) == rewrites_view(old(out)@) + ops_at(kinds_view(ops@), path@),
{
    let ghost ops0 = ops@;
    let ghost kv = kinds_view(ops0);
    let ghost base = rewrites_view(out@);
    proof {
        lemma_kinds_view(ops0);
    }
    let mut rest = ops;
    let ghost mut j: int = 0;
    while rest.len() > 0
        invariant
            0 <= j <= ops0.len(),
            rest@ == ops0.skip(j),
            rewrites_view(out@) == base + ops_at(kv.take(j), path@),
        decreases rest@.len(),
    {
        proof {
            assert(j < ops0.len());
        }
        let k = rest.remove(0);
        proof {
            assert(k == ops0[j]);
            assert(rest@ =~= ops0.skip(j + 1));
        }
        emit(out, path, k);
        proof {
            assert(ops_at(kv.take(j + 1), path@) =~= ops_at(kv.take(j), path@).push(
                MirRewriteView { kind: kv[j], sub_loc: path@ },
            ));
            j = j + 1;
        }
    }
    proof {
        assert(kv.take(j) =~= kv);
    }
}

/// What a cast attempt contributes: the synthesized operations at the
/// given path when it succeeds; nothing but the failed-cast reason when
/// it does not.
pub open spec fn cast_out(
    pair: (Seq<RewriteKindView>, Result<(), crate::cast::CastErrView>),
    path: Seq<SubLoc>,
) -> (Seq<MirRewriteView>, SuppressReasons) {
    if pair.1 is Ok {
        (ops_at(pair.0, path), SuppressReasons::spec_empty())
    } else {
        (Seq::empty(), spec_failed_cast())
    }
}

/// Synthesize a cast between two shapes and emit its operations at the
/// given path, or record the failure.
pub fn emit_cast_desc_desc(
    from: &TypeDesc,
    to: &TypeDesc,
    path: &Vec<SubLoc>,
    out: &mut Vec<MirRewrite>,
    errs: &mut SuppressReasons,
)
    ensures
        rewrites_view(final(out)@) == rewrites_view(old(out)@) + cast_out(
            synth_cast(from@, to@),
            path@,
        ).0,
        *final(errs) == old(errs).union(cast_out(synth_cast(from@, to@), path@).1),
{
    let mut b = CastBuilder::new();
    match b.try_build_cast_desc_desc(from, to) {
        Ok(_) => {
            proof {
                assert(kinds_view(b.ops@) =~= synth_cast(from@, to@).0);
            }
            emit_ops(out, path, b.ops);
            errs.add(SuppressReasons::empty());
        },
        Err(_) => {
            proof {
                assert(rewrites_view(out@) =~= rewrites_view(out@)
                    + Seq::<MirRewriteView>::empty());
            }
            errs.add(failed_cast());
        },
    }
}

/// Synthesize a cast between two labeled types and emit its operations at
/// the given path, or record the failure.
pub fn emit_cast_lty_lty(
    c: &AnalysisCtxt,
    from_lty: &LTy,
    to_lty: &LTy,
    path: &Vec<SubLoc>,
    out: &mut Vec<MirRewrite>,
    errs: &mut SuppressReasons,
)
    ensures
        rewrites_view(final(out)@) == rewrites_view(old(out)@) + cast_out(
            cast_lty_lty_spec(c@, from_lty@, to_lty@),
            path@,
        ).0,
        *final(errs) == old(errs).union(
            cast_out(cast_lty_lty_spec(c@, from_lty@, to_lty@), path@).1,
        ),
{
    let mut b = CastBuilder::new();
    match b.build_cast_lty_lty(c, from_lty, to_lty) {
        Ok(_) => {
            proof {
                assert(kinds_view(b.ops@) =~= cast_lty_lty_spec(c@, from_lty@, to_lty@).0);
            }
            emit_ops(out, path, b.ops);
            errs.add(SuppressReasons::empty());
        },
        Err(_) => {
            proof {
                assert(rewrites_view(out@) =~= rewrites_view(out@)
                    + Seq::<MirRewriteView>::empty());
            }
            errs.add(failed_cast());
        },
    }
}

/// Synthesize a cast from a labeled type to a target shape and emit its
/// operations at the given path, or record the failure.
pub fn emit_cast_lty_desc(
    c: &AnalysisCtxt,
    from_lty: &LTy,
    to: &TypeDesc,
    path: &Vec<SubLoc>,
    out: &mut Vec<MirRewrite>,
    errs: &mut SuppressReasons,
)
    ensures
        rewrites_view(final(out)@) == rewrites_view(old(out)@) + cast_out(
            cast_lty_desc_spec(c@, from_lty@, to@),
            path@,
        ).0,
        *final(errs) == old(errs).union(
            cast_out(cast_lty_desc_spec(c@, from_lty@, to@), path@).1,
        ),
{
    let mut b = CastBuilder::new();
    match b.build_cast_lty_desc(c, from_lty, to) {
        Ok(_) => {
            proof {
                assert(kinds_view(b.ops@) =~= cast_lty_desc_spec(c@, from_lty@, to@).0);
            }
            emit_ops(out, path, b.ops);
            errs.add(SuppressReasons::empty());
        },
        Err(_) => {
            proof {
                assert(rewrites_view(out@) =~= rewrites_view(out@)
                    + Seq::<MirRewriteView>::empty());
            }
            errs.add(failed_cast());
        },
    }
}

/// Synthesize a cast from a labeled type to the canonical owning shape
/// and emit its operations at the given path, or record the failure.
pub fn emit_cast_lty_owned(
    c: &AnalysisCtxt,
    from_lty: &LTy,
    single: bool,
    path: &Vec<SubLoc>,
    out: &mut Vec<MirRewrite>,
    errs: &mut SuppressReasons,
)
    ensures
        rewrites_view(final(out)@) == rewrites_view(old(out)@) + cast_out(
            cast_lty_owned_spec(c@, from_lty@, single),
            path@,
        ).0,
        *final(errs) == old(errs).union(
            cast_out(cast_lty_owned_spec(c@, from_lty@, single), path@).1,
        ),
{
    let mut b = CastBuilder::new();
    match b.build_cast_lty_adjust(c, from_lty, single) {
        Ok(_) => {
            proof {
                assert(kinds_view(b.ops@) =~= cast_lty_owned_spec(c@, from_lty@, single).0);
            }
            emit_ops(out, path, b.ops);
            errs.add(SuppressReasons::empty());
        },
        Err(_) => {
            proof {
                assert(rewrites_view(out@) =~= rewrites_view(out@)
                    + Seq::<MirRewriteView>::empty());
            }
            errs.add(failed_cast());
        },
    }
}

/// Synthesize a cast from the canonical owning shape to a labeled type
/// and emit its operations at the given path, or record the failure.
pub fn emit_cast_owned_lty(
    c: &AnalysisCtxt,
    single: bool,
    to_lty: &LTy,
    path: &Vec<SubLoc>,
    out: &mut Vec<MirRewrite>,
    errs: &mut SuppressReasons,
)
    ensures
        rewrites_view(final(out)@) == rewrites_view(old(out)@) + cast_out(
            cast_owned_lty_spec(c@, single, to_lty@),
            path@,
        ).0,
        *final(errs) == old(errs).union(
            cast_out(cast_owned_lty_spec(c@, single, to_lty@), path@).1,
        ),
{
    let mut b = CastBuilder::new();
    match b.build_cast_adjust_lty(c, single, to_lty) {
        Ok(_) => {
            proof {
                assert(kinds_view(b.ops@) =~= cast_owned_lty_spec(c@, single, to_lty@).0);
            }
            emit_ops(out, path, b.ops);
            errs.add(SuppressReasons::empty());
        },
        Err(_) => {
            proof {
                assert(rewrites_view(out@) =~= rewrites_view(out@)
                    + Seq::<MirRewriteView>::empty());
            }
            errs.add(failed_cast());
        },
    }
}

/// The view of an optional borrowed labeled type.
pub open spec fn opt_lty_view(e: Option<&LTy>) -> Option<LTyView> {
    match e {
        Some(l) => Some(l@),
        None => None,
    }
}

/// The rewrites visiting an addressable location emits: the first `k`
/// projection steps of the place, resolved from the root outward.  Each
/// dereference of a nullable pointer unwraps the present value — after a
/// non-consuming downgrade when the pointer's ownership cannot be freely
/// duplicated — and each dereference of a dynamically-owned pointer
/// downgrades it to a borrow.  Field and index projections recurse on
/// their base without rewrites of their own; a downcast is a no-op.
pub open spec fn visit_place_ref_spec(
    c: AnalysisCtxtView,
    local: usize,
    projs: Seq<PlaceElem>,
    k: int,
    access: PlaceAccess,
    path: Seq<SubLoc>,
) -> Seq<MirRewriteView>
    decreases k,
{
    if k <= 0 || k > projs.len() {
        Seq::empty()
    } else {
        match projs[k - 1] {
            PlaceElem::Deref => {
                let sub = path.push(SubLoc::PlaceDerefPointer);
                let rec = visit_place_ref_spec(c, local, projs, k - 1, access, sub);
                let extra: Seq<MirRewriteView> = match place_prefix_lty_spec(
                    c,
                    local,
                    projs,
                    k - 1,
                ) {
                    Some(bl) => {
                        let null_ops: Seq<MirRewriteView> = if is_nullable_spec(c, bl.label) {
                            let down: Seq<MirRewriteView> = if !class_of_spec(
                                c,
                                bl.label,
                            ).own.spec_is_copy() {
                                seq![
                                    MirRewriteView {
                                        kind: RewriteKindView::OptionDowngrade {
                                            mutbl: access is Mut,
                                            deref: true,
                                        },
                                        sub_loc: sub,
                                    },
                                ]
                            } else {
                                Seq::empty()
                            };
                            down + seq![
                                MirRewriteView { kind: RewriteKindView::OptionUnwrap, sub_loc: sub },
                            ]
                        } else {
                            Seq::empty()
                        };
                        let dyn_ops: Seq<MirRewriteView> = if is_dyn_owned_spec(c, bl) {
                            seq![
                                MirRewriteView {
                                    kind: RewriteKindView::DynOwnedDowngrade {
                                        mutbl: access is Mut,
                                    },
                                    sub_loc: sub,
                                },
                            ]
                        } else {
                            Seq::empty()
                        };
                        null_ops + dyn_ops
                    },
                    None => Seq::empty(),
                };
                rec + extra
            },
            PlaceElem::Field(_) => visit_place_ref_spec(
                c,
                local,
                projs,
                k - 1,
                access,
                path.push(SubLoc::PlaceFieldBase),
            ),
            PlaceElem::Index | PlaceElem::ConstantIndex | PlaceElem::Subslice => {
                visit_place_ref_spec(
                    c,
                    local,
                    projs,
                    k - 1,
                    access,
                    path.push(SubLoc::PlaceIndexArray),
                )
            },
            PlaceElem::Downcast => Seq::empty(),
        }
    }
}

/// The rewrites visiting a whole place emits.
pub open spec fn visit_place_spec(
    c: AnalysisCtxtView,
    pl: PlaceView,
    access: PlaceAccess,
    path: Seq<SubLoc>,
) -> Seq<MirRewriteView> {
    visit_place_ref_spec(c, pl.local, pl.projection, pl.projection.len() as int, access, path)
}

/// Visit the first `k` projection steps of a place.
#[verifier::rlimit(100)]
#[verifier::spinoff_prover]
pub fn visit_place_ref(
    c: &AnalysisCtxt,
    local: usize,
    projs: &Vec<PlaceElem>,
    k: usize,
    access: PlaceAccess,
    path: &Vec<SubLoc>,
    out: &mut Vec<MirRewrite>,
)
    requires
        k <= projs@.len(),
    ensures
        rewrites_view(final(out)@) == rewrites_view(old(out)@) + visit_place_ref_spec(
            c@,
            local,
            projs@,
            k as int,
            access,
            path@,
        ),
    decreases k,
{
    let ghost base = rewrites_view(out@);
    if k == 0 {
        proof {
            assert(rewrites_view(out@) =~= base + Seq::<MirRewriteView>::empty());
        }
        return ;
    }
    match projs[k - 1] {
        PlaceElem::Deref => {
            let sub = path_push(path, SubLoc::PlaceDerefPointer);
            visit_place_ref(c, local, projs, k - 1, access, &sub, out);
            let ghost rec = visit_place_ref_spec(c@, local, projs@, k - 1, access, sub@);
            match c.place_prefix_lty(local, projs, k - 1) {
                Some(bl) => {
                    let ghost null_start = rewrites_view(out@);
                    let mutbl = match access {
                        PlaceAccess::Mut => true,
                        _ => false,
                    };
                    if c.is_nullable(&bl.label) {
                        if !c.class_of(&bl.label).own.is_copy() {
                            emit(
                                out,
                                &sub,
                                RewriteKind::OptionDowngrade { mutbl, deref: true },
                            );
                        }
                        emit(out, &sub, RewriteKind::OptionUnwrap);
                    }
                    if c.is_dyn_owned(bl) {
                        emit(out, &sub, RewriteKind::DynOwnedDowngrade { mutbl });
                    }
                    proof {
                        assert(rewrites_view(out@) =~= base + visit_place_ref_spec(
                            c@,
                            local,
                            projs@,
                            k as int,
                            access,
                            path@,
                        ));
                    }
                },
                None => {
                    proof {
                        assert(rewrites_view(out@) =~= base + visit_place_ref_spec(
                            c@,
                            local,
                            projs@,
                            k as int,
                            access,
                            path@,
                        ));
                    }
                },
            }
        },
        PlaceElem::Field(_) => {
            let sub = path_push(path, SubLoc::PlaceFieldBase);
            visit_place_ref(c, local, projs, k - 1, access, &sub, out);
        },
        PlaceElem::Index | PlaceElem::ConstantIndex | PlaceElem::Subslice => {
            let sub = path_push(path, SubLoc::PlaceIndexArray);
            visit_place_ref(c, local, projs, k - 1, access, &sub, out);
        },
        PlaceElem::Downcast => {
            proof {
                assert(rewrites_view(out@) =~= base + Seq::<MirRewriteView>::empty());
            }
        },
    }
}

/// Visit an addressable location under the given access.
pub fn visit_place(
    c: &AnalysisCtxt,
    pl: &Place,
    access: PlaceAccess,
    path: &Vec<SubLoc>,
    out: &mut Vec<MirRewrite>,
)
    ensures
        rewrites_view(final(out)@) == rewrites_view(old(out)@) + visit_place_spec(
            c@,
            pl@,
            access,
            path@,
        ),
{
    visit_place_ref(c, pl.local, &pl.projection, pl.projection.len(), access, path, out);
}

/// The rewrites and suppression reasons visiting an operand emits: the
/// place it reads is visited as a move, and when an expected labeled type
/// is given and the operand's own type carries a pointer label, a cast
/// bridges the two.
pub open spec fn visit_operand_spec(
    c: AnalysisCtxtView,
    op: OperandView,
    expect: Option<LTyView>,
    path: Seq<SubLoc>,
) -> (Seq<MirRewriteView>, SuppressReasons) {
    match crate::ir::operand_place_view(op) {
        Some(pl) => {
            let ops1 = visit_place_spec(c, pl, PlaceAccess::Move, path.push(SubLoc::OperandPlace));
            match expect {
                Some(e) => match type_of_place_spec(c, pl) {
                    Some(ptr_lty) => if ptr_lty.label is Some {
                        let co = cast_out(cast_lty_lty_spec(c, ptr_lty, e), path);
                        (ops1 + co.0, co.1)
                    } else {
                        (ops1, SuppressReasons::spec_empty())
                    },
                    None => (ops1, SuppressReasons::spec_empty()),
                },
                None => (ops1, SuppressReasons::spec_empty()),
            }
        },
        None => (Seq::empty(), SuppressReasons::spec_empty()),
    }
}

/// Visit an operand, bridging it to the expected labeled type if one is
/// given.
pub fn visit_operand(
    c: &AnalysisCtxt,
    op: &Operand,
    expect: Option<&LTy>,
    path: &Vec<SubLoc>,
    out: &mut Vec<MirRewrite>,
    errs: &mut SuppressReasons,
)
    ensures
        rewrites_view(final(out)@) == rewrites_view(old(out)@) + visit_operand_spec(
            c@,
            op@,
            opt_lty_view(expect),
            path@,
        ).0,
        *final(errs) == old(errs).union(
            visit_operand_spec(c@, op@, opt_lty_view(expect), path@).1,
        ),
{
    let ghost base = rewrites_view(out@);
    match op.place() {
        Some(pl) => {
            let sub = path_push(path, SubLoc::OperandPlace);
            visit_place(c, pl, PlaceAccess::Move, &sub, out);
            if let Some(e) = expect {
                match c.type_of_place(pl) {
                    Some(ptr_lty) => {
                        if ptr_lty.label.is_some() {
                            emit_cast_lty_lty(c, ptr_lty, e, path, out, errs);
                            proof {
                                let co = cast_out(cast_lty_lty_spec(c@, ptr_lty@, e@), path@);
                                assert(rewrites_view(out@) =~= base + (visit_place_spec(
                                    c@,
                                    pl@,
                                    PlaceAccess::Move,
                                    sub@,
                                ) + co.0));
                            }
                            return ;
                        }
                    },
                    None => {},
                }
            }
            proof {
                assert(*errs == errs.union(SuppressReasons::spec_empty()));
            }
        },
        None => {
            proof {
                assert(rewrites_view(out@) =~= base + Seq::<MirRewriteView>::empty());
                assert(*errs == errs.union(SuppressReasons::spec_empty()));
            }
        },
    }
}

/// The rewrites and suppression reasons visiting an operand against an
/// expected shape emits: the place is visited at the current path, and a
/// labeled pointer operand is bridged to the expected shape.
pub open spec fn visit_operand_desc_spec(
    c: AnalysisCtxtView,
    op: OperandView,
    expect: crate::shape::TypeDescView,
    path: Seq<SubLoc>,
) -> (Seq<MirRewriteView>, SuppressReasons) {
    match crate::ir::operand_place_view(op) {
        Some(pl) => {
            let ops1 = visit_place_spec(c, pl, PlaceAccess::Move, path);
            match type_of_place_spec(c, pl) {
                Some(ptr_lty) => if ptr_lty.label is Some {
                    let co = cast_out(cast_lty_desc_spec(c, ptr_lty, expect), path);
                    (ops1 + co.0, co.1)
                } else {
                    (ops1, SuppressReasons::spec_empty())
                },
                None => (ops1, SuppressReasons::spec_empty()),
            }
        },
        None => (Seq::empty(), SuppressReasons::spec_empty()),
    }
}

/// Visit an operand against an expected shape rather than a labeled type.
pub fn visit_operand_desc(
    c: &AnalysisCtxt,
    op: &Operand,
    expect: &TypeDesc,
    path: &Vec<SubLoc>,
    out: &mut Vec<MirRewrite>,
    errs: &mut SuppressReasons,
)
    ensures
        rewrites_view(final(out)@) == rewrites_view(old(out)@) + visit_operand_desc_spec(
            c@,
            op@,
            expect@,
            path@,
        ).0,
        *final(errs) == old(errs).union(visit_operand_desc_spec(c@, op@, expect@, path@).1),
{
    let ghost base = rewrites_view(out@);
    match op.place() {
        Some(pl) => {
            visit_place(c, pl, PlaceAccess::Move, path, out);
            match c.type_of_place(pl) {
                Some(ptr_lty) => {
                    if ptr_lty.label.is_some() {
                        emit_cast_lty_desc(c, ptr_lty, expect, path, out, errs);
                        proof {
                            let co = cast_out(cast_lty_desc_spec(c@, ptr_lty@, expect@), path@);
                            assert(rewrites_view(out@) =~= base + (visit_place_spec(
                                c@,
                                pl@,
                                PlaceAccess::Move,
                                path@,
                            ) + co.0));
                        }
                        return ;
                    }
                },
                None => {},
            }
            proof {
                assert(*errs == errs.union(SuppressReasons::spec_empty()));
            }
        },
        None => {
            proof {
                assert(rewrites_view(out@) =~= base + Seq::<MirRewriteView>::empty());
                assert(*errs == errs.union(SuppressReasons::spec_empty()));
            }
        },
    }
}

/// The access a boolean mutability asks for.
pub open spec fn access_from_bool(mutbl: bool) -> PlaceAccess {
    if mutbl {
        PlaceAccess::Mut
    } else {
        PlaceAccess::Imm
    }
}

/// The rewrites visiting the first `k` operands of an aggregate emits.
pub open spec fn visit_agg_spec(
    c: AnalysisCtxtView,
    ops: Seq<OperandView>,
    k: int,
    path: Seq<SubLoc>,
) -> Seq<MirRewriteView>
    decreases k,
{
    if k <= 0 {
        Seq::empty()
    } else {
        visit_agg_spec(c, ops, k - 1, path) + visit_operand_spec(
            c,
            ops[k - 1],
            None,
            path.push(SubLoc::RvalueOperand((k - 1) as usize)),
        ).0
    }
}

/// The rewrites and suppression reasons visiting a value expression
/// emits; when an expected labeled type is given, the expression's value
/// is also bridged to it.
pub open spec fn visit_rvalue_spec(
    c: AnalysisCtxtView,
    rv: RvalueView,
    expect: Option<LTyView>,
    path: Seq<SubLoc>,
) -> (Seq<MirRewriteView>, SuppressReasons) {
    match rv {
        RvalueView::Use(op) => visit_operand_spec(
            c,
            op,
            expect,
            path.push(SubLoc::RvalueOperand(0)),
        ),
        RvalueView::Repeat(op) => visit_operand_spec(
            c,
            op,
            None,
            path.push(SubLoc::RvalueOperand(0)),
        ),
        RvalueView::Ref { kind, place } => {
            let mutbl = kind is Mut;
            let ops1 = visit_place_spec(
                c,
                place,
                access_from_bool(mutbl),
                path.push(SubLoc::RvaluePlace(0)),
            );
            let extra: Seq<MirRewriteView> = match expect {
                Some(e) => if is_nullable_spec(c, e.label) {
                    // A reference always produces a present pointer; wrap
                    // it when a nullable output is expected.
                    seq![MirRewriteView { kind: RewriteKindView::OptionSome, sub_loc: path }]
                } else {
                    Seq::empty()
                },
                None => Seq::empty(),
            };
            (ops1 + extra, SuppressReasons::spec_empty())
        },
        RvalueView::ThreadLocalRef => (Seq::empty(), SuppressReasons::spec_empty()),
        RvalueView::AddressOf { mutbl, place } => {
            let acc = match mutbl {
                Mutability::Not => PlaceAccess::Imm,
                Mutability::Mut => PlaceAccess::Mut,
            };
            let ops1 = visit_place_spec(c, place, acc, path.push(SubLoc::RvaluePlace(0)));
            let extra: Seq<MirRewriteView> = match expect {
                Some(e) => match type_of_place_spec(c, place) {
                    Some(pl_lty) => {
                        let desc = desc_of_spec(class_of_spec(c, e.label), pl_lty.ty);
                        let own_ops: Seq<MirRewriteView> = match desc.own {
                            crate::shape::Ownership::Cell => seq![
                                MirRewriteView {
                                    kind: RewriteKindView::RawToRef { mutbl: false },
                                    sub_loc: path,
                                },
                            ],
                            crate::shape::Ownership::Imm | crate::shape::Ownership::Mut => seq![
                                MirRewriteView {
                                    kind: RewriteKindView::RawToRef { mutbl: mutbl is Mut },
                                    sub_loc: path,
                                },
                            ],
                            _ => Seq::empty(),
                        };
                        let opt_ops: Seq<MirRewriteView> = if desc.option {
                            seq![
                                MirRewriteView {
                                    kind: RewriteKindView::OptionSome,
                                    sub_loc: path,
                                },
                            ]
                        } else {
                            Seq::empty()
                        };
                        own_ops + opt_ops
                    },
                    None => Seq::empty(),
                },
                None => Seq::empty(),
            };
            (ops1 + extra, SuppressReasons::spec_empty())
        },
        RvalueView::Len(pl) => (
            visit_place_spec(c, pl, PlaceAccess::Imm, path.push(SubLoc::RvaluePlace(0))),
            SuppressReasons::spec_empty(),
        ),
        RvalueView::Cast { op, ty } => {
            let zero_ops: Seq<MirRewriteView> = if (op matches OperandView::Constant { zero }
                && zero) && ty is RawPtr && (expect matches Some(e) && is_nullable_spec(
                c,
                e.label,
            )) {
                seq![MirRewriteView { kind: RewriteKindView::ZeroAsPtrToNone, sub_loc: path }]
            } else {
                Seq::empty()
            };
            let (op_ops, op_errs) = visit_operand_spec(
                c,
                op,
                None,
                path.push(SubLoc::RvalueOperand(0)),
            );
            let remove_ops: Seq<MirRewriteView> = match expect {
                Some(e) => match type_of_operand_spec(c, op) {
                    Some(op_lty) => match (pointee_lty_spec(c, op_lty), pointee_lty_spec(c, e)) {
                        (Some(a), Some(b)) => if a == b {
                            let op_desc = desc_of_spec(class_of_spec(c, op_lty.label), a.ty);
                            let rv_desc = desc_of_spec(class_of_spec(c, e.label), a.ty);
                            if op_desc == rv_desc {
                                // After rewriting, input and output types
                                // of the cast agree: the cast can go.
                                seq![
                                    MirRewriteView {
                                        kind: RewriteKindView::RemoveCast,
                                        sub_loc: path,
                                    },
                                ]
                            } else {
                                Seq::empty()
                            }
                        } else {
                            Seq::empty()
                        },
                        _ => Seq::empty(),
                    },
                    None => Seq::empty(),
                },
                None => Seq::empty(),
            };
            (zero_ops + op_ops + remove_ops, op_errs)
        },
        RvalueView::BinaryOp(a, b) => {
            let (ops1, _) = visit_operand_spec(c, a, None, path.push(SubLoc::RvalueOperand(0)));
            let (ops2, _) = visit_operand_spec(c, b, None, path.push(SubLoc::RvalueOperand(1)));
            (ops1 + ops2, SuppressReasons::spec_empty())
        },
        RvalueView::CheckedBinaryOp(a, b) => {
            let (ops1, _) = visit_operand_spec(c, a, None, path.push(SubLoc::RvalueOperand(0)));
            let (ops2, _) = visit_operand_spec(c, b, None, path.push(SubLoc::RvalueOperand(1)));
            (ops1 + ops2, SuppressReasons::spec_empty())
        },
        RvalueView::NullaryOp => (Seq::empty(), SuppressReasons::spec_empty()),
        RvalueView::UnaryOp(op) => {
            let (ops1, _) = visit_operand_spec(c, op, None, path.push(SubLoc::RvalueOperand(0)));
            (ops1, SuppressReasons::spec_empty())
        },
        RvalueView::Discriminant(pl) => (
            visit_place_spec(c, pl, PlaceAccess::Imm, path.push(SubLoc::RvaluePlace(0))),
            SuppressReasons::spec_empty(),
        ),
        RvalueView::Aggregate(ops) => (
            visit_agg_spec(c, ops, ops.len() as int, path),
            SuppressReasons::spec_empty(),
        ),
        RvalueView::ShallowInitBox(op) => {
            let (ops1, _) = visit_operand_spec(c, op, None, path.push(SubLoc::RvalueOperand(0)));
            (ops1, SuppressReasons::spec_empty())
        },
        RvalueView::CopyForDeref(pl) => (
            visit_place_spec(c, pl, PlaceAccess::Imm, path.push(SubLoc::RvaluePlace(0))),
            SuppressReasons::spec_empty(),
        ),
    }
}

/// Visit a raw-borrow expression, bridging its result to the expected
/// labeled type if one is given.
#[verifier::rlimit(100)]
#[verifier::spinoff_prover]
fn visit_rv_address_of(
    c: &AnalysisCtxt,
    mutbl: Mutability,
    place: &Place,
    expect: Option<&LTy>,
    path: &Vec<SubLoc>,
    out: &mut Vec<MirRewrite>,
)
    ensures
        rewrites_view(final(out)@) == rewrites_view(old(out)@) + visit_rvalue_spec(
            c@,
            RvalueView::AddressOf { mutbl, place: place@ },
            opt_lty_view(expect),
            path@,
        ).0,
{
    let ghost base = rewrites_view(out@);
    let ghost rvv = RvalueView::AddressOf { mutbl, place: place@ };
    let sub = path_push(path, SubLoc::RvaluePlace(0));
    visit_place(c, place, PlaceAccess::from_mutbl(mutbl), &sub, out);
    let ghost acc = match mutbl {
        Mutability::Not => PlaceAccess::Imm,
        Mutability::Mut => PlaceAccess::Mut,
    };
    let ghost ops1 = visit_place_spec(c@, place@, acc, sub@);
    if let Some(e) = expect {
        match c.type_of_place(place) {
            Some(pl_lty) => {
                let desc = c.desc_with_pointee(&e.label, &pl_lty.ty);
                match desc.own {
                    crate::shape::Ownership::Cell => {
                        emit(out, path, RewriteKind::RawToRef { mutbl: false });
                    },
                    crate::shape::Ownership::Imm | crate::shape::Ownership::Mut => {
                        let m = match mutbl {
                            Mutability::Mut => true,
                            Mutability::Not => false,
                        };
                        emit(out, path, RewriteKind::RawToRef { mutbl: m });
                    },
                    _ => {},
                }
                if desc.option {
                    emit(out, path, RewriteKind::OptionSome);
                }
                proof {
                    assert(rewrites_view(out@) =~= base + visit_rvalue_spec(
                        c@,
                        rvv,
                        opt_lty_view(expect),
                        path@,
                    ).0);
                }
                return ;
            },
            None => {
                proof {
                    assert(rewrites_view(out@) =~= base + (ops1
                        + Seq::<MirRewriteView>::empty()));
                }
                return ;
            },
        }
    }
    proof {
        assert(rewrites_view(out@) =~= base + (ops1 + Seq::<MirRewriteView>::empty()));
    }
}

/// Visit a cast expression: a zero-as-null-pointer cast becomes the
/// absence idiom for a nullable target, and a cast whose sides will have
/// identical rewritten shapes is removed.
#[verifier::rlimit(100)]
#[verifier::spinoff_prover]
fn visit_rv_cast(
    c: &AnalysisCtxt,
    op: &Operand,
    ty: &crate::ty::Ty,
    expect: Option<&LTy>,
    path: &Vec<SubLoc>,
    out: &mut Vec<MirRewrite>,
    errs: &mut SuppressReasons,
)
    ensures
        rewrites_view(final(out)@) == rewrites_view(old(out)@) + visit_rvalue_spec(
            c@,
            RvalueView::Cast { op: op@, ty: crate::ty::ty_view(*ty) },
            opt_lty_view(expect),
            path@,
        ).0,
        *final(errs) == old(errs).union(
            visit_rvalue_spec(
                c@,
                RvalueView::Cast { op: op@, ty: crate::ty::ty_view(*ty) },
                opt_lty_view(expect),
                path@,
            ).1,
        ),
{
    let ghost base = rewrites_view(out@);
    let ghost e0 = *errs;
    let ghost rvv = RvalueView::Cast { op: op@, ty: crate::ty::ty_view(*ty) };
    if op.is_null_const() && ty.is_raw_ptr() {
        if let Some(e) = expect {
            if c.is_nullable(&e.label) {
                emit(out, path, RewriteKind::ZeroAsPtrToNone);
            }
        }
    }
    let sub = path_push(path, SubLoc::RvalueOperand(0));
    visit_operand(c, op, None, &sub, out, errs);
    proof {
        assert(*errs == e0.union(visit_operand_spec(c@, op@, None, sub@).1));
    }
    if let Some(e) = expect {
        match c.type_of_operand(op) {
            Some(op_lty) => {
                match (c.pointee_lty(op_lty), c.pointee_lty(e)) {
                    (Some(a), Some(b)) => {
                        if lty_eq(a, b) {
                            let op_desc = c.desc_with_pointee(&op_lty.label, &a.ty);
                            let rv_desc = c.desc_with_pointee(&e.label, &a.ty);
                            if desc_eq(&op_desc, &rv_desc) {
                                emit(out, path, RewriteKind::RemoveCast);
                            }
                        }
                    },
                    _ => {},
                }
            },
            None => {},
        }
    }
    proof {
        assert(rewrites_view(out@) =~= base + visit_rvalue_spec(
            c@,
            rvv,
            opt_lty_view(expect),
            path@,
        ).0);
    }
}

/// Visit a value expression.  A visit with an expected type may fail a
/// cast; a visit without one emits rewrites only.
#[verifier::rlimit(100)]
#[verifier::spinoff_prover]
pub fn visit_rvalue(
    c: &AnalysisCtxt,
    rv: &Rvalue,
    expect: Option<&LTy>,
    path: &Vec<SubLoc>,
    out: &mut Vec<MirRewrite>,
    errs: &mut SuppressReasons,
)
    ensures
        rewrites_view(final(out)@) == rewrites_view(old(out)@) + visit_rvalue_spec(
            c@,
            rv@,
            opt_lty_view(expect),
            path@,
        ).0,
        *final(errs) == old(errs).union(
            visit_rvalue_spec(c@, rv@, opt_lty_view(expect), path@).1,
        ),
{
    let ghost base = rewrites_view(out@);
    let ghost e0 = *errs;
    match rv {
        Rvalue::Use(op) => {
            let sub = path_push(path, SubLoc::RvalueOperand(0));
            visit_operand(c, op, expect, &sub, out, errs);
        },
        Rvalue::Repeat(op) => {
            let sub = path_push(path, SubLoc::RvalueOperand(0));
            visit_operand(c, op, None, &sub, out, errs);
            proof {
                assert(*errs == e0.union(SuppressReasons::spec_empty()));
            }
        },
        Rvalue::Ref { kind, place } => {
            let mutbl = match kind {
                BorrowKind::Mut => true,
                _ => false,
            };
            let sub = path_push(path, SubLoc::RvaluePlace(0));
            visit_place(c, place, PlaceAccess::from_bool(mutbl), &sub, out);
            let ghost ops1 = visit_place_spec(c@, place@, access_from_bool(mutbl), sub@);
            if let Some(e) = expect {
                if c.is_nullable(&e.label) {
                    emit(out, path, RewriteKind::OptionSome);
                    proof {
                        assert(rewrites_view(out@) =~= base + (ops1 + seq![
                            MirRewriteView { kind: RewriteKindView::OptionSome, sub_loc: path@ },
                        ]));
                    }
                    return ;
                }
            }
            proof {
                assert(rewrites_view(out@) =~= base + (ops1 + Seq::<MirRewriteView>::empty()));
            }
        },
        Rvalue::ThreadLocalRef => {
            proof {
                assert(rewrites_view(out@) =~= base + Seq::<MirRewriteView>::empty());
            }
        },
        Rvalue::AddressOf { mutbl, place } => {
            visit_rv_address_of(c, *mutbl, place, expect, path, out);
        },
        Rvalue::Len(pl) => {
            let sub = path_push(path, SubLoc::RvaluePlace(0));
            visit_place(c, pl, PlaceAccess::Imm, &sub, out);
        },
        Rvalue::Cast { op, ty } => {
            visit_rv_cast(c, op, ty, expect, path, out, errs);
        },
        Rvalue::BinaryOp(a, b) => {
            let sub0 = path_push(path, SubLoc::RvalueOperand(0));
            visit_operand(c, a, None, &sub0, out, errs);
            let sub1 = path_push(path, SubLoc::RvalueOperand(1));
            visit_operand(c, b, None, &sub1, out, errs);
            proof {
                assert(rewrites_view(out@) =~= base + (visit_operand_spec(
                    c@,
                    a@,
                    None,
                    sub0@,
                ).0 + visit_operand_spec(c@, b@, None, sub1@).0));
                assert(*errs == e0.union(SuppressReasons::spec_empty()));
            }
        },
        Rvalue::CheckedBinaryOp(a, b) => {
            let sub0 = path_push(path, SubLoc::RvalueOperand(0));
            visit_operand(c, a, None, &sub0, out, errs);
            let sub1 = path_push(path, SubLoc::RvalueOperand(1));
            visit_operand(c, b, None, &sub1, out, errs);
            proof {
                assert(rewrites_view(out@) =~= base + (visit_operand_spec(
                    c@,
                    a@,
                    None,
                    sub0@,
                ).0 + visit_operand_spec(c@, b@, None, sub1@).0));
                assert(*errs == e0.union(SuppressReasons::spec_empty()));
            }
        },
        Rvalue::NullaryOp => {
            proof {
                assert(rewrites_view(out@) =~= base + Seq::<MirRewriteView>::empty());
            }
        },
        Rvalue::UnaryOp(op) => {
            let sub = path_push(path, SubLoc::RvalueOperand(0));
            visit_operand(c, op, None, &sub, out, errs);
            proof {
                assert(*errs == e0.union(SuppressReasons::spec_empty()));
            }
        },
        Rvalue::Discriminant(pl) => {
            let sub = path_push(path, SubLoc::RvaluePlace(0));
            visit_place(c, pl, PlaceAccess::Imm, &sub, out);
        },
        Rvalue::Aggregate(ops) => {
            proof {
                lemma_operands_view(ops@);
            }
            let n: usize = ops.len();
            let mut i: usize = 0;
            while i < n
                invariant
                    0 <= i <= n,
                    n == ops@.len(),
                    rewrites_view(out@) == base + visit_agg_spec(
                        c@,
                        operands_view(ops@),
                        i as int,
                        path@,
                    ),
                    *errs == e0,
                decreases n - i,
            {
                let sub = path_push(path, SubLoc::RvalueOperand(i));
                visit_operand(c, &ops[i], None, &sub, out, errs);
                proof {
                    lemma_operands_view(ops@);
                    assert(rewrites_view(out@) =~= base + visit_agg_spec(
                        c@,
                        operands_view(ops@),
                        i + 1 as int,
                        path@,
                    ));
                    assert(*errs =~= e0);
                }
                i = i + 1;
            }
            proof {
                assert(*errs == e0.union(SuppressReasons::spec_empty()));
            }
        },
        Rvalue::ShallowInitBox(op) => {
            let sub = path_push(path, SubLoc::RvalueOperand(0));
            visit_operand(c, op, None, &sub, out, errs);
            proof {
                assert(*errs == e0.union(SuppressReasons::spec_empty()));
            }
        },
        Rvalue::CopyForDeref(pl) => {
            let sub = path_push(path, SubLoc::RvaluePlace(0));
            visit_place(c, pl, PlaceAccess::Imm, &sub, out);
        },
    }
}

/// Whether a place goes through a dereference.
pub open spec fn place_is_indirect_spec(pl: PlaceView) -> bool {
    exists|i: int| 0 <= i < pl.projection.len() && pl.projection[i] == PlaceElem::Deref
}

/// Whether a place goes through a dereference.
#[verifier::loop_isolation(false)]
pub fn place_is_indirect(pl: &Place) -> (r: bool)
    ensures
        r == place_is_indirect_spec(pl@),
{
    let n: usize = pl.projection.len();
    let mut i: usize = 0;
    while i < n
        invariant
            0 <= i <= n,
            forall|j: int| 0 <= j < i ==> pl@.projection[j] != PlaceElem::Deref,
        decreases n - i,
    {
        if let PlaceElem::Deref = pl.projection[i] {
            return true;
        }
        i = i + 1;
    }
    false
}

/// The shape a pointer-offset call expects of its argument, given the
/// shape its result must have: a single result widens to a bounded run —
/// the offset happens within the run — and the other axes carry over.
pub open spec fn offset_arg_desc(result_desc: crate::shape::TypeDescView) -> crate::shape::TypeDescView {
    crate::shape::TypeDescView {
        own: result_desc.own,
        qty: match result_desc.qty {
            crate::shape::Quantity::OffsetPtr => crate::shape::Quantity::OffsetPtr,
            _ => crate::shape::Quantity::Slice,
        },
        dyn_owned: result_desc.dyn_owned,
        option: result_desc.option,
        pointee_ty: result_desc.pointee_ty,
    }
}

/// The rewrites and suppression reasons a pointer-offset call emits: the
/// argument is visited under the expected shape computed from the
/// result's shape, a bounds-respecting re-slice — under the
/// absence-of-value map when the result may be absent — replaces the
/// offset, and the re-slice's output shape is bridged to the result's.
pub open spec fn visit_ptr_offset_spec(
    c: AnalysisCtxtView,
    op: OperandView,
    result_lty: LTyView,
    path: Seq<SubLoc>,
) -> (Seq<MirRewriteView>, SuppressReasons) {
    let result_desc = crate::ctx::lty_to_desc_spec(c, result_lty);
    let arg_desc = offset_arg_desc(result_desc);
    let rv = path.push(SubLoc::Rvalue);
    let (ops1, errs1) = visit_operand_desc_spec(c, op, arg_desc, rv.push(SubLoc::CallArg(0)));
    let mutbl = result_desc.own is Mut;
    let off = seq![
        MirRewriteView {
            kind: if result_desc.option {
                RewriteKindView::OptionMapOffsetSlice { mutbl }
            } else {
                RewriteKindView::OffsetSlice { mutbl }
            },
            sub_loc: rv,
        },
    ];
    let co = cast_out(synth_cast(arg_desc, result_desc), rv);
    (ops1 + off + co.0, errs1.union(co.1))
}

/// Visit a pointer-offset call.
#[verifier::rlimit(100)]
#[verifier::spinoff_prover]
pub fn visit_ptr_offset(
    c: &AnalysisCtxt,
    op: &Operand,
    result_lty: &LTy,
    path: &Vec<SubLoc>,
    out: &mut Vec<MirRewrite>,
    errs: &mut SuppressReasons,
)
    ensures
        rewrites_view(final(out)@) == rewrites_view(old(out)@) + visit_ptr_offset_spec(
            c@,
            op@,
            result_lty@,
            path@,
        ).0,
        *final(errs) == old(errs).union(visit_ptr_offset_spec(c@, op@, result_lty@, path@).1),
{
    let ghost base = rewrites_view(out@);
    let ghost e0 = *errs;
    let result_desc = c.lty_to_desc(result_lty);
    let arg_desc = TypeDesc {
        own: result_desc.own,
        qty: match result_desc.qty {
            crate::shape::Quantity::OffsetPtr => crate::shape::Quantity::OffsetPtr,
            _ => crate::shape::Quantity::Slice,
        },
        dyn_owned: result_desc.dyn_owned,
        option: result_desc.option,
        pointee_ty: crate::ty::ty_clone(&result_desc.pointee_ty),
    };
    proof {
        assert(arg_desc@ =~= offset_arg_desc(crate::ctx::lty_to_desc_spec(c@, result_lty@)));
    }
    let rv = path_push(path, SubLoc::Rvalue);
    let arg_path = path_push(&rv, SubLoc::CallArg(0));
    visit_operand_desc(c, op, &arg_desc, &arg_path, out, errs);
    let mutbl = match result_desc.own {
        crate::shape::Ownership::Mut => true,
        _ => false,
    };
    if !result_desc.option {
        emit(out, &rv, RewriteKind::OffsetSlice { mutbl });
    } else {
        emit(out, &rv, RewriteKind::OptionMapOffsetSlice { mutbl });
    }
    emit_cast_desc_desc(&arg_desc, &result_desc, &rv, out, errs);
    proof {
        assert(rewrites_view(out@) =~= base + visit_ptr_offset_spec(
            c@,
            op@,
            result_lty@,
            path@,
        ).0);
        assert(*errs =~= e0.union(visit_ptr_offset_spec(c@, op@, result_lty@, path@).1));
    }
}

/// The rewrites and suppression reasons a decay-to-pointer call emits:
/// the call is removed and a direct cast bridges the argument's shape to
/// the result's, both over the decayed element type.
pub open spec fn visit_slice_as_ptr_spec(
    c: AnalysisCtxtView,
    elem_ty: crate::ty::TyView,
    op: OperandView,
    result_lty: LTyView,
    path: Seq<SubLoc>,
) -> (Seq<MirRewriteView>, SuppressReasons) {
    match type_of_operand_spec(c, op) {
        Some(op_lty) => {
            let op_desc = desc_of_spec(class_of_spec(c, op_lty.label), elem_ty);
            let result_desc = desc_of_spec(class_of_spec(c, result_lty.label), elem_ty);
            let rv = path.push(SubLoc::Rvalue);
            let rm = seq![MirRewriteView { kind: RewriteKindView::RemoveAsPtr, sub_loc: rv }];
            let co = cast_out(synth_cast(op_desc, result_desc), rv);
            (rm + co.0, co.1)
        },
        None => (Seq::empty(), SuppressReasons::spec_empty()),
    }
}

/// Visit a decay-to-pointer call.
pub fn visit_slice_as_ptr(
    c: &AnalysisCtxt,
    elem_ty: &crate::ty::Ty,
    op: &Operand,
    result_lty: &LTy,
    path: &Vec<SubLoc>,
    out: &mut Vec<MirRewrite>,
    errs: &mut SuppressReasons,
)
    ensures
        rewrites_view(final(out)@) == rewrites_view(old(out)@) + visit_slice_as_ptr_spec(
            c@,
            crate::ty::ty_view(*elem_ty),
            op@,
            result_lty@,
            path@,
        ).0,
        *final(errs) == old(errs).union(
            visit_slice_as_ptr_spec(c@, crate::ty::ty_view(*elem_ty), op@, result_lty@, path@).1,
        ),
{
    let ghost base = rewrites_view(out@);
    let ghost e0 = *errs;
    match c.type_of_operand(op) {
        Some(op_lty) => {
            let op_desc = c.desc_with_pointee(&op_lty.label, elem_ty);
            let result_desc = c.desc_with_pointee(&result_lty.label, elem_ty);
            let rv = path_push(path, SubLoc::Rvalue);
            emit(out, &rv, RewriteKind::RemoveAsPtr);
            emit_cast_desc_desc(&op_desc, &result_desc, &rv, out, errs);
            proof {
                assert(rewrites_view(out@) =~= base + visit_slice_as_ptr_spec(
                    c@,
                    crate::ty::ty_view(*elem_ty),
                    op@,
                    result_lty@,
                    path@,
                ).0);
                assert(*errs =~= e0.union(
                    visit_slice_as_ptr_spec(
                        c@,
                        crate::ty::ty_view(*elem_ty),
                        op@,
                        result_lty@,
                        path@,
                    ).1,
                ));
            }
        },
        None => {
            proof {
                assert(rewrites_view(out@) =~= base + Seq::<MirRewriteView>::empty());
                assert(*errs == e0.union(SuppressReasons::spec_empty()));
            }
        },
    }
}

/// The pointer identity standing for the address of a local, if the
/// tables cover it.
pub open spec fn addr_label_spec(c: AnalysisCtxtView, local: usize) -> Option<u32> {
    if local < c.addr_of_local.len() {
        c.addr_of_local[local as int]
    } else {
        None
    }
}

/// Whether a classification allows no offsetting, so the pointer refers
/// to a single value.
pub open spec fn class_single(cls: crate::ctx::PtrClass) -> bool {
    !cls.offset_add && !cls.offset_sub
}

/// The cell-write rewrite of an assignment: writing through a destination
/// reached through a pointer classified shared-mutable-cell becomes a
/// cell write — unless the access goes through more than one projection
/// level or the multiplicity is not single, in which case the
/// complex-cell reason is recorded and the rewrite is skipped.
pub open spec fn stmt_cell_set_spec(c: AnalysisCtxtView, pl: PlaceView, path: Seq<SubLoc>) -> (
    Seq<MirRewriteView>,
    SuppressReasons,
) {
    if place_is_indirect_spec(pl) && pl.local < c.local_tys.len() && crate::ty::spec_is_any_ptr(
        c.local_tys[pl.local as int].ty,
    ) {
        let cls = class_of_spec(c, c.local_tys[pl.local as int].label);
        if !cls.fixed && cls.own is Cell {
            if pl.projection.len() > 1 || !class_single(cls) {
                (Seq::empty(), spec_complex_cell())
            } else {
                (
                    seq![MirRewriteView { kind: RewriteKindView::CellSet, sub_loc: path }],
                    SuppressReasons::spec_empty(),
                )
            }
        } else {
            (Seq::empty(), SuppressReasons::spec_empty())
        }
    } else {
        (Seq::empty(), SuppressReasons::spec_empty())
    }
}

/// The cell rewrites of an assignment whose value side is a plain use:
/// a destination local classified shared-mutable-cell wraps the value in
/// a fresh cell, and a source read through a cell-classified pointer
/// becomes a cell read; a pattern too complex records the complex-cell
/// reason instead of its rewrite.
pub open spec fn stmt_cell_use_spec(
    c: AnalysisCtxtView,
    pl: PlaceView,
    rv: RvalueView,
    path: Seq<SubLoc>,
) -> (Seq<MirRewriteView>, SuppressReasons) {
    match rv {
        RvalueView::Use(rv_op) => {
            let cls_a = class_of_spec(c, addr_label_spec(c, pl.local));
            let (new_ops, new_errs): (Seq<MirRewriteView>, SuppressReasons) = if cls_a.own
                is Cell {
                if pl.projection.len() > 0 || !class_single(cls_a) {
                    (Seq::empty(), spec_complex_cell())
                } else {
                    (
                        seq![
                            MirRewriteView {
                                kind: RewriteKindView::CellNew,
                                sub_loc: path.push(SubLoc::Rvalue),
                            },
                        ],
                        SuppressReasons::spec_empty(),
                    )
                }
            } else {
                (Seq::empty(), SuppressReasons::spec_empty())
            };
            let (get_ops, get_errs): (Seq<MirRewriteView>, SuppressReasons) = match
                crate::ir::operand_place_view(rv_op) {
                Some(rv_pl) => if place_is_indirect_spec(rv_pl) && rv_pl.local
                    < c.local_tys.len() && crate::ty::spec_is_any_ptr(
                    c.local_tys[rv_pl.local as int].ty,
                ) {
                    let cls_g = class_of_spec(c, c.local_tys[rv_pl.local as int].label);
                    if !cls_g.fixed && cls_g.own is Cell {
                        if pl.projection.len() > 1 || !class_single(cls_a) {
                            (Seq::empty(), spec_complex_cell())
                        } else {
                            (
                                seq![
                                    MirRewriteView {
                                        kind: RewriteKindView::CellGet,
                                        sub_loc: path.push(SubLoc::Rvalue),
                                    },
                                ],
                                SuppressReasons::spec_empty(),
                            )
                        }
                    } else {
                        (Seq::empty(), SuppressReasons::spec_empty())
                    }
                } else {
                    (Seq::empty(), SuppressReasons::spec_empty())
                },
                None => (Seq::empty(), SuppressReasons::spec_empty()),
            };
            (new_ops + get_ops, new_errs.union(get_errs))
        },
        _ => (Seq::empty(), SuppressReasons::spec_empty()),
    }
}

/// The source place of an assignment that transfers dynamic ownership: a
/// move of a dynamically-owned place into a dynamically-owned
/// destination.
pub open spec fn transfer_place_spec(
    c: AnalysisCtxtView,
    pl: PlaceView,
    rv: RvalueView,
) -> Option<PlaceView> {
    if type_of_place_spec(c, pl) matches Some(pt) && is_dyn_owned_spec(c, pt) {
        match rv {
            RvalueView::Use(op) => match crate::ir::operand_place_view(op) {
                Some(rv_pl) => match type_of_place_spec(c, rv_pl) {
                    Some(rt) => if is_dyn_owned_spec(c, rt) {
                        Some(rv_pl)
                    } else {
                        None
                    },
                    None => None,
                },
                None => None,
            },
            _ => None,
        }
    } else {
        None
    }
}

/// The rewrites and suppression reasons of an assignment's value side:
/// an ownership transfer takes the value out of the source; otherwise the
/// value expression is visited under the expected type and bridged to the
/// destination's.
pub open spec fn stmt_assign_value_spec(
    c: AnalysisCtxtView,
    pl: PlaceView,
    rv: RvalueView,
    rv_lty: LTyView,
    path: Seq<SubLoc>,
) -> (Seq<MirRewriteView>, SuppressReasons) {
    let pl_lty = type_of_place_spec(c, pl);
    let rv_path = path.push(SubLoc::Rvalue);
    match transfer_place_spec(c, pl, rv) {
        // Moving a dynamically-owned value into a dynamically-owned
        // slot: take the value out and leave a non-owning sentinel
        // behind, so no stale owning reference can release it again.
        Some(rv_pl) => {
            let ops_pl = visit_place_spec(
                c,
                rv_pl,
                PlaceAccess::Mut,
                rv_path.push(SubLoc::RvalueOperand(0)).push(SubLoc::OperandPlace),
            );
            let take = seq![
                MirRewriteView { kind: RewriteKindView::DynOwnedTake, sub_loc: rv_path },
            ];
            let co = cast_out(cast_lty_lty_spec(c, rv_lty, pl_lty->Some_0), rv_path);
            (ops_pl + take + co.0, co.1)
        },
        None => {
            let (ops_rv, errs_rv) = visit_rvalue_spec(c, rv, Some(rv_lty), rv_path);
            let co: (Seq<MirRewriteView>, SuppressReasons) = match pl_lty {
                Some(pt) => cast_out(cast_lty_lty_spec(c, rv_lty, pt), rv_path),
                None => (Seq::empty(), SuppressReasons::spec_empty()),
            };
            (ops_rv + co.0, errs_rv.union(co.1))
        },
    }
}

/// The rewrites and suppression reasons visiting one statement emits.
/// Only assignments are rewritten; storage markers and the like are
/// no-ops, and a statement kind outside the supported subset records the
/// unsupported-IR reason instead of stopping the walk.
pub open spec fn visit_statement_spec(
    c: AnalysisCtxtView,
    stmt: crate::ir::StatementKindView,
    path: Seq<SubLoc>,
) -> (Seq<MirRewriteView>, SuppressReasons) {
    match stmt {
        crate::ir::StatementKindView::Assign { place: pl, rvalue: rv, rv_lty } => {
            let (ops_a, errs_a) = stmt_cell_set_spec(c, pl, path);
            let (ops_b, errs_b) = stmt_cell_use_spec(c, pl, rv, path);
            let (ops_c, errs_c) = stmt_assign_value_spec(c, pl, rv, rv_lty, path);
            let ops_d = visit_place_spec(c, pl, PlaceAccess::Mut, path.push(SubLoc::Dest));
            (ops_a + ops_b + ops_c + ops_d, errs_a.union(errs_b).union(errs_c))
        },
        crate::ir::StatementKindView::SetDiscriminant => (Seq::empty(), spec_unsupported_ir()),
        crate::ir::StatementKindView::CopyNonOverlapping => (Seq::empty(), spec_unsupported_ir()),
        _ => (Seq::empty(), SuppressReasons::spec_empty()),
    }
}

/// Emit the cell-write rewrite of an assignment, if any.
fn stmt_cell_set(
    c: &AnalysisCtxt,
    pl: &Place,
    path: &Vec<SubLoc>,
    out: &mut Vec<MirRewrite>,
    errs: &mut SuppressReasons,
)
    ensures
        rewrites_view(final(out)@) == rewrites_view(old(out)@) + stmt_cell_set_spec(
            c@,
            pl@,
            path@,
        ).0,
        *final(errs) == old(errs).union(stmt_cell_set_spec(c@, pl@, path@).1),
{
    let ghost base = rewrites_view(out@);
    let ghost e0 = *errs;
    proof {
        crate::ty::lemma_ltys_view(c.local_tys@);
    }
    if place_is_indirect(pl) && pl.local < c.local_tys.len() && c.local_tys[
        pl.local
    ].ty.is_any_ptr() {
        let cls = c.class_of(&c.local_tys[pl.local].label);
        if !cls.fixed && matches!(cls.own, crate::shape::Ownership::Cell) {
            if pl.projection.len() > 1 || cls.offset_add || cls.offset_sub {
                errs.add(complex_cell());
            } else {
                emit(out, path, RewriteKind::CellSet);
            }
        }
    }
    proof {
        assert(rewrites_view(out@) =~= base + stmt_cell_set_spec(c@, pl@, path@).0);
        assert(*errs == e0.union(stmt_cell_set_spec(c@, pl@, path@).1));
    }
}

/// Emit the cell-new and cell-read rewrites of a plain-use assignment,
/// if any.
#[verifier::rlimit(100)]
#[verifier::spinoff_prover]
fn stmt_cell_use(
    c: &AnalysisCtxt,
    pl: &Place,
    rv: &Rvalue,
    path: &Vec<SubLoc>,
    out: &mut Vec<MirRewrite>,
    errs: &mut SuppressReasons,
)
    ensures
        rewrites_view(final(out)@) == rewrites_view(old(out)@) + stmt_cell_use_spec(
            c@,
            pl@,
            rv@,
            path@,
        ).0,
        *final(errs) == old(errs).union(stmt_cell_use_spec(c@, pl@, rv@, path@).1),
{
    let ghost base = rewrites_view(out@);
    let ghost e0 = *errs;
    proof {
        crate::ty::lemma_ltys_view(c.local_tys@);
    }
    let rv_path = path_push(path, SubLoc::Rvalue);
    if let Rvalue::Use(rv_op) = rv {
        let addr_label: Option<u32> = if pl.local < c.addr_of_local.len() {
            c.addr_of_local[pl.local]
        } else {
            None
        };
        let cls_a = c.class_of(&addr_label);
        if matches!(cls_a.own, crate::shape::Ownership::Cell) {
            if pl.projection.len() > 0 || cls_a.offset_add || cls_a.offset_sub {
                errs.add(complex_cell());
            } else {
                emit(out, &rv_path, RewriteKind::CellNew);
            }
        }
        if let Some(rv_pl) = rv_op.place() {
            if place_is_indirect(rv_pl) && rv_pl.local < c.local_tys.len() && c.local_tys[
                rv_pl.local
            ].ty.is_any_ptr() {
                let cls_g = c.class_of(&c.local_tys[rv_pl.local].label);
                if !cls_g.fixed && matches!(cls_g.own, crate::shape::Ownership::Cell) {
                    if pl.projection.len() > 1 || cls_a.offset_add || cls_a.offset_sub {
                        errs.add(complex_cell());
                    } else {
                        emit(out, &rv_path, RewriteKind::CellGet);
                    }
                }
            }
        }
    }
    proof {
        assert(rewrites_view(out@) =~= base + stmt_cell_use_spec(c@, pl@, rv@, path@).0);
        assert(*errs == e0.union(stmt_cell_use_spec(c@, pl@, rv@, path@).1));
    }
}

/// Decide whether an assignment transfers dynamic ownership, and of
/// which source place.
fn transfer_place<'a>(c: &AnalysisCtxt, pl: &Place, rv: &'a Rvalue) -> (r: Option<&'a Place>)
    ensures
        match r {
            Some(rv_pl) => transfer_place_spec(c@, pl@, rv@) == Some(rv_pl@),
            None => transfer_place_spec(c@, pl@, rv@) is None,
        },
{
    match c.type_of_place(pl) {
        Some(pt) => {
            if c.is_dyn_owned(pt) {
                if let Rvalue::Use(op) = rv {
                    if let Some(rv_pl) = op.place() {
                        match c.type_of_place(rv_pl) {
                            Some(rt) => {
                                if c.is_dyn_owned(rt) {
                                    return Some(rv_pl);
                                }
                            },
                            None => {},
                        }
                    }
                }
            }
            None
        },
        None => None,
    }
}

/// Visit an assignment.
#[verifier::rlimit(100)]
#[verifier::spinoff_prover]
fn visit_assign(
    c: &AnalysisCtxt,
    pl: &Place,
    rv: &Rvalue,
    rv_lty: &LTy,
    path: &Vec<SubLoc>,
    out: &mut Vec<MirRewrite>,
    errs: &mut SuppressReasons,
)
    ensures
        rewrites_view(final(out)@) == rewrites_view(old(out)@) + (stmt_cell_set_spec(
            c@,
            pl@,
            path@,
        ).0 + stmt_cell_use_spec(c@, pl@, rv@, path@).0 + stmt_assign_value_spec(
            c@,
            pl@,
            rv@,
            rv_lty@,
            path@,
        ).0 + visit_place_spec(c@, pl@, PlaceAccess::Mut, path@.push(SubLoc::Dest))),
        *final(errs) == old(errs).union(stmt_cell_set_spec(c@, pl@, path@).1).union(
            stmt_cell_use_spec(c@, pl@, rv@, path@).1,
        ).union(stmt_assign_value_spec(c@, pl@, rv@, rv_lty@, path@).1),
{
    let ghost base = rewrites_view(out@);
    let ghost e0 = *errs;
    stmt_cell_set(c, pl, path, out, errs);
    stmt_cell_use(c, pl, rv, path, out, errs);
    let ghost base_c = rewrites_view(out@);
    let ghost e_b = *errs;

    let rv_path = path_push(path, SubLoc::Rvalue);
    match transfer_place(c, pl, rv) {
        Some(rv_pl) => {
            // Take the value out of the source and bridge the source's
            // shape to the destination's.
            let op_path = path_push(&rv_path, SubLoc::RvalueOperand(0));
            let pl_path = path_push(&op_path, SubLoc::OperandPlace);
            visit_place(c, rv_pl, PlaceAccess::Mut, &pl_path, out);
            emit(out, &rv_path, RewriteKind::DynOwnedTake);
            match c.type_of_place(pl) {
                Some(pt) => {
                    emit_cast_lty_lty(c, rv_lty, pt, &rv_path, out, errs);
                },
                None => {},
            }
        },
        None => {
            visit_rvalue(c, rv, Some(rv_lty), &rv_path, out, errs);
            match c.type_of_place(pl) {
                Some(pt) => {
                    emit_cast_lty_lty(c, rv_lty, pt, &rv_path, out, errs);
                },
                None => {},
            }
        },
    }
    proof {
        assert(rewrites_view(out@) =~= base_c + stmt_assign_value_spec(
            c@,
            pl@,
            rv@,
            rv_lty@,
            path@,
        ).0);
        assert(*errs == e_b.union(stmt_assign_value_spec(c@, pl@, rv@, rv_lty@, path@).1));
    }

    // Finally visit the destination itself, mutably.
    let dest_path = path_push(path, SubLoc::Dest);
    visit_place(c, pl, PlaceAccess::Mut, &dest_path, out);
    proof {
        assert(rewrites_view(out@) =~= base + (stmt_cell_set_spec(c@, pl@, path@).0
            + stmt_cell_use_spec(c@, pl@, rv@, path@).0 + stmt_assign_value_spec(
            c@,
            pl@,
            rv@,
            rv_lty@,
            path@,
        ).0 + visit_place_spec(c@, pl@, PlaceAccess::Mut, path@.push(SubLoc::Dest))));
    }
}

/// Visit one statement.
pub fn visit_statement(
    c: &AnalysisCtxt,
    stmt: &crate::ir::StatementKind,
    path: &Vec<SubLoc>,
    out: &mut Vec<MirRewrite>,
    errs: &mut SuppressReasons,
)
    ensures
        rewrites_view(final(out)@) == rewrites_view(old(out)@) + visit_statement_spec(
            c@,
            stmt@,
            path@,
        ).0,
        *final(errs) == old(errs).union(visit_statement_spec(c@, stmt@, path@).1),
{
    let ghost base = rewrites_view(out@);
    let ghost e0 = *errs;
    match stmt {
        crate::ir::StatementKind::Assign { place: pl, rvalue: rv, rv_lty } => {
            visit_assign(c, pl, rv, rv_lty, path, out, errs);
        },
        crate::ir::StatementKind::SetDiscriminant => {
            errs.add(unsupported_ir());
            proof {
                assert(rewrites_view(out@) =~= base + Seq::<MirRewriteView>::empty());
            }
        },
        crate::ir::StatementKind::CopyNonOverlapping => {
            errs.add(unsupported_ir());
            proof {
                assert(rewrites_view(out@) =~= base + Seq::<MirRewriteView>::empty());
            }
        },
        _ => {
            proof {
                assert(rewrites_view(out@) =~= base + Seq::<MirRewriteView>::empty());
                assert(*errs == e0.union(SuppressReasons::spec_empty()));
            }
        },
    }
}

/// The rewrites and suppression reasons visiting the first `k` arguments
/// of a call to an analyzed function emits: each argument with a declared
/// expected shape is visited under it; the variadic tail beyond the
/// declared arity passes through unchanged.
pub open spec fn visit_args_spec(
    c: AnalysisCtxtView,
    args: Seq<OperandView>,
    inputs: Seq<LTyView>,
    k: int,
    rv_path: Seq<SubLoc>,
) -> (Seq<MirRewriteView>, SuppressReasons)
    decreases k,
{
    if k <= 0 {
        (Seq::empty(), SuppressReasons::spec_empty())
    } else {
        let (prev, pe) = visit_args_spec(c, args, inputs, k - 1, rv_path);
        if k - 1 < inputs.len() {
            let (ops, errs) = visit_operand_spec(
                c,
                args[k - 1],
                Some(inputs[k - 1]),
                rv_path.push(SubLoc::CallArg((k - 1) as usize)),
            );
            (prev + ops, pe.union(errs))
        } else {
            (prev, pe)
        }
    }
}

/// A call to an analyzed function: each declared argument is visited
/// under its declared shape, and the declared return shape is bridged to
/// the result's required shape when the result is a labeled pointer.
pub open spec fn call_local_def_spec(
    c: AnalysisCtxtView,
    def_id: u64,
    args: Seq<OperandView>,
    pl_lty: Option<LTyView>,
    path: Seq<SubLoc>,
) -> (Seq<MirRewriteView>, SuppressReasons) {
    match crate::ctx::fn_sig_spec(c, def_id) {
        Some(sig) => {
            let rv = path.push(SubLoc::Rvalue);
            let (a_ops, a_errs) = visit_args_spec(c, args, sig.inputs, args.len() as int, rv);
            let (c_ops, c_errs): (Seq<MirRewriteView>, SuppressReasons) = match pl_lty {
                Some(pt) => if pt.label is Some {
                    cast_out(cast_lty_lty_spec(c, sig.output, pt), rv)
                } else {
                    (Seq::empty(), SuppressReasons::spec_empty())
                },
                None => (Seq::empty(), SuppressReasons::spec_empty()),
            };
            (a_ops + c_ops, a_errs.union(c_errs))
        },
        None => (Seq::empty(), SuppressReasons::spec_empty()),
    }
}

/// A bulk copy: it proceeds only when both pointers resolve to the same
/// pointee type whose size is computable; the byte count then converts to
/// an element count by that size, each side is single or a run per its
/// classification, and the result is bridged only when it is actually
/// used.
pub open spec fn call_memcpy_spec(
    c: AnalysisCtxtView,
    args: Seq<OperandView>,
    pl_lty: Option<LTyView>,
    path: Seq<SubLoc>,
) -> (Seq<MirRewriteView>, SuppressReasons) {
    let rv = path.push(SubLoc::Rvalue);
    if args.len() < 2 {
        (Seq::empty(), SuppressReasons::spec_empty())
    } else {
        match (type_of_operand_spec(c, args[0]), type_of_operand_spec(c, args[1])) {
            (Some(d), Some(s)) => match (pointee_lty_spec(c, d), pointee_lty_spec(c, s)) {
                (Some(dp), Some(sp)) => if dp == sp && crate::ty::sizes_fit(dp.ty) {
                    let m = seq![
                        MirRewriteView {
                            kind: RewriteKindView::MemcpySafe {
                                elem_size: crate::ty::size_of(dp.ty) as u64,
                                dest_single: class_single(class_of_spec(c, d.label)),
                                src_single: class_single(class_of_spec(c, s.label)),
                            },
                            sub_loc: rv,
                        },
                    ];
                    let (c_ops, c_errs): (Seq<MirRewriteView>, SuppressReasons) = match pl_lty {
                        Some(pt) => if pt.label is Some && class_of_spec(c, pt.label).used {
                            cast_out(cast_lty_lty_spec(c, d, pt), rv)
                        } else {
                            (Seq::empty(), SuppressReasons::spec_empty())
                        },
                        None => (Seq::empty(), SuppressReasons::spec_empty()),
                    };
                    (m + c_ops, c_errs)
                } else {
                    (Seq::empty(), SuppressReasons::spec_empty())
                },
                _ => (Seq::empty(), SuppressReasons::spec_empty()),
            },
            _ => (Seq::empty(), SuppressReasons::spec_empty()),
        }
    }
}

/// A bulk fill: it proceeds only when the destination resolves to a
/// pointee with a computable size that admits a zero-fill plan; a pointee
/// that cannot be zeroed — one holding a pointer — leaves the call
/// untouched.
pub open spec fn call_memset_spec(
    c: AnalysisCtxtView,
    args: Seq<OperandView>,
    pl_lty: Option<LTyView>,
    path: Seq<SubLoc>,
) -> (Seq<MirRewriteView>, SuppressReasons) {
    let rv = path.push(SubLoc::Rvalue);
    if args.len() < 1 {
        (Seq::empty(), SuppressReasons::spec_empty())
    } else {
        match type_of_operand_spec(c, args[0]) {
            Some(d) => match pointee_lty_spec(c, d) {
                Some(dp) => if crate::ty::sizes_fit(dp.ty) {
                    match crate::zeroize::zeroize_of(dp.ty) {
                        Some(z) => {
                            let m = seq![
                                MirRewriteView {
                                    kind: RewriteKindView::MemsetZeroize {
                                        zero_ty: z,
                                        elem_size: crate::ty::size_of(dp.ty) as u64,
                                        dest_single: class_single(class_of_spec(c, d.label)),
                                    },
                                    sub_loc: rv,
                                },
                            ];
                            let (c_ops, c_errs): (Seq<MirRewriteView>, SuppressReasons) = match
                                pl_lty {
                                Some(pt) => if pt.label is Some && class_of_spec(
                                    c,
                                    pt.label,
                                ).used {
                                    cast_out(cast_lty_lty_spec(c, d, pt), rv)
                                } else {
                                    (Seq::empty(), SuppressReasons::spec_empty())
                                },
                                None => (Seq::empty(), SuppressReasons::spec_empty()),
                            };
                            (m + c_ops, c_errs)
                        },
                        None => (Seq::empty(), SuppressReasons::spec_empty()),
                    }
                } else {
                    (Seq::empty(), SuppressReasons::spec_empty())
                },
                None => (Seq::empty(), SuppressReasons::spec_empty()),
            },
            None => (Seq::empty(), SuppressReasons::spec_empty()),
        }
    }
}

/// A null test: replaced by the absence test when the argument may be
/// null, by the literal false when its classification proves it can
/// never be; an exempt argument is left alone.
pub open spec fn call_is_null_spec(
    c: AnalysisCtxtView,
    args: Seq<OperandView>,
    path: Seq<SubLoc>,
) -> Seq<MirRewriteView> {
    let rv = path.push(SubLoc::Rvalue);
    if args.len() < 1 {
        Seq::empty()
    } else {
        match type_of_operand_spec(c, args[0]) {
            Some(a) => {
                let cls = class_of_spec(c, a.label);
                if !cls.fixed {
                    if cls.non_null {
                        seq![
                            MirRewriteView {
                                kind: RewriteKindView::IsNullToConstFalse,
                                sub_loc: rv,
                            },
                        ]
                    } else {
                        seq![
                            MirRewriteView { kind: RewriteKindView::IsNullToIsNone, sub_loc: rv },
                        ]
                    }
                } else {
                    Seq::empty()
                }
            },
            None => Seq::empty(),
        }
    }
}

/// A null constant: rewritten to the absence-of-value idiom only when the
/// target position's classification marks it nullable.  A destination
/// that is not exempt yet proved non-null is an impossible classification
/// — a null constant is the one value it can never hold — and records the
/// impossible-null reason.
pub open spec fn call_null_spec(
    c: AnalysisCtxtView,
    pl_lty: Option<LTyView>,
    path: Seq<SubLoc>,
) -> (Seq<MirRewriteView>, SuppressReasons) {
    match pl_lty {
        Some(pt) => {
            let cls = class_of_spec(c, pt.label);
            if !cls.fixed && !cls.non_null {
                (
                    seq![
                        MirRewriteView {
                            kind: RewriteKindView::PtrNullToNone,
                            sub_loc: path.push(SubLoc::Rvalue),
                        },
                    ],
                    SuppressReasons::spec_empty(),
                )
            } else if !cls.fixed {
                (Seq::empty(), spec_impossible_null())
            } else {
                (Seq::empty(), SuppressReasons::spec_empty())
            }
        },
        None => (Seq::empty(), SuppressReasons::spec_empty()),
    }
}

/// An allocation: it proceeds only when the destination's pointee has a
/// computable size and a zero-fill plan; the rewrite produces the
/// canonical owning shape, which is then bridged to the destination's
/// required shape.
pub open spec fn call_malloc_spec(
    c: AnalysisCtxtView,
    is_calloc: bool,
    pl_lty: Option<LTyView>,
    path: Seq<SubLoc>,
) -> (Seq<MirRewriteView>, SuppressReasons) {
    let rv = path.push(SubLoc::Rvalue);
    match pl_lty {
        Some(dt) => match pointee_lty_spec(c, dt) {
            Some(dp) => if crate::ty::sizes_fit(dp.ty) {
                match crate::zeroize::zeroize_of(dp.ty) {
                    Some(z) => {
                        let single = class_single(class_of_spec(c, dt.label));
                        let elem_size = crate::ty::size_of(dp.ty) as u64;
                        let m = seq![
                            MirRewriteView {
                                kind: if is_calloc {
                                    RewriteKindView::CallocSafe { zero_ty: z, elem_size, single }
                                } else {
                                    RewriteKindView::MallocSafe { zero_ty: z, elem_size, single }
                                },
                                sub_loc: rv,
                            },
                        ];
                        let co = cast_out(cast_owned_lty_spec(c, single, dt), rv);
                        (m + co.0, co.1)
                    },
                    None => (Seq::empty(), SuppressReasons::spec_empty()),
                }
            } else {
                (Seq::empty(), SuppressReasons::spec_empty())
            },
            None => (Seq::empty(), SuppressReasons::spec_empty()),
        },
        None => (Seq::empty(), SuppressReasons::spec_empty()),
    }
}

/// A release: the argument is bridged to the canonical owning shape
/// before the release rewrite, so releasing a non-owning pointer is a
/// detectable shape mismatch rather than a silent double release.
pub open spec fn call_free_spec(
    c: AnalysisCtxtView,
    args: Seq<OperandView>,
    path: Seq<SubLoc>,
) -> (Seq<MirRewriteView>, SuppressReasons) {
    let rv = path.push(SubLoc::Rvalue);
    if args.len() < 1 {
        (Seq::empty(), SuppressReasons::spec_empty())
    } else {
        match type_of_operand_spec(c, args[0]) {
            Some(s) => match pointee_lty_spec(c, s) {
                Some(_) => {
                    let single = class_single(class_of_spec(c, s.label));
                    let co = cast_out(cast_lty_owned_spec(c, s, single), rv.push(SubLoc::CallArg(0)));
                    let f = seq![
                        MirRewriteView {
                            kind: RewriteKindView::FreeSafe { single },
                            sub_loc: rv,
                        },
                    ];
                    (co.0 + f, co.1)
                },
                None => (Seq::empty(), SuppressReasons::spec_empty()),
            },
            None => (Seq::empty(), SuppressReasons::spec_empty()),
        }
    }
}

/// A resize: a release-style cast of the input, the resize rewrite with
/// its zero-fill plan, and an allocation-style cast of the output.
pub open spec fn call_realloc_spec(
    c: AnalysisCtxtView,
    args: Seq<OperandView>,
    pl_lty: Option<LTyView>,
    path: Seq<SubLoc>,
) -> (Seq<MirRewriteView>, SuppressReasons) {
    let rv = path.push(SubLoc::Rvalue);
    if args.len() < 1 {
        (Seq::empty(), SuppressReasons::spec_empty())
    } else {
        match (type_of_operand_spec(c, args[0]), pl_lty) {
            (Some(s), Some(d)) => match (pointee_lty_spec(c, d), pointee_lty_spec(c, s)) {
                (Some(dp), Some(sp)) => if dp == sp && crate::ty::sizes_fit(dp.ty) {
                    match crate::zeroize::zeroize_of(dp.ty) {
                        Some(z) => {
                            let src_single = class_single(class_of_spec(c, s.label));
                            let dest_single = class_single(class_of_spec(c, d.label));
                            let co_in = cast_out(
                                cast_lty_owned_spec(c, s, src_single),
                                rv.push(SubLoc::CallArg(0)),
                            );
                            let m = seq![
                                MirRewriteView {
                                    kind: RewriteKindView::ReallocSafe {
                                        zero_ty: z,
                                        elem_size: crate::ty::size_of(dp.ty) as u64,
                                        src_single,
                                        dest_single,
                                    },
                                    sub_loc: rv,
                                },
                            ];
                            let co_out = cast_out(cast_owned_lty_spec(c, dest_single, d), rv);
                            (co_in.0 + m + co_out.0, co_in.1.union(co_out.1))
                        },
                        None => (Seq::empty(), SuppressReasons::spec_empty()),
                    }
                } else {
                    (Seq::empty(), SuppressReasons::spec_empty())
                },
                _ => (Seq::empty(), SuppressReasons::spec_empty()),
            },
            _ => (Seq::empty(), SuppressReasons::spec_empty()),
        }
    }
}

/// The rewrites and suppression reasons a call pattern contributes before
/// the failed-cast gate is applied.
pub open spec fn call_dispatch_spec(
    c: AnalysisCtxtView,
    callee: crate::ir::CalleeView,
    args: Seq<OperandView>,
    destination: PlaceView,
    path: Seq<SubLoc>,
) -> (Seq<MirRewriteView>, SuppressReasons) {
    let pl_lty = type_of_place_spec(c, destination);
    match callee {
        crate::ir::CalleeView::PtrOffset => if args.len() >= 1 && pl_lty is Some {
            visit_ptr_offset_spec(c, args[0], pl_lty->Some_0, path)
        } else {
            (Seq::empty(), SuppressReasons::spec_empty())
        },
        crate::ir::CalleeView::SliceAsPtr { elem_ty } => if args.len() >= 1 && pl_lty is Some {
            visit_slice_as_ptr_spec(c, elem_ty, args[0], pl_lty->Some_0, path)
        } else {
            (Seq::empty(), SuppressReasons::spec_empty())
        },
        crate::ir::CalleeView::LocalDef { def_id } => call_local_def_spec(
            c,
            def_id,
            args,
            pl_lty,
            path,
        ),
        crate::ir::CalleeView::Memcpy => call_memcpy_spec(c, args, pl_lty, path),
        crate::ir::CalleeView::Memset => call_memset_spec(c, args, pl_lty, path),
        crate::ir::CalleeView::IsNull => (
            call_is_null_spec(c, args, path),
            SuppressReasons::spec_empty(),
        ),
        crate::ir::CalleeView::Null => call_null_spec(c, pl_lty, path),
        crate::ir::CalleeView::Malloc => call_malloc_spec(c, false, pl_lty, path),
        crate::ir::CalleeView::Calloc => call_malloc_spec(c, true, pl_lty, path),
        crate::ir::CalleeView::Free => call_free_spec(c, args, path),
        crate::ir::CalleeView::Realloc => call_realloc_spec(c, args, pl_lty, path),
        crate::ir::CalleeView::Other => (Seq::empty(), SuppressReasons::spec_empty()),
    }
}

/// The rewrites and suppression reasons visiting one terminator emits:
/// only calls are rewritten, each per its recognized pattern.  A call for
/// which any shape cast cannot be built emits nothing at all — the
/// original call stays intact — and keeps only the recorded reasons.  A
/// terminator kind outside the supported subset records the
/// unsupported-IR reason.
pub open spec fn visit_terminator_spec(
    c: AnalysisCtxtView,
    term: crate::ir::TerminatorKindView,
    path: Seq<SubLoc>,
) -> (Seq<MirRewriteView>, SuppressReasons) {
    match term {
        crate::ir::TerminatorKindView::Call { callee, args, destination } => {
            let raw = call_dispatch_spec(c, callee, args, destination, path);
            if raw.1.failed_cast {
                (Seq::empty(), raw.1)
            } else {
                raw
            }
        },
        crate::ir::TerminatorKindView::InlineAsm => (Seq::empty(), spec_unsupported_ir()),
        _ => (Seq::empty(), SuppressReasons::spec_empty()),
    }
}

/// Law: a release rewrite stands only behind a successfully synthesized
/// owning-shape cast.  When the release call emits anything, the
/// argument's shape was bridged to the canonical owning shape and those
/// operations come first, at the argument's own address, with the release
/// rewrite last; when the cast cannot be built, the call emits nothing at
/// all and only the failed-cast reason remains.
pub proof fn lemma_release_establishes_ownership(
    c: AnalysisCtxtView,
    args: Seq<OperandView>,
    destination: PlaceView,
    path: Seq<SubLoc>,
)
    ensures
        ({
            let t = crate::ir::TerminatorKindView::Call {
                callee: crate::ir::CalleeView::Free,
                args,
                destination,
            };
            let (ops, errs) = visit_terminator_spec(c, t, path);
            &&& errs.failed_cast ==> ops == Seq::<MirRewriteView>::empty()
            &&& ops.len() > 0 ==> ({
                let s = crate::ctx::type_of_operand_spec(c, args[0])->Some_0;
                let single = class_single(class_of_spec(c, s.label));
                let co = cast_lty_owned_spec(c, s, single);
                &&& co.1 is Ok
                &&& ops == ops_at(co.0, path.push(SubLoc::Rvalue).push(SubLoc::CallArg(0)))
                    + seq![
                    MirRewriteView {
                        kind: RewriteKindView::FreeSafe { single },
                        sub_loc: path.push(SubLoc::Rvalue),
                    },
                ]
            })
        }),
{
}

/// Law: assigning a plain non-pointer value through a destination reached
/// by one dereference of a pointer classified shared-mutable-cell —
/// single, non-nullable, not dynamically owned, not exempt — emits exactly
/// one cell-write rewrite at the statement itself and no cast.  The
/// destination local's own address must not be cell-classified, and
/// neither side of the assignment carries a pointer label, so no shape
/// needs bridging.
#[verifier::rlimit(100)]
#[verifier::spinoff_prover]
pub proof fn lemma_cell_write_scenario(
    c: AnalysisCtxtView,
    pl: PlaceView,
    zero: bool,
    rv_lty: LTyView,
    path: Seq<SubLoc>,
)
    requires
        pl.projection == seq![PlaceElem::Deref],
        pl.local < c.local_tys.len(),
        crate::ty::spec_is_any_ptr(c.local_tys[pl.local as int].ty),
        ({
            let cls = class_of_spec(c, c.local_tys[pl.local as int].label);
            &&& !cls.fixed
            &&& cls.own is Cell
            &&& class_single(cls)
            &&& cls.non_null
            &&& !cls.dyn_owned
        }),
        !(class_of_spec(c, addr_label_spec(c, pl.local)).own is Cell),
        rv_lty.label is None,
        match type_of_place_spec(c, pl) {
            Some(pt) => pt.label is None,
            None => true,
        },
    ensures
        visit_statement_spec(
            c,
            crate::ir::StatementKindView::Assign {
                place: pl,
                rvalue: RvalueView::Use(OperandView::Constant { zero }),
                rv_lty,
            },
            path,
        ) == (
            seq![MirRewriteView { kind: RewriteKindView::CellSet, sub_loc: path }],
            SuppressReasons::spec_empty(),
        ),
{
    reveal_with_fuel(visit_place_ref_spec, 3);
    let rv = RvalueView::Use(OperandView::Constant { zero });
    assert(pl.projection[0] == PlaceElem::Deref);
    assert(place_is_indirect_spec(pl));
    let (ops_a, errs_a) = stmt_cell_set_spec(c, pl, path);
    assert(ops_a == seq![MirRewriteView { kind: RewriteKindView::CellSet, sub_loc: path }]);
    let (ops_b, errs_b) = stmt_cell_use_spec(c, pl, rv, path);
    assert(ops_b =~= Seq::<MirRewriteView>::empty());
    let (ops_c, errs_c) = stmt_assign_value_spec(c, pl, rv, rv_lty, path);
    assert(transfer_place_spec(c, pl, rv) is None);
    match type_of_place_spec(c, pl) {
        Some(pt) => {
            assert(cast_lty_lty_spec(c, rv_lty, pt) == (
                Seq::<RewriteKindView>::empty(),
                Ok::<(), crate::cast::CastErrView>(()),
            ));
            assert(ops_at(Seq::<RewriteKindView>::empty(), path.push(SubLoc::Rvalue))
                =~= Seq::<MirRewriteView>::empty());
        },
        None => {},
    }
    assert(ops_c =~= Seq::<MirRewriteView>::empty());
    let ops_d = visit_place_spec(c, pl, PlaceAccess::Mut, path.push(SubLoc::Dest));
    assert(ops_d =~= Seq::<MirRewriteView>::empty());
    assert(ops_a + ops_b + ops_c + ops_d =~= seq![
        MirRewriteView { kind: RewriteKindView::CellSet, sub_loc: path },
    ]);
}

/// Law: reading a plain non-pointer value through one dereference of a
/// pointer classified shared-mutable-cell — single, non-nullable, not
/// dynamically owned, not exempt — into a plain unprojected local emits
/// exactly one cell-read rewrite at the value side and no cast.
#[verifier::rlimit(100)]
#[verifier::spinoff_prover]
pub proof fn lemma_cell_read_scenario(
    c: AnalysisCtxtView,
    pl: PlaceView,
    rv_pl: PlaceView,
    rv_lty: LTyView,
    path: Seq<SubLoc>,
)
    requires
        pl.projection.len() == 0,
        ({
            let cls_a = class_of_spec(c, addr_label_spec(c, pl.local));
            !(cls_a.own is Cell) && class_single(cls_a)
        }),
        rv_pl.projection == seq![PlaceElem::Deref],
        rv_pl.local < c.local_tys.len(),
        crate::ty::spec_is_any_ptr(c.local_tys[rv_pl.local as int].ty),
        ({
            let g = class_of_spec(c, c.local_tys[rv_pl.local as int].label);
            &&& !g.fixed
            &&& g.own is Cell
            &&& g.non_null
            &&& !g.dyn_owned
        }),
        rv_lty.label is None,
        match type_of_place_spec(c, rv_pl) {
            Some(at) => at.label is None,
            None => true,
        },
        match type_of_place_spec(c, pl) {
            Some(pt) => pt.label is None,
            None => true,
        },
    ensures
        visit_statement_spec(
            c,
            crate::ir::StatementKindView::Assign {
                place: pl,
                rvalue: RvalueView::Use(OperandView::Copy(rv_pl)),
                rv_lty,
            },
            path,
        ) == (
            seq![
                MirRewriteView {
                    kind: RewriteKindView::CellGet,
                    sub_loc: path.push(SubLoc::Rvalue),
                },
            ],
            SuppressReasons::spec_empty(),
        ),
{
    reveal_with_fuel(visit_place_ref_spec, 3);
    let rv = RvalueView::Use(OperandView::Copy(rv_pl));
    let (ops_a, errs_a) = stmt_cell_set_spec(c, pl, path);
    assert(!place_is_indirect_spec(pl));
    assert(ops_a =~= Seq::<MirRewriteView>::empty());
    assert(rv_pl.projection[0] == PlaceElem::Deref);
    assert(place_is_indirect_spec(rv_pl));
    let (ops_b, errs_b) = stmt_cell_use_spec(c, pl, rv, path);
    assert(ops_b =~= seq![
        MirRewriteView { kind: RewriteKindView::CellGet, sub_loc: path.push(SubLoc::Rvalue) },
    ]);
    let (ops_c, errs_c) = stmt_assign_value_spec(c, pl, rv, rv_lty, path);
    assert(transfer_place_spec(c, pl, rv) is None);
    let rv_path = path.push(SubLoc::Rvalue);
    let op_path = rv_path.push(SubLoc::RvalueOperand(0)).push(SubLoc::OperandPlace);
    assert(visit_place_spec(c, rv_pl, PlaceAccess::Move, op_path)
        =~= Seq::<MirRewriteView>::empty());
    match type_of_place_spec(c, pl) {
        Some(pt) => {
            assert(cast_lty_lty_spec(c, rv_lty, pt) == (
                Seq::<RewriteKindView>::empty(),
                Ok::<(), crate::cast::CastErrView>(()),
            ));
            assert(ops_at(Seq::<RewriteKindView>::empty(), rv_path)
                =~= Seq::<MirRewriteView>::empty());
        },
        None => {},
    }
    assert(ops_c =~= Seq::<MirRewriteView>::empty());
    let ops_d = visit_place_spec(c, pl, PlaceAccess::Mut, path.push(SubLoc::Dest));
    assert(ops_d =~= Seq::<MirRewriteView>::empty());
    assert(ops_a + ops_b + ops_c + ops_d =~= seq![
        MirRewriteView { kind: RewriteKindView::CellGet, sub_loc: path.push(SubLoc::Rvalue) },
    ]);
}

/// Law: a pointer-offset call whose argument and required result both
/// classify as an immutable borrow of a non-nullable bounded run emits
/// exactly the bounds-respecting re-slice and no further cast — the
/// expected argument shape maps to itself and already matches the result.
pub proof fn lemma_offset_scenario(
    c: AnalysisCtxtView,
    op: OperandView,
    result_lty: LTyView,
    path: Seq<SubLoc>,
)
    requires
        ({
            let rd = crate::ctx::lty_to_desc_spec(c, result_lty);
            &&& rd.own == crate::shape::Ownership::Imm
            &&& rd.qty == crate::shape::Quantity::Slice
            &&& !rd.option
            &&& !rd.dyn_owned
            &&& crate::ir::operand_place_view(op) matches Some(apl) && apl.projection.len() == 0
                && (type_of_place_spec(c, apl) matches Some(at) && at.label is Some
                && desc_of_spec(class_of_spec(c, at.label), rd.pointee_ty) == rd)
        }),
    ensures
        visit_ptr_offset_spec(c, op, result_lty, path) == (
            seq![
                MirRewriteView {
                    kind: RewriteKindView::OffsetSlice { mutbl: false },
                    sub_loc: path.push(SubLoc::Rvalue),
                },
            ],
            SuppressReasons::spec_empty(),
        ),
{
    let rd = crate::ctx::lty_to_desc_spec(c, result_lty);
    let arg_desc = offset_arg_desc(rd);
    assert(arg_desc =~= rd);
    crate::cast::lemma_cast_identity(rd);
    let apl = crate::ir::operand_place_view(op)->Some_0;
    let at = type_of_place_spec(c, apl)->Some_0;
    assert(desc_of_spec(class_of_spec(c, at.label), arg_desc.pointee_ty) == rd);
    let rv = path.push(SubLoc::Rvalue);
    assert(visit_place_spec(c, apl, PlaceAccess::Move, rv.push(SubLoc::CallArg(0)))
        =~= Seq::<MirRewriteView>::empty());
    assert(visit_ptr_offset_spec(c, op, result_lty, path).0 =~= seq![
        MirRewriteView {
            kind: RewriteKindView::OffsetSlice { mutbl: false },
            sub_loc: rv,
        },
    ]);
}

/// Visit the arguments of a call to an analyzed function.
#[verifier::loop_isolation(false)]
#[verifier::rlimit(100)]
#[verifier::spinoff_prover]
fn visit_args(
    c: &AnalysisCtxt,
    args: &Vec<Operand>,
    sig: &crate::ctx::FnSig,
    rv_path: &Vec<SubLoc>,
    out: &mut Vec<MirRewrite>,
    errs: &mut SuppressReasons,
)
    ensures
        rewrites_view(final(out)@) == rewrites_view(old(out)@) + visit_args_spec(
            c@,
            operands_view(args@),
            crate::ty::ltys_view(sig.inputs@),
            args@.len() as int,
            rv_path@,
        ).0,
        *final(errs) == old(errs).union(
            visit_args_spec(
                c@,
                operands_view(args@),
                crate::ty::ltys_view(sig.inputs@),
                args@.len() as int,
                rv_path@,
            ).1,
        ),
{
    let ghost base = rewrites_view(out@);
    let ghost e0 = *errs;
    let ghost argsv = operands_view(args@);
    let ghost inputsv = crate::ty::ltys_view(sig.inputs@);
    proof {
        lemma_operands_view(args@);
        crate::ty::lemma_ltys_view(sig.inputs@);
    }
    let n: usize = args.len();
    let mut i: usize = 0;
    while i < n
        invariant
            0 <= i <= n,
            rewrites_view(out@) == base + visit_args_spec(c@, argsv, inputsv, i as int, rv_path@).0,
            *errs == e0.union(visit_args_spec(c@, argsv, inputsv, i as int, rv_path@).1),
        decreases n - i,
    {
        if i < sig.inputs.len() {
            let sub = path_push(rv_path, SubLoc::CallArg(i));
            visit_operand(c, &args[i], Some(&sig.inputs[i]), &sub, out, errs);
        }
        proof {
            assert(rewrites_view(out@) =~= base + visit_args_spec(
                c@,
                argsv,
                inputsv,
                i + 1 as int,
                rv_path@,
            ).0);
            assert(*errs == e0.union(visit_args_spec(c@, argsv, inputsv, i + 1, rv_path@).1));
        }
        i = i + 1;
    }
}

/// Visit a call to an analyzed function.
#[verifier::rlimit(100)]
#[verifier::spinoff_prover]
fn call_local_def(
    c: &AnalysisCtxt,
    def_id: u64,
    args: &Vec<Operand>,
    destination: &Place,
    path: &Vec<SubLoc>,
    out: &mut Vec<MirRewrite>,
    errs: &mut SuppressReasons,
)
    ensures
        rewrites_view(final(out)@) == rewrites_view(old(out)@) + call_local_def_spec(
            c@,
            def_id,
            operands_view(args@),
            type_of_place_spec(c@, destination@),
            path@,
        ).0,
        *final(errs) == old(errs).union(
            call_local_def_spec(
                c@,
                def_id,
                operands_view(args@),
                type_of_place_spec(c@, destination@),
                path@,
            ).1,
        ),
{
    let ghost base = rewrites_view(out@);
    let ghost e0 = *errs;
    proof {
        lemma_operands_view(args@);
    }
    match c.fn_sig(def_id) {
        Some(sig) => {
            let rv = path_push(path, SubLoc::Rvalue);
            visit_args(c, args, sig, &rv, out, errs);
            match c.type_of_place(destination) {
                Some(pt) => {
                    if pt.label.is_some() {
                        emit_cast_lty_lty(c, &sig.output, pt, &rv, out, errs);
                    }
                },
                None => {},
            }
            proof {
                assert(rewrites_view(out@) =~= base + call_local_def_spec(
                    c@,
                    def_id,
                    operands_view(args@),
                    type_of_place_spec(c@, destination@),
                    path@,
                ).0);
            }
        },
        None => {
            proof {
                assert(rewrites_view(out@) =~= base + Seq::<MirRewriteView>::empty());
                assert(*errs == e0.union(SuppressReasons::spec_empty()));
            }
        },
    }
}

/// Visit a bulk-copy call.
#[verifier::rlimit(100)]
#[verifier::spinoff_prover]
fn call_memcpy(
    c: &AnalysisCtxt,
    args: &Vec<Operand>,
    destination: &Place,
    path: &Vec<SubLoc>,
    out: &mut Vec<MirRewrite>,
    errs: &mut SuppressReasons,
)
    ensures
        rewrites_view(final(out)@) == rewrites_view(old(out)@) + call_memcpy_spec(
            c@,
            operands_view(args@),
            type_of_place_spec(c@, destination@),
            path@,
        ).0,
        *final(errs) == old(errs).union(
            call_memcpy_spec(
                c@,
                operands_view(args@),
                type_of_place_spec(c@, destination@),
                path@,
            ).1,
        ),
{
    let ghost base = rewrites_view(out@);
    let ghost e0 = *errs;
    proof {
        lemma_operands_view(args@);
    }
    let rv = path_push(path, SubLoc::Rvalue);
    if args.len() < 2 {
        proof {
            assert(rewrites_view(out@) =~= base + Seq::<MirRewriteView>::empty());
            assert(*errs == e0.union(SuppressReasons::spec_empty()));
        }
        return ;
    }
    let d = match c.type_of_operand(&args[0]) {
        Some(d) => d,
        None => {
            proof {
                assert(rewrites_view(out@) =~= base + Seq::<MirRewriteView>::empty());
                assert(*errs == e0.union(SuppressReasons::spec_empty()));
            }
            return ;
        },
    };
    let s = match c.type_of_operand(&args[1]) {
        Some(s) => s,
        None => {
            proof {
                assert(rewrites_view(out@) =~= base + Seq::<MirRewriteView>::empty());
                assert(*errs == e0.union(SuppressReasons::spec_empty()));
            }
            return ;
        },
    };
    let (dp, sp) = match (c.pointee_lty(d), c.pointee_lty(s)) {
        (Some(dp), Some(sp)) => (dp, sp),
        _ => {
            proof {
                assert(rewrites_view(out@) =~= base + Seq::<MirRewriteView>::empty());
                assert(*errs == e0.union(SuppressReasons::spec_empty()));
            }
            return ;
        },
    };
    if !crate::ty::lty_eq(dp, sp) {
        proof {
            assert(rewrites_view(out@) =~= base + Seq::<MirRewriteView>::empty());
            assert(*errs == e0.union(SuppressReasons::spec_empty()));
        }
        return ;
    }
    let elem_size = match crate::ty::ty_size_opt(&dp.ty) {
        Some(es) => es,
        None => {
            proof {
                assert(rewrites_view(out@) =~= base + Seq::<MirRewriteView>::empty());
                assert(*errs == e0.union(SuppressReasons::spec_empty()));
            }
            return ;
        },
    };
    let dcls = c.class_of(&d.label);
    let scls = c.class_of(&s.label);
    let dest_single = !dcls.offset_add && !dcls.offset_sub;
    let src_single = !scls.offset_add && !scls.offset_sub;
    emit(out, &rv, RewriteKind::MemcpySafe { elem_size, dest_single, src_single });
    match c.type_of_place(destination) {
        Some(pt) => {
            if pt.label.is_some() && c.class_of(&pt.label).used {
                emit_cast_lty_lty(c, d, pt, &rv, out, errs);
            }
        },
        None => {},
    }
    proof {
        assert(rewrites_view(out@) =~= base + call_memcpy_spec(
            c@,
            operands_view(args@),
            type_of_place_spec(c@, destination@),
            path@,
        ).0);
    }
}

/// Visit a bulk-fill call.
#[verifier::rlimit(100)]
#[verifier::spinoff_prover]
fn call_memset(
    c: &AnalysisCtxt,
    args: &Vec<Operand>,
    destination: &Place,
    path: &Vec<SubLoc>,
    out: &mut Vec<MirRewrite>,
    errs: &mut SuppressReasons,
)
    ensures
        rewrites_view(final(out)@) == rewrites_view(old(out)@) + call_memset_spec(
            c@,
            operands_view(args@),
            type_of_place_spec(c@, destination@),
            path@,
        ).0,
        *final(errs) == old(errs).union(
            call_memset_spec(
                c@,
                operands_view(args@),
                type_of_place_spec(c@, destination@),
                path@,
            ).1,
        ),
{
    let ghost base = rewrites_view(out@);
    let ghost e0 = *errs;
    proof {
        lemma_operands_view(args@);
    }
    let rv = path_push(path, SubLoc::Rvalue);
    if args.len() < 1 {
        proof {
            assert(rewrites_view(out@) =~= base + Seq::<MirRewriteView>::empty());
            assert(*errs == e0.union(SuppressReasons::spec_empty()));
        }
        return ;
    }
    let d = match c.type_of_operand(&args[0]) {
        Some(d) => d,
        None => {
            proof {
                assert(rewrites_view(out@) =~= base + Seq::<MirRewriteView>::empty());
                assert(*errs == e0.union(SuppressReasons::spec_empty()));
            }
            return ;
        },
    };
    let dp = match c.pointee_lty(d) {
        Some(dp) => dp,
        None => {
            proof {
                assert(rewrites_view(out@) =~= base + Seq::<MirRewriteView>::empty());
                assert(*errs == e0.union(SuppressReasons::spec_empty()));
            }
            return ;
        },
    };
    let elem_size = match crate::ty::ty_size_opt(&dp.ty) {
        Some(es) => es,
        None => {
            proof {
                assert(rewrites_view(out@) =~= base + Seq::<MirRewriteView>::empty());
                assert(*errs == e0.union(SuppressReasons::spec_empty()));
            }
            return ;
        },
    };
    let zero_ty = match crate::zeroize::ZeroizeType::from_ty(&dp.ty) {
        Some(z) => z,
        None => {
            proof {
                assert(rewrites_view(out@) =~= base + Seq::<MirRewriteView>::empty());
                assert(*errs == e0.union(SuppressReasons::spec_empty()));
            }
            return ;
        },
    };
    let dcls = c.class_of(&d.label);
    let dest_single = !dcls.offset_add && !dcls.offset_sub;
    emit(out, &rv, RewriteKind::MemsetZeroize { zero_ty, elem_size, dest_single });
    match c.type_of_place(destination) {
        Some(pt) => {
            if pt.label.is_some() && c.class_of(&pt.label).used {
                emit_cast_lty_lty(c, d, pt, &rv, out, errs);
            }
        },
        None => {},
    }
    proof {
        assert(rewrites_view(out@) =~= base + call_memset_spec(
            c@,
            operands_view(args@),
            type_of_place_spec(c@, destination@),
            path@,
        ).0);
    }
}

/// Visit an allocation call.
#[verifier::rlimit(100)]
#[verifier::spinoff_prover]
fn call_malloc(
    c: &AnalysisCtxt,
    is_calloc: bool,
    destination: &Place,
    path: &Vec<SubLoc>,
    out: &mut Vec<MirRewrite>,
    errs: &mut SuppressReasons,
)
    ensures
        rewrites_view(final(out)@) == rewrites_view(old(out)@) + call_malloc_spec(
            c@,
            is_calloc,
            type_of_place_spec(c@, destination@),
            path@,
        ).0,
        *final(errs) == old(errs).union(
            call_malloc_spec(c@, is_calloc, type_of_place_spec(c@, destination@), path@).1,
        ),
{
    let ghost base = rewrites_view(out@);
    let ghost e0 = *errs;
    let rv = path_push(path, SubLoc::Rvalue);
    let dt = match c.type_of_place(destination) {
        Some(dt) => dt,
        None => {
            proof {
                assert(rewrites_view(out@) =~= base + Seq::<MirRewriteView>::empty());
                assert(*errs == e0.union(SuppressReasons::spec_empty()));
            }
            return ;
        },
    };
    let dp = match c.pointee_lty(dt) {
        Some(dp) => dp,
        None => {
            proof {
                assert(rewrites_view(out@) =~= base + Seq::<MirRewriteView>::empty());
                assert(*errs == e0.union(SuppressReasons::spec_empty()));
            }
            return ;
        },
    };
    let elem_size = match crate::ty::ty_size_opt(&dp.ty) {
        Some(es) => es,
        None => {
            proof {
                assert(rewrites_view(out@) =~= base + Seq::<MirRewriteView>::empty());
                assert(*errs == e0.union(SuppressReasons::spec_empty()));
            }
            return ;
        },
    };
    let zero_ty = match crate::zeroize::ZeroizeType::from_ty(&dp.ty) {
        Some(z) => z,
        None => {
            proof {
                assert(rewrites_view(out@) =~= base + Seq::<MirRewriteView>::empty());
                assert(*errs == e0.union(SuppressReasons::spec_empty()));
            }
            return ;
        },
    };
    let dcls = c.class_of(&dt.label);
    let single = !dcls.offset_add && !dcls.offset_sub;
    if is_calloc {
        emit(out, &rv, RewriteKind::CallocSafe { zero_ty, elem_size, single });
    } else {
        emit(out, &rv, RewriteKind::MallocSafe { zero_ty, elem_size, single });
    }
    emit_cast_owned_lty(c, single, dt, &rv, out, errs);
    proof {
        assert(rewrites_view(out@) =~= base + call_malloc_spec(
            c@,
            is_calloc,
            type_of_place_spec(c@, destination@),
            path@,
        ).0);
    }
}

/// Visit a release call.
#[verifier::rlimit(100)]
#[verifier::spinoff_prover]
fn call_free(
    c: &AnalysisCtxt,
    args: &Vec<Operand>,
    path: &Vec<SubLoc>,
    out: &mut Vec<MirRewrite>,
    errs: &mut SuppressReasons,
)
    ensures
        rewrites_view(final(out)@) == rewrites_view(old(out)@) + call_free_spec(
            c@,
            operands_view(args@),
            path@,
        ).0,
        *final(errs) == old(errs).union(
            call_free_spec(c@, operands_view(args@), path@).1,
        ),
{
    let ghost base = rewrites_view(out@);
    let ghost e0 = *errs;
    proof {
        lemma_operands_view(args@);
    }
    let rv = path_push(path, SubLoc::Rvalue);
    if args.len() < 1 {
        proof {
            assert(rewrites_view(out@) =~= base + Seq::<MirRewriteView>::empty());
            assert(*errs == e0.union(SuppressReasons::spec_empty()));
        }
        return ;
    }
    let s = match c.type_of_operand(&args[0]) {
        Some(s) => s,
        None => {
            proof {
                assert(rewrites_view(out@) =~= base + Seq::<MirRewriteView>::empty());
                assert(*errs == e0.union(SuppressReasons::spec_empty()));
            }
            return ;
        },
    };
    match c.pointee_lty(s) {
        Some(_) => {},
        None => {
            proof {
                assert(rewrites_view(out@) =~= base + Seq::<MirRewriteView>::empty());
                assert(*errs == e0.union(SuppressReasons::spec_empty()));
            }
            return ;
        },
    }
    let scls = c.class_of(&s.label);
    let single = !scls.offset_add && !scls.offset_sub;
    let arg_path = path_push(&rv, SubLoc::CallArg(0));
    emit_cast_lty_owned(c, s, single, &arg_path, out, errs);
    emit(out, &rv, RewriteKind::FreeSafe { single });
    proof {
        assert(rewrites_view(out@) =~= base + call_free_spec(
            c@,
            operands_view(args@),
            path@,
        ).0);
    }
}

/// Visit a resize call.
#[verifier::rlimit(100)]
#[verifier::spinoff_prover]
fn call_realloc(
    c: &AnalysisCtxt,
    args: &Vec<Operand>,
    destination: &Place,
    path: &Vec<SubLoc>,
    out: &mut Vec<MirRewrite>,
    errs: &mut SuppressReasons,
)
    ensures
        rewrites_view(final(out)@) == rewrites_view(old(out)@) + call_realloc_spec(
            c@,
            operands_view(args@),
            type_of_place_spec(c@, destination@),
            path@,
        ).0,
        *final(errs) == old(errs).union(
            call_realloc_spec(
                c@,
                operands_view(args@),
                type_of_place_spec(c@, destination@),
                path@,
            ).1,
        ),
{
    let ghost base = rewrites_view(out@);
    let ghost e0 = *errs;
    proof {
        lemma_operands_view(args@);
    }
    let rv = path_push(path, SubLoc::Rvalue);
    if args.len() < 1 {
        proof {
            assert(rewrites_view(out@) =~= base + Seq::<MirRewriteView>::empty());
            assert(*errs == e0.union(SuppressReasons::spec_empty()));
        }
        return ;
    }
    let s = match c.type_of_operand(&args[0]) {
        Some(s) => s,
        None => {
            proof {
                assert(rewrites_view(out@) =~= base + Seq::<MirRewriteView>::empty());
                assert(*errs == e0.union(SuppressReasons::spec_empty()));
            }
            return ;
        },
    };
    let d = match c.type_of_place(destination) {
        Some(d) => d,
        None => {
            proof {
                assert(rewrites_view(out@) =~= base + Seq::<MirRewriteView>::empty());
                assert(*errs == e0.union(SuppressReasons::spec_empty()));
            }
            return ;
        },
    };
    let (dp, sp) = match (c.pointee_lty(d), c.pointee_lty(s)) {
        (Some(dp), Some(sp)) => (dp, sp),
        _ => {
            proof {
                assert(rewrites_view(out@) =~= base + Seq::<MirRewriteView>::empty());
                assert(*errs == e0.union(SuppressReasons::spec_empty()));
            }
            return ;
        },
    };
    if !crate::ty::lty_eq(dp, sp) {
        proof {
            assert(rewrites_view(out@) =~= base + Seq::<MirRewriteView>::empty());
            assert(*errs == e0.union(SuppressReasons::spec_empty()));
        }
        return ;
    }
    let elem_size = match crate::ty::ty_size_opt(&dp.ty) {
        Some(es) => es,
        None => {
            proof {
                assert(rewrites_view(out@) =~= base + Seq::<MirRewriteView>::empty());
                assert(*errs == e0.union(SuppressReasons::spec_empty()));
            }
            return ;
        },
    };
    let zero_ty = match crate::zeroize::ZeroizeType::from_ty(&dp.ty) {
        Some(z) => z,
        None => {
            proof {
                assert(rewrites_view(out@) =~= base + Seq::<MirRewriteView>::empty());
                assert(*errs == e0.union(SuppressReasons::spec_empty()));
            }
            return ;
        },
    };
    let scls = c.class_of(&s.label);
    let dcls = c.class_of(&d.label);
    let src_single = !scls.offset_add && !scls.offset_sub;
    let dest_single = !dcls.offset_add && !dcls.offset_sub;
    let arg_path = path_push(&rv, SubLoc::CallArg(0));
    emit_cast_lty_owned(c, s, src_single, &arg_path, out, errs);
    emit(out, &rv, RewriteKind::ReallocSafe { zero_ty, elem_size, src_single, dest_single });
    emit_cast_owned_lty(c, dest_single, d, &rv, out, errs);
    proof {
        assert(rewrites_view(out@) =~= base + call_realloc_spec(
            c@,
            operands_view(args@),
            type_of_place_spec(c@, destination@),
            path@,
        ).0);
        assert(*errs == e0.union(
            call_realloc_spec(
                c@,
                operands_view(args@),
                type_of_place_spec(c@, destination@),
                path@,
            ).1,
        ));
    }
}

/// Visit one call terminator, before the failed-cast gate.
#[verifier::rlimit(100)]
#[verifier::spinoff_prover]
fn visit_call_raw(
    c: &AnalysisCtxt,
    callee: &crate::ir::Callee,
    args: &Vec<Operand>,
    destination: &Place,
    path: &Vec<SubLoc>,
    out: &mut Vec<MirRewrite>,
    errs: &mut SuppressReasons,
)
    ensures
        rewrites_view(final(out)@) == rewrites_view(old(out)@) + call_dispatch_spec(
            c@,
            callee@,
            operands_view(args@),
            destination@,
            path@,
        ).0,
        *final(errs) == old(errs).union(
            call_dispatch_spec(c@, callee@, operands_view(args@), destination@, path@).1,
        ),
{
    let ghost base = rewrites_view(out@);
    let ghost e0 = *errs;
    proof {
        lemma_operands_view(args@);
    }
    match callee {
        crate::ir::Callee::PtrOffset => {
            if args.len() >= 1 {
                match c.type_of_place(destination) {
                    Some(pt) => {
                        visit_ptr_offset(c, &args[0], pt, path, out, errs);
                        return ;
                    },
                    None => {},
                }
            }
            proof {
                assert(rewrites_view(out@) =~= base + Seq::<MirRewriteView>::empty());
                assert(*errs == e0.union(SuppressReasons::spec_empty()));
            }
        },
        crate::ir::Callee::SliceAsPtr { elem_ty } => {
            if args.len() >= 1 {
                match c.type_of_place(destination) {
                    Some(pt) => {
                        visit_slice_as_ptr(c, elem_ty, &args[0], pt, path, out, errs);
                        return ;
                    },
                    None => {},
                }
            }
            proof {
                assert(rewrites_view(out@) =~= base + Seq::<MirRewriteView>::empty());
                assert(*errs == e0.union(SuppressReasons::spec_empty()));
            }
        },
        crate::ir::Callee::LocalDef { def_id } => {
            call_local_def(c, *def_id, args, destination, path, out, errs);
        },
        crate::ir::Callee::Memcpy => {
            call_memcpy(c, args, destination, path, out, errs);
        },
        crate::ir::Callee::Memset => {
            call_memset(c, args, destination, path, out, errs);
        },
        crate::ir::Callee::IsNull => {
            let rv = path_push(path, SubLoc::Rvalue);
            if args.len() >= 1 {
                match c.type_of_operand(&args[0]) {
                    Some(a) => {
                        let cls = c.class_of(&a.label);
                        if !cls.fixed {
                            if cls.non_null {
                                emit(out, &rv, RewriteKind::IsNullToConstFalse);
                            } else {
                                emit(out, &rv, RewriteKind::IsNullToIsNone);
                            }
                        }
                    },
                    None => {},
                }
            }
            proof {
                assert(rewrites_view(out@) =~= base + call_is_null_spec(
                    c@,
                    operands_view(args@),
                    path@,
                ));
                assert(*errs == e0.union(SuppressReasons::spec_empty()));
            }
        },
        crate::ir::Callee::Null => {
            let rv = path_push(path, SubLoc::Rvalue);
            match c.type_of_place(destination) {
                Some(pt) => {
                    let cls = c.class_of(&pt.label);
                    if !cls.fixed && !cls.non_null {
                        emit(out, &rv, RewriteKind::PtrNullToNone);
                    } else if !cls.fixed {
                        errs.add(impossible_null());
                    }
                },
                None => {},
            }
            proof {
                assert(rewrites_view(out@) =~= base + call_null_spec(
                    c@,
                    type_of_place_spec(c@, destination@),
                    path@,
                ).0);
                assert(*errs == e0.union(
                    call_null_spec(c@, type_of_place_spec(c@, destination@), path@).1,
                ));
            }
        },
        crate::ir::Callee::Malloc => {
            call_malloc(c, false, destination, path, out, errs);
        },
        crate::ir::Callee::Calloc => {
            call_malloc(c, true, destination, path, out, errs);
        },
        crate::ir::Callee::Free => {
            call_free(c, args, path, out, errs);
        },
        crate::ir::Callee::Realloc => {
            call_realloc(c, args, destination, path, out, errs);
        },
        crate::ir::Callee::Other => {
            proof {
                assert(rewrites_view(out@) =~= base + Seq::<MirRewriteView>::empty());
                assert(*errs == e0.union(SuppressReasons::spec_empty()));
            }
        },
    }
}

/// Visit one terminator.  A call for which any shape cast could not be
/// built contributes no rewrites at all; the recorded reasons stay.
#[verifier::rlimit(100)]
#[verifier::spinoff_prover]
pub fn visit_terminator(
    c: &AnalysisCtxt,
    term: &crate::ir::TerminatorKind,
    path: &Vec<SubLoc>,
    out: &mut Vec<MirRewrite>,
    errs: &mut SuppressReasons,
)
    ensures
        rewrites_view(final(out)@) == rewrites_view(old(out)@) + visit_terminator_spec(
            c@,
            term@,
            path@,
        ).0,
        *final(errs) == old(errs).union(visit_terminator_spec(c@, term@, path@).1),
{
    let ghost base = rewrites_view(out@);
    let ghost e0 = *errs;
    match term {
        crate::ir::TerminatorKind::Call { callee, args, destination } => {
            let ghost raw = call_dispatch_spec(
                c@,
                callee@,
                operands_view(args@),
                destination@,
                path@,
            );
            let mut buf: Vec<MirRewrite> = Vec::new();
            let mut ce = SuppressReasons::empty();
            visit_call_raw(c, callee, args, destination, path, &mut buf, &mut ce);
            proof {
                assert(rewrites_view(buf@) =~= Seq::<MirRewriteView>::empty() + raw.0);
            }
            errs.add(ce);
            if ce.failed_cast {
                // A cast of this call failed: emit nothing for the call
                // and leave the original call intact.
                proof {
                    assert(rewrites_view(out@) =~= base + Seq::<MirRewriteView>::empty());
                }
            } else {
                let mut moved = buf;
                proof {
                    crate::rewrite::lemma_rewrites_view_concat(out@, moved@);
                }
                out.append(&mut moved);
            }
        },
        crate::ir::TerminatorKind::InlineAsm => {
            errs.add(unsupported_ir());
            proof {
                assert(rewrites_view(out@) =~= base + Seq::<MirRewriteView>::empty());
            }
        },
        _ => {
            proof {
                assert(rewrites_view(out@) =~= base + Seq::<MirRewriteView>::empty());
                assert(*errs == e0.union(SuppressReasons::spec_empty()));
            }
        },
    }
}

/// The view of the rewrite map: each program point with its ordered
/// rewrites.
pub open spec fn rewrite_map_view(m: Seq<(crate::ir::Location, Vec<MirRewrite>)>) -> Seq<
    (crate::ir::Location, Seq<MirRewriteView>),
>
    decreases m,
{
    if m.len() == 0 {
        Seq::empty()
    } else {
        rewrite_map_view(m.drop_last()).push((m.last().0, rewrites_view(m.last().1@)))
    }
}

pub proof fn lemma_rewrite_map_view(m: Seq<(crate::ir::Location, Vec<MirRewrite>)>)
    ensures
        rewrite_map_view(m).len() == m.len(),
        forall|i: int|
            0 <= i < m.len() ==> rewrite_map_view(m)[i] == (m[i].0, rewrites_view(m[i].1@)),
    decreases m,
{
    if m.len() > 0 {
        lemma_rewrite_map_view(m.drop_last());
        assert(forall|i: int| 0 <= i < m.len() - 1 ==> m.drop_last()[i] == m[i]);
    }
}

pub proof fn lemma_rewrite_map_view_push(
    m: Seq<(crate::ir::Location, Vec<MirRewrite>)>,
    e: (crate::ir::Location, Vec<MirRewrite>),
)
    ensures
        rewrite_map_view(m.push(e)) == rewrite_map_view(m).push((e.0, rewrites_view(e.1@))),
{
    assert(m.push(e).drop_last() =~= m);
    assert(m.push(e).last() == e);
}

/// The rewrite map and suppression reasons of the first `k` statements of
/// one block: one entry per statement that emits at least one rewrite.
pub open spec fn walk_stmts_spec(
    c: AnalysisCtxtView,
    stmts: Seq<crate::ir::StatementKindView>,
    bb: usize,
    k: int,
) -> (Seq<(crate::ir::Location, Seq<MirRewriteView>)>, SuppressReasons)
    decreases k,
{
    if k <= 0 {
        (Seq::empty(), SuppressReasons::spec_empty())
    } else {
        let (prev, pe) = walk_stmts_spec(c, stmts, bb, k - 1);
        let (ops, errs) = visit_statement_spec(c, stmts[k - 1], Seq::empty());
        let entry: Seq<(crate::ir::Location, Seq<MirRewriteView>)> = if ops.len() > 0 {
            seq![
                (
                    crate::ir::Location { block: bb, statement_index: (k - 1) as usize },
                    ops,
                ),
            ]
        } else {
            Seq::empty()
        };
        (prev + entry, pe.union(errs))
    }
}

/// The rewrite map and suppression reasons of one block: its statements
/// in order, then its terminator, whose program point is the index one
/// past the last statement.
pub open spec fn walk_block_spec(
    c: AnalysisCtxtView,
    blk: crate::ir::BasicBlockDataView,
    bb: usize,
) -> (Seq<(crate::ir::Location, Seq<MirRewriteView>)>, SuppressReasons) {
    let (s_out, s_errs) = walk_stmts_spec(c, blk.statements, bb, blk.statements.len() as int);
    match blk.terminator {
        Some(t) => {
            let (ops, errs) = visit_terminator_spec(c, t, Seq::empty());
            let entry: Seq<(crate::ir::Location, Seq<MirRewriteView>)> = if ops.len() > 0 {
                seq![
                    (
                        crate::ir::Location {
                            block: bb,
                            statement_index: blk.statements.len() as usize,
                        },
                        ops,
                    ),
                ]
            } else {
                Seq::empty()
            };
            (s_out + entry, s_errs.union(errs))
        },
        None => (s_out, s_errs),
    }
}

/// The rewrite map and suppression reasons of the first `k` blocks.
pub open spec fn walk_blocks_spec(
    c: AnalysisCtxtView,
    blocks: Seq<crate::ir::BasicBlockDataView>,
    k: int,
) -> (Seq<(crate::ir::Location, Seq<MirRewriteView>)>, SuppressReasons)
    decreases k,
{
    if k <= 0 {
        (Seq::empty(), SuppressReasons::spec_empty())
    } else {
        let (prev, pe) = walk_blocks_spec(c, blocks, k - 1);
        let (b_out, b_errs) = walk_block_spec(c, blocks[k - 1], (k - 1) as usize);
        (prev + b_out, pe.union(b_errs))
    }
}

/// The rewrite map and suppression reasons of a whole body.
pub open spec fn gen_mir_rewrites_spec(c: AnalysisCtxtView, body: crate::ir::BodyView) -> (
    Seq<(crate::ir::Location, Seq<MirRewriteView>)>,
    SuppressReasons,
) {
    walk_blocks_spec(c, body.basic_blocks, body.basic_blocks.len() as int)
}

/// Walk a whole body: visit every statement and terminator of every basic
/// block in order, and return the mapping from program point to its
/// ordered rewrites — one entry per point that gets any — together with
/// the suppression reasons the walk recorded.
#[verifier::loop_isolation(false)]
#[verifier::rlimit(100)]
#[verifier::spinoff_prover]
pub fn gen_mir_rewrites(acx: &AnalysisCtxt, mir: &crate::ir::Body) -> (r: (
    Vec<(crate::ir::Location, Vec<MirRewrite>)>,
    SuppressReasons,
))
    ensures
        rewrite_map_view(r.0@) == gen_mir_rewrites_spec(acx@, mir@).0,
        r.1 == gen_mir_rewrites_spec(acx@, mir@).1,
{
    proof {
        crate::ir::lemma_blocks_view(mir.basic_blocks@);
    }
    let ghost blocksv = crate::ir::blocks_view(mir.basic_blocks@);
    let empty_path: Vec<SubLoc> = Vec::new();
    let mut map: Vec<(crate::ir::Location, Vec<MirRewrite>)> = Vec::new();
    let mut errs = SuppressReasons::empty();
    let nb: usize = mir.basic_blocks.len();
    let mut b: usize = 0;
    while b < nb
        invariant
            0 <= b <= nb,
            rewrite_map_view(map@) == walk_blocks_spec(acx@, blocksv, b as int).0,
            errs == walk_blocks_spec(acx@, blocksv, b as int).1,
        decreases nb - b,
    {
        let blk = &mir.basic_blocks[b];
        proof {
            crate::ir::lemma_statements_view(blk.statements@);
        }
        let ghost stmtsv = crate::ir::statements_view(blk.statements@);
        let ghost map_b = rewrite_map_view(map@);
        let ghost errs_b = errs;
        let ns: usize = blk.statements.len();
        let mut i: usize = 0;
        while i < ns
            invariant
                0 <= i <= ns,
                rewrite_map_view(map@) == map_b + walk_stmts_spec(acx@, stmtsv, b, i as int).0,
                errs == errs_b.union(walk_stmts_spec(acx@, stmtsv, b, i as int).1),
            decreases ns - i,
        {
            let mut ops: Vec<MirRewrite> = Vec::new();
            visit_statement(acx, &blk.statements[i], &empty_path, &mut ops, &mut errs);
            proof {
                assert(rewrites_view(ops@) =~= Seq::<MirRewriteView>::empty() + rewrites_view(
                    ops@,
                ));
                lemma_rewrites_view(ops@);
            }
            if ops.len() > 0 {
                let loc = crate::ir::Location { block: b, statement_index: i };
                let ghost entry = (loc, rewrites_view(ops@));
                proof {
                    lemma_rewrite_map_view_push(map@, (loc, ops));
                }
                map.push((loc, ops));
                proof {
                    assert(rewrite_map_view(map@) =~= map_b + walk_stmts_spec(
                        acx@,
                        stmtsv,
                        b,
                        i + 1 as int,
                    ).0);
                }
            } else {
                proof {
                    assert(rewrite_map_view(map@) =~= map_b + walk_stmts_spec(
                        acx@,
                        stmtsv,
                        b,
                        i + 1 as int,
                    ).0);
                }
            }
            i = i + 1;
        }
        match &blk.terminator {
            Some(t) => {
                let mut ops: Vec<MirRewrite> = Vec::new();
                visit_terminator(acx, t, &empty_path, &mut ops, &mut errs);
                proof {
                    assert(rewrites_view(ops@) =~= Seq::<MirRewriteView>::empty() + rewrites_view(
                        ops@,
                    ));
                    lemma_rewrites_view(ops@);
                }
                if ops.len() > 0 {
                    let loc = crate::ir::Location { block: b, statement_index: ns };
                    proof {
                        lemma_rewrite_map_view_push(map@, (loc, ops));
                    }
                    map.push((loc, ops));
                }
                proof {
                    assert(rewrite_map_view(map@) =~= map_b + walk_block_spec(
                        acx@,
                        blocksv[b as int],
                        b,
                    ).0);
                    assert(errs == errs_b.union(walk_block_spec(acx@, blocksv[b as int], b).1));
                }
            },
            None => {
                proof {
                    assert(rewrite_map_view(map@) =~= map_b + walk_block_spec(
                        acx@,
                        blocksv[b as int],
                        b,
                    ).0);
                    assert(errs == errs_b.union(walk_block_spec(acx@, blocksv[b as int], b).1));
                }
            },
        }
        proof {
            assert(rewrite_map_view(map@) =~= walk_blocks_spec(acx@, blocksv, b + 1 as int).0);
            assert(errs == walk_blocks_spec(acx@, blocksv, b + 1 as int).1);
        }
        b = b + 1;
    }
    (map, errs)
}

} // verus!
