//! The read-only analysis context a walk consults: the per-pointer
//! classification table, the per-pointer inferred pointee types, the
//! per-function declared signatures, and the per-local labeled types of
//! the walked body.

use vstd::prelude::*;
use crate::ir::{Place, PlaceElem, PlaceView};
use crate::shape::{Ownership, Quantity, TypeDesc, TypeDescView};
use crate::ty::{
    lemma_ltys_view, lty_view, ltys_view, spec_is_any_ptr, ty_clone, LTy, LTyView, Ty, TyView,
};

verus! {

broadcast use vstd::std_specs::vec::group_vec_axioms;

/// What the classification pass decided for one pointer: the ownership
/// discipline it may adopt, whether it may be offset in either direction,
/// whether it can never be null, whether its ownership is tracked
/// dynamically, whether it is exempt from rewriting, and whether its
/// value is actually used downstream.
#[derive(Clone, Copy, PartialEq, Eq, Structural, Debug)]
pub struct PtrClass {
    pub own: Ownership,
    pub offset_add: bool,
    pub offset_sub: bool,
    pub non_null: bool,
    pub dyn_owned: bool,
    pub fixed: bool,
    pub used: bool,
}

/// The classification of a pointer the tables do not cover: exempt from
/// rewriting and never null, so no rewrite touches it.
pub open spec fn spec_fixed_class() -> PtrClass {
    PtrClass {
        own: Ownership::Raw,
        offset_add: false,
        offset_sub: false,
        non_null: true,
        dyn_owned: false,
        fixed: true,
        used: false,
    }
}

/// The classification of a pointer the tables do not cover.
#[verifier::when_used_as_spec(spec_fixed_class)]
pub fn fixed_class() -> (r: PtrClass)
    ensures
        r == spec_fixed_class(),
{
    PtrClass {
        own: Ownership::Raw,
        offset_add: false,
        offset_sub: false,
        non_null: true,
        dyn_owned: false,
        fixed: true,
        used: false,
    }
}

/// The declared parameter and return shapes of an analyzed function.
pub struct FnSig {
    pub def_id: u64,
    pub inputs: Vec<LTy>,
    pub output: LTy,
}

/// Mathematical model of a declared signature.
#[verifier::ext_equal]
pub struct FnSigView {
    pub def_id: u64,
    pub inputs: Seq<LTyView>,
    pub output: LTyView,
}

impl View for FnSig {
    type V = FnSigView;

    open spec fn view(&self) -> FnSigView {
        FnSigView {
            def_id: self.def_id,
            inputs: ltys_view(self.inputs@),
            output: lty_view(self.output),
        }
    }
}

pub open spec fn fn_sigs_view(fs: Seq<FnSig>) -> Seq<FnSigView>
    decreases fs,
{
    if fs.len() == 0 {
        Seq::empty()
    } else {
        fn_sigs_view(fs.drop_last()).push(fs.last()@)
    }
}

pub proof fn lemma_fn_sigs_view(fs: Seq<FnSig>)
    ensures
        fn_sigs_view(fs).len() == fs.len(),
        forall|i: int| 0 <= i < fs.len() ==> fn_sigs_view(fs)[i] == fs[i]@,
    decreases fs,
{
    if fs.len() > 0 {
        lemma_fn_sigs_view(fs.drop_last());
        assert(forall|i: int| 0 <= i < fs.len() - 1 ==> fs.drop_last()[i] == fs[i]);
    }
}

pub open spec fn opt_ltys_view(ls: Seq<Option<LTy>>) -> Seq<Option<LTyView>>
    decreases ls,
{
    if ls.len() == 0 {
        Seq::empty()
    } else {
        opt_ltys_view(ls.drop_last()).push(
            match ls.last() {
                Some(l) => Some(lty_view(l)),
                None => None,
            },
        )
    }
}

pub proof fn lemma_opt_ltys_view(ls: Seq<Option<LTy>>)
    ensures
        opt_ltys_view(ls).len() == ls.len(),
        forall|i: int|
            0 <= i < ls.len() ==> opt_ltys_view(ls)[i] == (match ls[i] {
                Some(l) => Some(lty_view(l)),
                None => None,
            }),
    decreases ls,
{
    if ls.len() > 0 {
        lemma_opt_ltys_view(ls.drop_last());
        assert(forall|i: int| 0 <= i < ls.len() - 1 ==> ls.drop_last()[i] == ls[i]);
    }
}

/// The read-only context of one function-body walk.
pub struct AnalysisCtxt {
    /// Per-pointer classification, indexed by pointer identity.
    pub classes: Vec<PtrClass>,
    /// Per-pointer inferred sole pointee type, where inference found one.
    pub pointee_tys: Vec<Option<LTy>>,
    /// Declared signatures of the analyzed functions.
    pub fn_sigs: Vec<FnSig>,
    /// The labeled type of each local of the walked body.
    pub local_tys: Vec<LTy>,
    /// The pointer identity standing for the address of each local.
    pub addr_of_local: Vec<Option<u32>>,
}

/// Mathematical model of the context.
#[verifier::ext_equal]
pub struct AnalysisCtxtView {
    pub classes: Seq<PtrClass>,
    pub pointee_tys: Seq<Option<LTyView>>,
    pub fn_sigs: Seq<FnSigView>,
    pub local_tys: Seq<LTyView>,
    pub addr_of_local: Seq<Option<u32>>,
}

impl View for AnalysisCtxt {
    type V = AnalysisCtxtView;

    open spec fn view(&self) -> AnalysisCtxtView {
        AnalysisCtxtView {
            classes: self.classes@,
            pointee_tys: opt_ltys_view(self.pointee_tys@),
            fn_sigs: fn_sigs_view(self.fn_sigs@),
            local_tys: ltys_view(self.local_tys@),
            addr_of_local: self.addr_of_local@,
        }
    }
}

/// The classification of a pointer identity; an identity outside the
/// table counts as exempt from rewriting.
pub open spec fn class_of_spec(c: AnalysisCtxtView, label: Option<u32>) -> PtrClass {
    match label {
        Some(p) => if p < c.classes.len() {
            c.classes[p as int]
        } else {
            spec_fixed_class()
        },
        None => spec_fixed_class(),
    }
}

/// A pointer is nullable when its classification neither proves it
/// non-null nor exempts it from rewriting.
pub open spec fn is_nullable_spec(c: AnalysisCtxtView, label: Option<u32>) -> bool {
    label is Some && !class_of_spec(c, label).non_null && !class_of_spec(c, label).fixed
}

/// The shape a classification gives a pointer, over the given pointee
/// type: the classified ownership; a bounded run if the pointer may be
/// offset, an offset pointer if it may move backwards, a single value
/// otherwise; nullable unless proven non-null.  Exemption from rewriting
/// is a separate gate its callers check.
pub open spec fn desc_of_spec(class: PtrClass, pointee: TyView) -> TypeDescView {
    TypeDescView {
        own: class.own,
        qty: if class.offset_sub {
            Quantity::OffsetPtr
        } else if class.offset_add {
            Quantity::Slice
        } else {
            Quantity::Single
        },
        dyn_owned: class.dyn_owned,
        option: !class.non_null,
        pointee_ty: pointee,
    }
}

/// The pointee type a labeled type carries in its unlabeled type alone.
pub open spec fn pointee_of_ty(t: TyView) -> TyView {
    match t {
        TyView::Ref { pointee, .. } => *pointee,
        TyView::RawPtr { pointee, .. } => *pointee,
        TyView::Array { elem, .. } => *elem,
        _ => t,
    }
}

/// The shape of a labeled type under its classification, with the
/// pointee read off the unlabeled type.
pub open spec fn lty_to_desc_spec(c: AnalysisCtxtView, l: LTyView) -> TypeDescView {
    desc_of_spec(class_of_spec(c, l.label), pointee_of_ty(l.ty))
}

/// A labeled type is dynamically owned when it is a pointer, labeled,
/// not exempt, and classified as dynamically owned.
pub open spec fn is_dyn_owned_spec(c: AnalysisCtxtView, l: LTyView) -> bool {
    &&& spec_is_any_ptr(l.ty)
    &&& l.label is Some
    &&& !class_of_spec(c, l.label).fixed
    &&& class_of_spec(c, l.label).dyn_owned
}

/// The pointee of a labeled pointer type: the inferred sole pointee where
/// the tables have one, else the labeled pointee the type itself carries.
/// Nothing for a non-pointer, nor for a malformed pointer type that
/// carries no pointee argument — a well-formed labeled pointer carries
/// exactly one.  Resolution goes one level only, never into the inner
/// pointee of a pointer to a pointer.
pub open spec fn pointee_lty_spec(c: AnalysisCtxtView, l: LTyView) -> Option<LTyView> {
    if !spec_is_any_ptr(l.ty) {
        None
    } else {
        let inferred: Option<LTyView> = match l.label {
            Some(p) => if p < c.pointee_tys.len() {
                c.pointee_tys[p as int]
            } else {
                None
            },
            None => None,
        };
        match inferred {
            Some(pt) => Some(pt),
            None => if l.args.len() >= 1 {
                Some(l.args[0])
            } else {
                None
            },
        }
    }
}

/// The labeled type one projection step in from a base: the pointee for a
/// dereference, the named field, the element for an index or subslice,
/// the base itself for a downcast.
pub open spec fn projection_lty_spec(l: LTyView, e: PlaceElem) -> Option<LTyView> {
    match e {
        PlaceElem::Deref => if l.args.len() >= 1 {
            Some(l.args[0])
        } else {
            None
        },
        PlaceElem::Field(i) => if i < l.args.len() {
            Some(l.args[i as int])
        } else {
            None
        },
        PlaceElem::Index | PlaceElem::ConstantIndex | PlaceElem::Subslice => if l.args.len()
            >= 1 {
            Some(l.args[0])
        } else {
            None
        },
        PlaceElem::Downcast => Some(l),
    }
}

/// The labeled type of a local together with the first `k` projection
/// steps applied.
pub open spec fn place_prefix_lty_spec(
    c: AnalysisCtxtView,
    local: usize,
    projs: Seq<PlaceElem>,
    k: int,
) -> Option<LTyView>
    decreases k,
{
    if k <= 0 {
        if local < c.local_tys.len() {
            Some(c.local_tys[local as int])
        } else {
            None
        }
    } else if k > projs.len() {
        None
    } else {
        match place_prefix_lty_spec(c, local, projs, k - 1) {
            Some(base) => projection_lty_spec(base, projs[k - 1]),
            None => None,
        }
    }
}

/// The labeled type of a whole place.
pub open spec fn type_of_place_spec(c: AnalysisCtxtView, pl: PlaceView) -> Option<LTyView> {
    place_prefix_lty_spec(c, pl.local, pl.projection, pl.projection.len() as int)
}

impl AnalysisCtxt {
    /// Look up the classification of a pointer identity.
    pub fn class_of(&self, label: &Option<u32>) -> (r: PtrClass)
        ensures
            r == class_of_spec(self@, *label),
    {
        match label {
            Some(p) => {
                let idx: usize = *p as usize;
                if idx < self.classes.len() {
                    self.classes[idx]
                } else {
                    fixed_class()
                }
            },
            None => fixed_class(),
        }
    }

    /// Whether the classified pointer may be null.
    pub fn is_nullable(&self, label: &Option<u32>) -> (r: bool)
        ensures
            r == is_nullable_spec(self@, *label),
    {
        let class = self.class_of(label);
        label.is_some() && !class.non_null && !class.fixed
    }

    /// Whether the labeled type is a dynamically-owned pointer.
    pub fn is_dyn_owned(&self, l: &LTy) -> (r: bool)
        ensures
            r == is_dyn_owned_spec(self@, l@),
    {
        if !l.ty.is_any_ptr() {
            return false;
        }
        if l.label.is_none() {
            return false;
        }
        let class = self.class_of(&l.label);
        !class.fixed && class.dyn_owned
    }

    /// The pointee of a labeled pointer type, preferring the inferred
    /// sole pointee over the one the type itself carries; nothing for a
    /// non-pointer or for a malformed pointer type without a pointee
    /// argument.
    pub fn pointee_lty<'a>(&'a self, l: &'a LTy) -> (r: Option<&'a LTy>)
        ensures
            match r {
                Some(pt) => pointee_lty_spec(self@, l@) == Some(pt@),
                None => pointee_lty_spec(self@, l@) is None,
            },
    {
        proof {
            lemma_opt_ltys_view(self.pointee_tys@);
            lemma_ltys_view(l.args@);
        }
        if !l.ty.is_any_ptr() {
            return None;
        }
        if let Some(p) = l.label {
            let idx: usize = p as usize;
            if idx < self.pointee_tys.len() {
                if let Some(pt) = &self.pointee_tys[idx] {
                    return Some(pt);
                }
            }
        }
        if l.args.len() >= 1 {
            Some(&l.args[0])
        } else {
            None
        }
    }

    /// Apply one projection step to a base labeled type.
    pub fn projection_lty<'a>(&self, l: &'a LTy, e: &PlaceElem) -> (r: Option<&'a LTy>)
        ensures
            match r {
                Some(pt) => projection_lty_spec(l@, *e) == Some(pt@),
                None => projection_lty_spec(l@, *e) is None,
            },
    {
        proof {
            lemma_ltys_view(l.args@);
        }
        match e {
            PlaceElem::Deref => if l.args.len() >= 1 {
                Some(&l.args[0])
            } else {
                None
            },
            PlaceElem::Field(i) => if *i < l.args.len() {
                Some(&l.args[*i])
            } else {
                None
            },
            PlaceElem::Index | PlaceElem::ConstantIndex | PlaceElem::Subslice => if l.args.len()
                >= 1 {
                Some(&l.args[0])
            } else {
                None
            },
            PlaceElem::Downcast => Some(l),
        }
    }

    /// The labeled type of a local with the first `k` projection steps of
    /// a place applied.
    #[verifier::loop_isolation(false)]
    pub fn place_prefix_lty<'a>(&'a self, local: usize, projs: &Vec<PlaceElem>, k: usize) -> (r:
        Option<&'a LTy>)
        requires
            k <= projs@.len(),
        ensures
            match r {
                Some(l) => place_prefix_lty_spec(self@, local, projs@, k as int) == Some(l@),
                None => place_prefix_lty_spec(self@, local, projs@, k as int) is None,
            },
    {
        proof {
            lemma_ltys_view(self.local_tys@);
        }
        if local >= self.local_tys.len() {
            proof {
                lemma_prefix_none(self@, local, projs@, k as int);
            }
            return None;
        }
        let mut cur: &LTy = &self.local_tys[local];
        let mut i: usize = 0;
        while i < k
            invariant
                0 <= i <= k,
                place_prefix_lty_spec(self@, local, projs@, i as int) == Some(lty_view(*cur)),
            decreases k - i,
        {
            match self.projection_lty(cur, &projs[i]) {
                Some(next) => {
                    cur = next;
                },
                None => {
                    proof {
                        lemma_prefix_step_none(self@, local, projs@, i as int, k as int);
                    }
                    return None;
                },
            }
            i = i + 1;
        }
        Some(cur)
    }

    /// The labeled type of a place.
    pub fn type_of_place<'a>(&'a self, pl: &Place) -> (r: Option<&'a LTy>)
        ensures
            match r {
                Some(l) => type_of_place_spec(self@, pl@) == Some(l@),
                None => type_of_place_spec(self@, pl@) is None,
            },
    {
        self.place_prefix_lty(pl.local, &pl.projection, pl.projection.len())
    }

    /// The labeled type of the place an operand reads, if it reads one.
    pub fn type_of_operand<'a>(&'a self, op: &crate::ir::Operand) -> (r: Option<&'a LTy>)
        ensures
            match r {
                Some(l) => type_of_operand_spec(self@, op@) == Some(l@),
                None => type_of_operand_spec(self@, op@) is None,
            },
    {
        match op {
            crate::ir::Operand::Copy(pl) => self.type_of_place(pl),
            crate::ir::Operand::Move(pl) => self.type_of_place(pl),
            crate::ir::Operand::Constant { .. } => None,
        }
    }

    /// The declared signature of the analyzed function with the given
    /// identity, if the tables know one.
    #[verifier::loop_isolation(false)]
    pub fn fn_sig<'a>(&'a self, def_id: u64) -> (r: Option<&'a FnSig>)
        ensures
            match r {
                Some(s) => fn_sig_spec(self@, def_id) == Some(s@),
                None => fn_sig_spec(self@, def_id) is None,
            },
    {
        proof {
            lemma_fn_sigs_view(self.fn_sigs@);
        }
        let n: usize = self.fn_sigs.len();
        let mut i: usize = 0;
        while i < n
            invariant
                0 <= i <= n,
                forall|j: int| 0 <= j < i ==> self@.fn_sigs[j].def_id != def_id,
            decreases n - i,
        {
            if self.fn_sigs[i].def_id == def_id {
                proof {
                    lemma_fn_sig_found(self@, def_id, i as int);
                }
                return Some(&self.fn_sigs[i]);
            }
            i = i + 1;
        }
        proof {
            lemma_fn_sig_missing(self@, def_id);
        }
        None
    }

    /// The shape of a labeled type under its classification, with the
    /// given pointee.
    pub fn desc_with_pointee(&self, label: &Option<u32>, pointee: &Ty) -> (r: TypeDesc)
        ensures
            r@ == desc_of_spec(class_of_spec(self@, *label), pointee@),
    {
        let class = self.class_of(label);
        TypeDesc {
            own: class.own,
            qty: if class.offset_sub {
                Quantity::OffsetPtr
            } else if class.offset_add {
                Quantity::Slice
            } else {
                Quantity::Single
            },
            dyn_owned: class.dyn_owned,
            option: !class.non_null,
            pointee_ty: ty_clone(pointee),
        }
    }

    /// The shape of a labeled type, reading the pointee off the unlabeled
    /// type itself.
    pub fn lty_to_desc(&self, l: &LTy) -> (r: TypeDesc)
        ensures
            r@ == lty_to_desc_spec(self@, l@),
    {
        let pointee: &Ty = match &l.ty {
            Ty::Ref { pointee, .. } => pointee,
            Ty::RawPtr { pointee, .. } => pointee,
            Ty::Array { elem, .. } => elem,
            _ => &l.ty,
        };
        self.desc_with_pointee(&l.label, pointee)
    }
}

/// The labeled type of the place an operand reads, if it reads one.
pub open spec fn type_of_operand_spec(c: AnalysisCtxtView, op: crate::ir::OperandView) -> Option<
    LTyView,
> {
    match op {
        crate::ir::OperandView::Copy(pl) => type_of_place_spec(c, pl),
        crate::ir::OperandView::Move(pl) => type_of_place_spec(c, pl),
        crate::ir::OperandView::Constant { .. } => None,
    }
}

/// The first declared signature with the given identity.
pub open spec fn fn_sig_spec(c: AnalysisCtxtView, def_id: u64) -> Option<FnSigView>
    decreases c.fn_sigs.len(),
{
    if c.fn_sigs.len() == 0 {
        None
    } else if c.fn_sigs[0].def_id == def_id {
        Some(c.fn_sigs[0])
    } else {
        fn_sig_spec(AnalysisCtxtView { fn_sigs: c.fn_sigs.skip(1), ..c }, def_id)
    }
}

proof fn lemma_fn_sig_found(c: AnalysisCtxtView, def_id: u64, i: int)
    requires
        0 <= i < c.fn_sigs.len(),
        c.fn_sigs[i].def_id == def_id,
        forall|j: int| 0 <= j < i ==> c.fn_sigs[j].def_id != def_id,
    ensures
        fn_sig_spec(c, def_id) == Some(c.fn_sigs[i]),
    decreases i,
{
    if i > 0 {
        let c2 = AnalysisCtxtView { fn_sigs: c.fn_sigs.skip(1), ..c };
        lemma_fn_sig_found(c2, def_id, i - 1);
    }
}

proof fn lemma_fn_sig_missing(c: AnalysisCtxtView, def_id: u64)
    requires
        forall|j: int| 0 <= j < c.fn_sigs.len() ==> c.fn_sigs[j].def_id != def_id,
    ensures
        fn_sig_spec(c, def_id) is None,
    decreases c.fn_sigs.len(),
{
    if c.fn_sigs.len() > 0 {
        let c2 = AnalysisCtxtView { fn_sigs: c.fn_sigs.skip(1), ..c };
        lemma_fn_sig_missing(c2, def_id);
    }
}

proof fn lemma_prefix_none(c: AnalysisCtxtView, local: usize, projs: Seq<PlaceElem>, k: int)
    requires
        local >= c.local_tys.len(),
    ensures
        place_prefix_lty_spec(c, local, projs, k) is None,
    decreases k,
{
    if k > 0 {
        lemma_prefix_none(c, local, projs, k - 1);
    }
}

proof fn lemma_prefix_step_none(
    c: AnalysisCtxtView,
    local: usize,
    projs: Seq<PlaceElem>,
    i: int,
    k: int,
)
    requires
        0 <= i < k <= projs.len(),
        place_prefix_lty_spec(c, local, projs, i) is Some,
        projection_lty_spec(place_prefix_lty_spec(c, local, projs, i)->Some_0, projs[i]) is None,
    ensures
        place_prefix_lty_spec(c, local, projs, k) is None,
    decreases k - i,
{
    if k > i + 1 {
        lemma_prefix_step_none(c, local, projs, i, k - 1);
    }
}

} // verus!
