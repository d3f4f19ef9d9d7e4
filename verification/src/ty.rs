//! The type model: enough structure of the analyzed program's types to
//! derive zero-fill plans, compare pointee types modulo lifetime erasure,
//! and compute element sizes.

use vstd::prelude::*;

verus! {

broadcast use vstd::std_specs::vec::group_vec_axioms;

/// A named field of a struct type.
#[derive(Debug, PartialEq, Eq)]
pub struct FieldTy {
    pub name: String,
    pub ty: Ty,
}

/// A type, as the rewrite core sees it.
#[derive(Debug, PartialEq, Eq)]
pub enum Ty {
    /// Signed integer of the given byte width.
    Int { bytes: u64 },
    /// Unsigned integer of the given byte width.
    Uint { bytes: u64 },
    Bool,
    /// Fixed-size array.
    Array { elem: Box<Ty>, len: u64 },
    /// A nominal struct: identity, printed name, layout size in bytes, and
    /// its ordered fields.
    Struct { sid: u64, name: String, size: u64, fields: Vec<FieldTy> },
    /// A reference, carrying a lifetime tag (`lt`) that erasure clears.
    Ref { lt: u64, mutbl: bool, pointee: Box<Ty> },
    /// A raw pointer.
    RawPtr { mutbl: bool, pointee: Box<Ty> },
    /// Any other type, by identity, with its layout size in bytes.
    Opaque { oid: u64, size: u64 },
}

/// Mathematical model of a field.
#[verifier::ext_equal]
pub struct FieldTyView {
    pub name: Seq<char>,
    pub ty: TyView,
}

/// Mathematical model of a type.
#[verifier::ext_equal]
pub enum TyView {
    Int { bytes: u64 },
    Uint { bytes: u64 },
    Bool,
    Array { elem: Box<TyView>, len: u64 },
    Struct { sid: u64, name: Seq<char>, size: u64, fields: Seq<FieldTyView> },
    Ref { lt: u64, mutbl: bool, pointee: Box<TyView> },
    RawPtr { mutbl: bool, pointee: Box<TyView> },
    Opaque { oid: u64, size: u64 },
}

pub open spec fn fields_view(fs: Seq<FieldTy>) -> Seq<FieldTyView>
    decreases fs,
{
    if fs.len() == 0 {
        Seq::empty()
    } else {
        fields_view(fs.drop_last()).push(
            FieldTyView { name: fs.last().name@, ty: ty_view(fs.last().ty) },
        )
    }
}

pub open spec fn ty_view(t: Ty) -> TyView
    decreases t,
{
    match t {
        Ty::Int { bytes } => TyView::Int { bytes },
        Ty::Uint { bytes } => TyView::Uint { bytes },
        Ty::Bool => TyView::Bool,
        Ty::Array { elem, len } => TyView::Array { elem: Box::new(ty_view(*elem)), len },
        Ty::Struct { sid, name, size, fields } => TyView::Struct {
            sid,
            name: name@,
            size,
            fields: fields_view(fields@),
        },
        Ty::Ref { lt, mutbl, pointee } => TyView::Ref {
            lt,
            mutbl,
            pointee: Box::new(ty_view(*pointee)),
        },
        Ty::RawPtr { mutbl, pointee } => TyView::RawPtr {
            mutbl,
            pointee: Box::new(ty_view(*pointee)),
        },
        Ty::Opaque { oid, size } => TyView::Opaque { oid, size },
    }
}

impl View for Ty {
    type V = TyView;

    open spec fn view(&self) -> TyView {
        ty_view(*self)
    }
}

/// How `fields_view` relates to the underlying sequence, element by element.
pub proof fn lemma_fields_view(fs: Seq<FieldTy>)
    ensures
        fields_view(fs).len() == fs.len(),
        forall|i: int|
            0 <= i < fs.len() ==> fields_view(fs)[i] == (FieldTyView {
                name: fs[i].name@,
                ty: ty_view(fs[i].ty),
            }),
    decreases fs,
{
    if fs.len() > 0 {
        lemma_fields_view(fs.drop_last());
        assert(forall|i: int| 0 <= i < fs.len() - 1 ==> fs.drop_last()[i] == fs[i]);
    }
}

/// Erase every lifetime tag in a type.
pub open spec fn erase_ty(t: TyView) -> TyView
    decreases t,
{
    match t {
        TyView::Array { elem, len } => TyView::Array { elem: Box::new(erase_ty(*elem)), len },
        TyView::Struct { sid, name, size, fields } => TyView::Struct {
            sid,
            name,
            size,
            fields: erase_fields(fields),
        },
        TyView::Ref { lt: _, mutbl, pointee } => TyView::Ref {
            lt: 0,
            mutbl,
            pointee: Box::new(erase_ty(*pointee)),
        },
        TyView::RawPtr { mutbl, pointee } => TyView::RawPtr {
            mutbl,
            pointee: Box::new(erase_ty(*pointee)),
        },
        _ => t,
    }
}

pub open spec fn erase_fields(fs: Seq<FieldTyView>) -> Seq<FieldTyView>
    decreases fs,
{
    if fs.len() == 0 {
        Seq::empty()
    } else {
        erase_fields(fs.drop_last()).push(
            FieldTyView { name: fs.last().name, ty: erase_ty(fs.last().ty) },
        )
    }
}

pub proof fn lemma_erase_fields(fs: Seq<FieldTyView>)
    ensures
        erase_fields(fs).len() == fs.len(),
        forall|i: int|
            0 <= i < fs.len() ==> erase_fields(fs)[i] == (FieldTyView {
                name: fs[i].name,
                ty: erase_ty(fs[i].ty),
            }),
    decreases fs,
{
    if fs.len() > 0 {
        lemma_erase_fields(fs.drop_last());
        assert(forall|i: int| 0 <= i < fs.len() - 1 ==> fs.drop_last()[i] == fs[i]);
    }
}

/// Whether two types agree after lifetime erasure.
pub open spec fn erased_ty_eq(a: TyView, b: TyView) -> bool {
    erase_ty(a) == erase_ty(b)
}

/// Decide whether two types agree modulo lifetime erasure.
#[verifier::loop_isolation(false)]
pub fn ty_eq_erased(a: &Ty, b: &Ty) -> (r: bool)
    ensures
        r == erased_ty_eq(a@, b@),
    decreases a,
{
    match (a, b) {
        (Ty::Int { bytes: x }, Ty::Int { bytes: y }) => x == y,
        (Ty::Uint { bytes: x }, Ty::Uint { bytes: y }) => x == y,
        (Ty::Bool, Ty::Bool) => true,
        (Ty::Array { elem: e1, len: l1 }, Ty::Array { elem: e2, len: l2 }) => {
            l1 == l2 && ty_eq_erased(e1, e2)
        },
        (
            Ty::Struct { sid: s1, name: n1, size: z1, fields: f1 },
            Ty::Struct { sid: s2, name: n2, size: z2, fields: f2 },
        ) => {
            proof {
                lemma_fields_view(f1@);
                lemma_fields_view(f2@);
                lemma_erase_fields(fields_view(f1@));
                lemma_erase_fields(fields_view(f2@));
                assert(erase_ty(a@) == (TyView::Struct {
                    sid: *s1,
                    name: n1@,
                    size: *z1,
                    fields: erase_fields(fields_view(f1@)),
                }));
                assert(erase_ty(b@) == (TyView::Struct {
                    sid: *s2,
                    name: n2@,
                    size: *z2,
                    fields: erase_fields(fields_view(f2@)),
                }));
            }
            if *s1 != *s2 {
                return false;
            }
            if *z1 != *z2 {
                return false;
            }
            if f1.len() != f2.len() {
                return false;
            }
            if !(*n1 == *n2) {
                return false;
            }
            let ghost ea = erase_fields(fields_view(f1@));
            let ghost eb = erase_fields(fields_view(f2@));
            let n: usize = f1.len();
            let mut i: usize = 0;
            while i < n
                invariant
                    n == f1.len() == f2.len(),
                    0 <= i <= n,
                    ea == erase_fields(fields_view(f1@)),
                    eb == erase_fields(fields_view(f2@)),
                    ea.len() == n,
                    eb.len() == n,
                    forall|j: int| 0 <= j < i ==> ea[j] == eb[j],
                    erased_ty_eq(a@, b@) == (erase_ty(a@) == erase_ty(b@)),
                decreases n - i,
            {
                proof {
                    lemma_fields_view(f1@);
                    lemma_fields_view(f2@);
                    lemma_erase_fields(fields_view(f1@));
                    lemma_erase_fields(fields_view(f2@));
                }
                let fa = &f1[i];
                let fb = &f2[i];
                let names_eq: bool = fa.name == fb.name;
                if !names_eq {
                    assert(ea[i as int].name != eb[i as int].name);
                    assert(erase_ty(a@) != erase_ty(b@));
                    return false;
                }
                if !ty_eq_erased(&fa.ty, &fb.ty) {
                    assert(ea[i as int].ty != eb[i as int].ty);
                    assert(erase_ty(a@) != erase_ty(b@));
                    return false;
                }
                assert(ea[i as int] =~= eb[i as int]);
                i = i + 1;
            }
            assert(ea =~= eb);
            assert(erase_ty(a@) =~= erase_ty(b@));
            true
        },
        (
            Ty::Ref { lt: _, mutbl: m1, pointee: p1 },
            Ty::Ref { lt: _, mutbl: m2, pointee: p2 },
        ) => m1 == m2 && ty_eq_erased(p1, p2),
        (Ty::RawPtr { mutbl: m1, pointee: p1 }, Ty::RawPtr { mutbl: m2, pointee: p2 }) => {
            m1 == m2 && ty_eq_erased(p1, p2)
        },
        (Ty::Opaque { oid: o1, size: z1 }, Ty::Opaque { oid: o2, size: z2 }) => {
            o1 == o2 && z1 == z2
        },
        _ => {
            assert(erase_ty(a@) != erase_ty(b@));
            false
        },
    }
}

/// Copy a type.
#[verifier::loop_isolation(false)]
pub fn ty_clone(t: &Ty) -> (r: Ty)
    ensures
        r@ == t@,
    decreases t,
{
    match t {
        Ty::Int { bytes } => Ty::Int { bytes: *bytes },
        Ty::Uint { bytes } => Ty::Uint { bytes: *bytes },
        Ty::Bool => Ty::Bool,
        Ty::Array { elem, len } => Ty::Array { elem: Box::new(ty_clone(elem)), len: *len },
        Ty::Struct { sid, name, size, fields } => {
            let n: usize = fields.len();
            let mut out: Vec<FieldTy> = Vec::new();
            let mut i: usize = 0;
            while i < n
                invariant
                    n == fields.len(),
                    0 <= i <= n,
                    out@.len() == i,
                    forall|j: int|
                        0 <= j < i ==> out@[j].name@ == fields@[j].name@ && ty_view(out@[j].ty)
                            == ty_view(fields@[j].ty),
                decreases n - i,
            {
                let f = &fields[i];
                out.push(FieldTy { name: f.name.clone(), ty: ty_clone(&f.ty) });
                i = i + 1;
            }
            proof {
                lemma_fields_view(out@);
                lemma_fields_view(fields@);
                assert(fields_view(out@) =~= fields_view(fields@));
            }
            let r = Ty::Struct { sid: *sid, name: name.clone(), size: *size, fields: out };
            assert(r@ =~= t@);
            r
        },
        Ty::Ref { lt, mutbl, pointee } => Ty::Ref {
            lt: *lt,
            mutbl: *mutbl,
            pointee: Box::new(ty_clone(pointee)),
        },
        Ty::RawPtr { mutbl, pointee } => Ty::RawPtr {
            mutbl: *mutbl,
            pointee: Box::new(ty_clone(pointee)),
        },
        Ty::Opaque { oid, size } => Ty::Opaque { oid: *oid, size: *size },
    }
}

/// The layout size of a type, in bytes.
pub open spec fn size_of(t: TyView) -> nat
    decreases t,
{
    match t {
        TyView::Int { bytes } => bytes as nat,
        TyView::Uint { bytes } => bytes as nat,
        TyView::Bool => 1,
        TyView::Array { elem, len } => size_of(*elem) * len as nat,
        TyView::Struct { size, .. } => size as nat,
        TyView::Ref { .. } => 8,
        TyView::RawPtr { .. } => 8,
        TyView::Opaque { size, .. } => size as nat,
    }
}

/// Every array size reachable in the type fits in a machine word.
pub open spec fn sizes_fit(t: TyView) -> bool
    decreases t,
{
    match t {
        TyView::Array { elem, len } => sizes_fit(*elem) && size_of(*elem) * len as nat
            <= u64::MAX as nat,
        _ => true,
    }
}

/// Decide whether two types are identical (lifetime tags included).
#[verifier::loop_isolation(false)]
pub fn ty_eq(a: &Ty, b: &Ty) -> (r: bool)
    ensures
        r == (a@ == b@),
    decreases a,
{
    match (a, b) {
        (Ty::Int { bytes: x }, Ty::Int { bytes: y }) => x == y,
        (Ty::Uint { bytes: x }, Ty::Uint { bytes: y }) => x == y,
        (Ty::Bool, Ty::Bool) => true,
        (Ty::Array { elem: e1, len: l1 }, Ty::Array { elem: e2, len: l2 }) => {
            l1 == l2 && ty_eq(e1, e2)
        },
        (
            Ty::Struct { sid: s1, name: n1, size: z1, fields: f1 },
            Ty::Struct { sid: s2, name: n2, size: z2, fields: f2 },
        ) => {
            proof {
                lemma_fields_view(f1@);
                lemma_fields_view(f2@);
            }
            if *s1 != *s2 || *z1 != *z2 || f1.len() != f2.len() {
                return false;
            }
            if !(*n1 == *n2) {
                return false;
            }
            let ghost va = fields_view(f1@);
            let ghost vb = fields_view(f2@);
            let n: usize = f1.len();
            let mut i: usize = 0;
            while i < n
                invariant
                    0 <= i <= n,
                    forall|j: int| 0 <= j < i ==> va[j] == vb[j],
                decreases n - i,
            {
                let fa = &f1[i];
                let fb = &f2[i];
                let names_eq: bool = fa.name == fb.name;
                if !names_eq {
                    assert(va[i as int].name != vb[i as int].name);
                    return false;
                }
                if !ty_eq(&fa.ty, &fb.ty) {
                    assert(va[i as int].ty != vb[i as int].ty);
                    return false;
                }
                assert(va[i as int] =~= vb[i as int]);
                i = i + 1;
            }
            assert(va =~= vb);
            assert(a@ =~= b@);
            true
        },
        (
            Ty::Ref { lt: t1, mutbl: m1, pointee: p1 },
            Ty::Ref { lt: t2, mutbl: m2, pointee: p2 },
        ) => t1 == t2 && m1 == m2 && ty_eq(p1, p2),
        (Ty::RawPtr { mutbl: m1, pointee: p1 }, Ty::RawPtr { mutbl: m2, pointee: p2 }) => {
            m1 == m2 && ty_eq(p1, p2)
        },
        (Ty::Opaque { oid: o1, size: z1 }, Ty::Opaque { oid: o2, size: z2 }) => {
            o1 == o2 && z1 == z2
        },
        _ => false,
    }
}

/// A labeled type: the type of a value together with the pointer identity
/// assigned to each pointer layer by the classification pass.  `args` holds
/// the labeled types one layer in: the pointee of a pointer or reference,
/// the element of an array, the fields of a struct.
#[derive(Debug, PartialEq, Eq)]
pub struct LTy {
    /// The pointer identity of this layer, if it is a pointer layer the
    /// classification pass labeled.
    pub label: Option<u32>,
    /// The unlabeled type at this layer.
    pub ty: Ty,
    /// Labeled types one layer in.
    pub args: Vec<LTy>,
}

/// Mathematical model of a labeled type.
#[verifier::ext_equal]
pub struct LTyView {
    pub label: Option<u32>,
    pub ty: TyView,
    pub args: Seq<LTyView>,
}

pub open spec fn ltys_view(ls: Seq<LTy>) -> Seq<LTyView>
    decreases ls,
{
    if ls.len() == 0 {
        Seq::empty()
    } else {
        ltys_view(ls.drop_last()).push(lty_view(ls.last()))
    }
}

pub open spec fn lty_view(l: LTy) -> LTyView
    decreases l,
{
    LTyView { label: l.label, ty: ty_view(l.ty), args: ltys_view(l.args@) }
}

impl View for LTy {
    type V = LTyView;

    open spec fn view(&self) -> LTyView {
        lty_view(*self)
    }
}

/// How `ltys_view` relates to the underlying sequence, element by element.
pub proof fn lemma_ltys_view(ls: Seq<LTy>)
    ensures
        ltys_view(ls).len() == ls.len(),
        forall|i: int| 0 <= i < ls.len() ==> ltys_view(ls)[i] == lty_view(ls[i]),
    decreases ls,
{
    if ls.len() > 0 {
        lemma_ltys_view(ls.drop_last());
        assert(forall|i: int| 0 <= i < ls.len() - 1 ==> ls.drop_last()[i] == ls[i]);
    }
}

/// Decide whether two option labels are equal.
pub fn label_eq(a: &Option<u32>, b: &Option<u32>) -> (r: bool)
    ensures
        r == (a == b),
{
    match (a, b) {
        (Option::None, Option::None) => true,
        (Option::Some(x), Option::Some(y)) => x == y,
        _ => false,
    }
}

/// Decide whether two labeled types are identical: same labels at every
/// layer and identical types.
#[verifier::loop_isolation(false)]
pub fn lty_eq(a: &LTy, b: &LTy) -> (r: bool)
    ensures
        r == (a@ == b@),
    decreases a,
{
    if !label_eq(&a.label, &b.label) {
        return false;
    }
    if !ty_eq(&a.ty, &b.ty) {
        return false;
    }
    proof {
        lemma_ltys_view(a.args@);
        lemma_ltys_view(b.args@);
    }
    if a.args.len() != b.args.len() {
        return false;
    }
    let ghost va = ltys_view(a.args@);
    let ghost vb = ltys_view(b.args@);
    let n: usize = a.args.len();
    let mut i: usize = 0;
    while i < n
        invariant
            0 <= i <= n,
            forall|j: int| 0 <= j < i ==> va[j] == vb[j],
        decreases n - i,
    {
        if !lty_eq(&a.args[i], &b.args[i]) {
            assert(va[i as int] != vb[i as int]);
            return false;
        }
        i = i + 1;
    }
    assert(va =~= vb);
    assert(a@ =~= b@);
    true
}

/// Compute the layout size of a type, or report that a nested array size
/// does not fit in a machine word.
pub fn ty_size_opt(t: &Ty) -> (r: Option<u64>)
    ensures
        match r {
            Some(s) => sizes_fit(t@) && s as nat == size_of(t@),
            None => !sizes_fit(t@),
        },
    decreases t,
{
    match t {
        Ty::Int { bytes } => Some(*bytes),
        Ty::Uint { bytes } => Some(*bytes),
        Ty::Bool => Some(1),
        Ty::Array { elem, len } => {
            match ty_size_opt(elem) {
                Some(es) => {
                    if *len == 0 {
                        proof {
                            assert(size_of(t@) == size_of(ty_view(**elem)) * 0) by (nonlinear_arith)
                                requires
                                    size_of(t@) == size_of(ty_view(**elem)) * (*len as nat),
                                    *len == 0,
                            ;
                        }
                        Some(0)
                    } else if es <= u64::MAX / *len {
                        proof {
                            assert((es as nat) * (*len as nat) <= u64::MAX as nat)
                                by (nonlinear_arith)
                                requires
                                    *len as nat > 0,
                                    es as nat <= (u64::MAX as nat) / (*len as nat),
                            ;
                            assert(size_of(t@) == (es as nat) * (*len as nat)) by (nonlinear_arith)
                                requires
                                    size_of(t@) == size_of(ty_view(**elem)) * (*len as nat),
                                    es as nat == size_of(ty_view(**elem)),
                            ;
                        }
                        Some(es * *len)
                    } else {
                        proof {
                            assert((es as nat) * (*len as nat) > u64::MAX as nat)
                                by (nonlinear_arith)
                                requires
                                    *len as nat > 0,
                                    es as nat > (u64::MAX as nat) / (*len as nat),
                            ;
                            assert(size_of(ty_view(**elem)) * (*len as nat) > u64::MAX as nat)
                                by (nonlinear_arith)
                                requires
                                    (es as nat) * (*len as nat) > u64::MAX as nat,
                                    es as nat == size_of(ty_view(**elem)),
                            ;
                        }
                        None
                    }
                },
                None => None,
            }
        },
        Ty::Struct { size, .. } => Some(*size),
        Ty::Ref { .. } => Some(8),
        Ty::RawPtr { .. } => Some(8),
        Ty::Opaque { size, .. } => Some(*size),
    }
}

/// Whether this type is a reference or raw pointer.
pub open spec fn spec_is_any_ptr(t: TyView) -> bool {
    t is Ref || t is RawPtr
}

impl Ty {
    /// Whether this type is a reference or raw pointer.
    pub fn is_any_ptr(&self) -> (r: bool)
        ensures
            r == spec_is_any_ptr(self@),
    {
        match self {
            Ty::Ref { .. } => true,
            Ty::RawPtr { .. } => true,
            _ => false,
        }
    }

    /// Whether this type is a raw pointer.
    pub fn is_raw_ptr(&self) -> (r: bool)
        ensures
            r == (self@ is RawPtr),
    {
        match self {
            Ty::RawPtr { .. } => true,
            _ => false,
        }
    }
}

} // verus!
