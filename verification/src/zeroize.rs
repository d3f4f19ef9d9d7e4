//! Zero-fill plans: a structural recipe for safely writing all-zero
//! values into a typed location, derived by pure recursion over the type.

use vstd::prelude::*;
use crate::ty::{fields_view, lemma_fields_view, ty_view, FieldTy, Ty, TyView};

verus! {

broadcast use vstd::std_specs::vec::group_vec_axioms;

/// A zero-fill plan.
#[derive(Debug, PartialEq, Eq)]
pub enum ZeroizeType {
    /// Zeroize by storing the literal `0`.
    Int,
    /// Zeroize by storing the literal `false`.
    Bool,
    /// Zeroize every element with the inner plan.
    Array(Box<ZeroizeType>),
    /// Zeroize each named field of the named struct with its own plan.
    Struct(String, Vec<(String, ZeroizeType)>),
}

/// Mathematical model of a zero-fill plan.
#[verifier::ext_equal]
pub enum ZeroizeTypeView {
    Int,
    Bool,
    Array(Box<ZeroizeTypeView>),
    Struct(Seq<char>, Seq<(Seq<char>, ZeroizeTypeView)>),
}

pub open spec fn zeroize_pairs_view(ps: Seq<(String, ZeroizeType)>) -> Seq<
    (Seq<char>, ZeroizeTypeView),
>
    decreases ps,
{
    if ps.len() == 0 {
        Seq::empty()
    } else {
        zeroize_pairs_view(ps.drop_last()).push((ps.last().0@, zeroize_view(ps.last().1)))
    }
}

pub open spec fn zeroize_view(z: ZeroizeType) -> ZeroizeTypeView
    decreases z,
{
    match z {
        ZeroizeType::Int => ZeroizeTypeView::Int,
        ZeroizeType::Bool => ZeroizeTypeView::Bool,
        ZeroizeType::Array(inner) => ZeroizeTypeView::Array(Box::new(zeroize_view(*inner))),
        ZeroizeType::Struct(name, fields) => ZeroizeTypeView::Struct(
            name@,
            zeroize_pairs_view(fields@),
        ),
    }
}

impl View for ZeroizeType {
    type V = ZeroizeTypeView;

    open spec fn view(&self) -> ZeroizeTypeView {
        zeroize_view(*self)
    }
}

pub proof fn lemma_zeroize_pairs_view(ps: Seq<(String, ZeroizeType)>)
    ensures
        zeroize_pairs_view(ps).len() == ps.len(),
        forall|i: int|
            0 <= i < ps.len() ==> zeroize_pairs_view(ps)[i] == (ps[i].0@, zeroize_view(ps[i].1)),
    decreases ps,
{
    if ps.len() > 0 {
        lemma_zeroize_pairs_view(ps.drop_last());
        assert(forall|i: int| 0 <= i < ps.len() - 1 ==> ps.drop_last()[i] == ps[i]);
    }
}

/// The zero-fill plan a type admits, if any: integers and booleans zero as
/// literals, arrays zero every element, structs zero every named field in
/// order, and any other type — notably pointers — admits no plan at all.
pub open spec fn zeroize_of(t: TyView) -> Option<ZeroizeTypeView>
    decreases t,
{
    match t {
        TyView::Int { .. } => Some(ZeroizeTypeView::Int),
        TyView::Uint { .. } => Some(ZeroizeTypeView::Int),
        TyView::Bool => Some(ZeroizeTypeView::Bool),
        TyView::Array { elem, .. } => match zeroize_of(*elem) {
            Some(z) => Some(ZeroizeTypeView::Array(Box::new(z))),
            None => None,
        },
        TyView::Struct { name, fields, .. } => match zeroize_of_fields(fields) {
            Some(fs) => Some(ZeroizeTypeView::Struct(name, fs)),
            None => None,
        },
        _ => None,
    }
}

/// The zero-fill plans of a field list, or failure if any field admits
/// none.
pub open spec fn zeroize_of_fields(fs: Seq<crate::ty::FieldTyView>) -> Option<
    Seq<(Seq<char>, ZeroizeTypeView)>,
>
    decreases fs,
{
    if fs.len() == 0 {
        Some(Seq::empty())
    } else {
        match (zeroize_of_fields(fs.drop_last()), zeroize_of(fs.last().ty)) {
            (Some(rest), Some(z)) => Some(rest.push((fs.last().name, z))),
            _ => None,
        }
    }
}

/// A field list has a plan exactly when every field's type has one, and
/// the plan keeps the fields' names and order.
pub proof fn lemma_zeroize_of_fields(fs: Seq<crate::ty::FieldTyView>)
    ensures
        zeroize_of_fields(fs) is Some <==> (forall|i: int|
            0 <= i < fs.len() ==> zeroize_of(#[trigger] fs[i].ty) is Some),
        zeroize_of_fields(fs) is Some ==> zeroize_of_fields(fs)->Some_0.len() == fs.len(),
        zeroize_of_fields(fs) is Some ==> forall|i: int|
            0 <= i < fs.len() ==> zeroize_of_fields(fs)->Some_0[i] == (
            fs[i].name,
            zeroize_of(fs[i].ty)->Some_0,
            ),
    decreases fs,
{
    if fs.len() > 0 {
        lemma_zeroize_of_fields(fs.drop_last());
        assert(forall|i: int| 0 <= i < fs.len() - 1 ==> fs.drop_last()[i] == fs[i]);
        assert(fs[fs.len() - 1] == fs.last());
    }
}

/// Law: a struct whose fields are all primitive — integers and booleans —
/// derives a plan that keeps the fields' names and order, each zeroed by
/// its own literal.
pub proof fn lemma_zeroize_all_primitive(
    sid: u64,
    name: Seq<char>,
    size: u64,
    fields: Seq<crate::ty::FieldTyView>,
)
    requires
        forall|i: int|
            0 <= i < fields.len() ==> ((#[trigger] fields[i].ty) is Int || fields[i].ty is Uint
                || fields[i].ty is Bool),
    ensures
        ({
            let t = TyView::Struct { sid, name, size, fields };
            &&& zeroize_of(t) is Some
            &&& zeroize_of(t)->Some_0 matches ZeroizeTypeView::Struct(n, ps) && n == name
                && ps.len() == fields.len() && (forall|i: int|
                0 <= i < fields.len() ==> (#[trigger] ps[i]).0 == fields[i].name && ps[i].1
                    == zeroize_of(fields[i].ty)->Some_0)
        }),
{
    lemma_zeroize_of_fields(fields);
    assert(forall|i: int| 0 <= i < fields.len() ==> zeroize_of(#[trigger] fields[i].ty) is Some);
}

/// Law: a struct with any pointer-typed field derives no plan at all —
/// the failure is total, never a partial plan.
pub proof fn lemma_zeroize_pointer_field(
    sid: u64,
    name: Seq<char>,
    size: u64,
    fields: Seq<crate::ty::FieldTyView>,
    j: int,
)
    requires
        0 <= j < fields.len(),
        fields[j].ty is Ref || fields[j].ty is RawPtr,
    ensures
        zeroize_of(TyView::Struct { sid, name, size, fields }) is None,
{
    lemma_zeroize_of_fields(fields);
    assert(zeroize_of(fields[j].ty) is None);
}

/// The view of an optional plan.
pub open spec fn opt_zeroize_view(o: Option<ZeroizeType>) -> Option<ZeroizeTypeView> {
    match o {
        Some(z) => Some(zeroize_view(z)),
        None => None,
    }
}

impl ZeroizeType {
    /// Derive the zero-fill plan for a type, or fail if the type holds
    /// anything — notably a pointer — that cannot be zeroed structurally.
    #[verifier::loop_isolation(false)]
    pub fn from_ty(ty: &Ty) -> (r: Option<ZeroizeType>)
        ensures
            opt_zeroize_view(r) == zeroize_of(ty@),
        decreases ty,
    {
        match ty {
            Ty::Int { .. } => Some(ZeroizeType::Int),
            Ty::Uint { .. } => Some(ZeroizeType::Int),
            Ty::Bool => Some(ZeroizeType::Bool),
            Ty::Array { elem, .. } => {
                match Self::from_ty(elem) {
                    Some(z) => Some(ZeroizeType::Array(Box::new(z))),
                    None => None,
                }
            },
            Ty::Struct { sid: _, name, size: _, fields } => {
                proof {
                    lemma_fields_view(fields@);
                    lemma_zeroize_of_fields(fields_view(fields@));
                }
                let ghost fsv = fields_view(fields@);
                let n: usize = fields.len();
                let mut out: Vec<(String, ZeroizeType)> = Vec::new();
                let mut i: usize = 0;
                while i < n
                    invariant
                        0 <= i <= n,
                        out@.len() == i,
                        forall|j: int| 0 <= j < i ==> zeroize_of(#[trigger] fsv[j].ty) is Some,
                        forall|j: int|
                            0 <= j < i ==> (#[trigger] out@[j]).0@ == fsv[j].name && zeroize_view(
                                out@[j].1,
                            ) == zeroize_of(fsv[j].ty)->Some_0,
                    decreases n - i,
                {
                    let f: &FieldTy = &fields[i];
                    let z = match Self::from_ty(&f.ty) {
                        Some(z) => z,
                        None => {
                            assert(zeroize_of(fsv[i as int].ty) is None);
                            assert(zeroize_of_fields(fsv) is None);
                            return None;
                        },
                    };
                    proof {
                        assert(ty_view(fields@[i as int].ty) == fsv[i as int].ty);
                    }
                    let entry = (f.name.clone(), z);
                    out.push(entry);
                    i = i + 1;
                }
                proof {
                    lemma_zeroize_pairs_view(out@);
                    assert(zeroize_of_fields(fsv) is Some);
                    assert(zeroize_pairs_view(out@) =~= zeroize_of_fields(fsv)->Some_0);
                }
                Some(ZeroizeType::Struct(name.clone(), out))
            },
            _ => None,
        }
    }
}

} // verus!
