//! The pointer-shape model: the four-axis descriptor (ownership,
//! multiplicity, nullability, dynamic ownership) plus the pointee type.

use vstd::prelude::*;
use crate::ty::{ty_clone, ty_eq, Ty, TyView};

verus! {

/// The ownership discipline a pointer adopts after rewriting.
#[derive(Clone, Copy, PartialEq, Eq, Structural, Debug)]
pub enum Ownership {
    /// The pointer uniquely owns its pointee.
    Owning,
    /// The pointer shares ownership of its pointee through reference
    /// counting.
    Counted,
    /// A mutable borrow.
    Mut,
    /// An immutable borrow.
    Imm,
    /// A shared reference to a mutable cell.
    Cell,
    /// A raw mutable pointer.
    RawMut,
    /// A raw immutable pointer.
    Raw,
}

impl Ownership {
    /// Whether a pointer of this ownership can be freely duplicated.
    pub open spec fn spec_is_copy(self) -> bool {
        match self {
            Ownership::Imm => true,
            Ownership::Cell => true,
            Ownership::RawMut => true,
            Ownership::Raw => true,
            _ => false,
        }
    }

    /// Whether a pointer of this ownership can be freely duplicated.
    #[verifier::when_used_as_spec(spec_is_copy)]
    pub fn is_copy(self) -> (r: bool)
        ensures
            r == self.spec_is_copy(),
    {
        match self {
            Ownership::Imm => true,
            Ownership::Cell => true,
            Ownership::RawMut => true,
            Ownership::Raw => true,
            _ => false,
        }
    }
}

/// How many values the pointer gives access to.
#[derive(Clone, Copy, PartialEq, Eq, Structural, Debug)]
pub enum Quantity {
    /// A pointer to a single value.
    Single,
    /// A pointer to a bounded run of values.
    Slice,
    /// A pointer that may be offset in either direction within an
    /// allocation; same representation as `Slice`.
    OffsetPtr,
    /// A fixed-size array.
    Array,
}

/// A pointer shape: the four axes plus the pointee type.
#[derive(Debug, PartialEq, Eq)]
pub struct TypeDesc {
    pub own: Ownership,
    pub qty: Quantity,
    /// Whether ownership of the pointee is tracked dynamically, so the
    /// value can be explicitly taken or relinquished.
    pub dyn_owned: bool,
    /// Whether the pointer may be absent.
    pub option: bool,
    pub pointee_ty: Ty,
}

/// Mathematical model of a pointer shape.
#[verifier::ext_equal]
pub struct TypeDescView {
    pub own: Ownership,
    pub qty: Quantity,
    pub dyn_owned: bool,
    pub option: bool,
    pub pointee_ty: TyView,
}

impl View for TypeDesc {
    type V = TypeDescView;

    open spec fn view(&self) -> TypeDescView {
        TypeDescView {
            own: self.own,
            qty: self.qty,
            dyn_owned: self.dyn_owned,
            option: self.option,
            pointee_ty: self.pointee_ty@,
        }
    }
}

impl TypeDescView {
    /// The same shape with another pointee type.
    pub open spec fn with_pointee(self, t: TyView) -> TypeDescView {
        TypeDescView { pointee_ty: t, ..self }
    }
}

/// Decide whether two shapes are identical on all four axes and the
/// pointee type.
pub fn desc_eq(a: &TypeDesc, b: &TypeDesc) -> (r: bool)
    ensures
        r == (a@ == b@),
{
    let r = a.own == b.own && a.qty == b.qty && a.dyn_owned == b.dyn_owned && a.option == b.option
        && ty_eq(&a.pointee_ty, &b.pointee_ty);
    proof {
        if r {
            assert(a@ =~= b@);
        }
    }
    r
}

/// Copy a shape.
pub fn desc_clone(d: &TypeDesc) -> (r: TypeDesc)
    ensures
        r@ == d@,
{
    let r = TypeDesc {
        own: d.own,
        qty: d.qty,
        dyn_owned: d.dyn_owned,
        option: d.option,
        pointee_ty: ty_clone(&d.pointee_ty),
    };
    assert(r@ =~= d@);
    r
}

} // verus!
