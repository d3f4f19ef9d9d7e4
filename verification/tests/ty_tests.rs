//! Behavior of the type model: lifetime-erased comparison, deep copying,
//! and layout sizes.

use mir_rewrite::ty::{ty_clone, ty_eq, ty_eq_erased, ty_size_opt, FieldTy, Ty};

fn named(sid: u64, name: &str, fields: Vec<FieldTy>) -> Ty {
    Ty::Struct { sid, name: name.to_string(), size: 8, fields }
}

fn field(name: &str, ty: Ty) -> FieldTy {
    FieldTy { name: name.to_string(), ty }
}

#[test]
fn erasure_ignores_lifetimes_at_any_depth() {
    let a = Ty::Ref {
        lt: 1,
        mutbl: false,
        pointee: Box::new(Ty::Ref { lt: 2, mutbl: true, pointee: Box::new(Ty::Bool) }),
    };
    let b = Ty::Ref {
        lt: 9,
        mutbl: false,
        pointee: Box::new(Ty::Ref { lt: 4, mutbl: true, pointee: Box::new(Ty::Bool) }),
    };
    assert!(ty_eq_erased(&a, &b));
    assert!(!ty_eq(&a, &b));
}

#[test]
fn erasure_keeps_mutability_and_structure_apart() {
    let a = Ty::Ref { lt: 0, mutbl: false, pointee: Box::new(Ty::Bool) };
    let b = Ty::Ref { lt: 0, mutbl: true, pointee: Box::new(Ty::Bool) };
    assert!(!ty_eq_erased(&a, &b));

    let s1 = named(1, "s", vec![field("a", Ty::Bool)]);
    let s2 = named(2, "s", vec![field("a", Ty::Bool)]);
    assert!(!ty_eq_erased(&s1, &s2));
}

#[test]
fn struct_equality_compares_fields_in_order() {
    let s1 = named(1, "s", vec![field("a", Ty::Bool), field("b", Ty::Uint { bytes: 4 })]);
    let s2 = named(1, "s", vec![field("a", Ty::Bool), field("b", Ty::Uint { bytes: 4 })]);
    let s3 = named(1, "s", vec![field("b", Ty::Uint { bytes: 4 }), field("a", Ty::Bool)]);
    assert!(ty_eq(&s1, &s2));
    assert!(!ty_eq(&s1, &s3));
}

#[test]
fn clone_is_deep() {
    let t = named(
        3,
        "outer",
        vec![field("xs", Ty::Array { elem: Box::new(Ty::Int { bytes: 2 }), len: 3 })],
    );
    let c = ty_clone(&t);
    assert!(ty_eq(&t, &c));
    assert_eq!(t, c);
}

#[test]
fn sizes_follow_the_layout() {
    assert_eq!(ty_size_opt(&Ty::Uint { bytes: 4 }), Some(4));
    assert_eq!(ty_size_opt(&Ty::Bool), Some(1));
    assert_eq!(
        ty_size_opt(&Ty::Array { elem: Box::new(Ty::Uint { bytes: 4 }), len: 16 }),
        Some(64)
    );
    assert_eq!(ty_size_opt(&named(4, "s", vec![])), Some(8));
    assert_eq!(
        ty_size_opt(&Ty::RawPtr { mutbl: true, pointee: Box::new(Ty::Bool) }),
        Some(8)
    );
}

#[test]
fn oversized_array_reports_no_size() {
    let huge = Ty::Array {
        elem: Box::new(Ty::Array { elem: Box::new(Ty::Uint { bytes: 8 }), len: u64::MAX / 2 }),
        len: 4,
    };
    assert_eq!(ty_size_opt(&huge), None);
}
