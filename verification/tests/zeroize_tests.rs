//! Behavior of the zero-fill plan deriver on concrete types.

use mir_rewrite::ty::{FieldTy, Ty};
use mir_rewrite::zeroize::ZeroizeType;

fn field(name: &str, ty: Ty) -> FieldTy {
    FieldTy { name: name.to_string(), ty }
}

#[test]
fn integers_and_booleans_zero_as_literals() {
    assert_eq!(ZeroizeType::from_ty(&Ty::Uint { bytes: 4 }), Some(ZeroizeType::Int));
    assert_eq!(ZeroizeType::from_ty(&Ty::Int { bytes: 8 }), Some(ZeroizeType::Int));
    assert_eq!(ZeroizeType::from_ty(&Ty::Bool), Some(ZeroizeType::Bool));
}

#[test]
fn all_primitive_struct_keeps_field_names_and_order() {
    let t = Ty::Struct {
        sid: 7,
        name: "pair".to_string(),
        size: 8,
        fields: vec![field("count", Ty::Uint { bytes: 4 }), field("flag", Ty::Bool)],
    };
    let plan = ZeroizeType::from_ty(&t).unwrap();
    assert_eq!(
        plan,
        ZeroizeType::Struct(
            "pair".to_string(),
            vec![
                ("count".to_string(), ZeroizeType::Int),
                ("flag".to_string(), ZeroizeType::Bool),
            ],
        )
    );
}

#[test]
fn pointer_field_forbids_any_plan() {
    let t = Ty::Struct {
        sid: 8,
        name: "node".to_string(),
        size: 16,
        fields: vec![
            field("len", Ty::Uint { bytes: 8 }),
            field(
                "next",
                Ty::RawPtr { mutbl: true, pointee: Box::new(Ty::Uint { bytes: 4 }) },
            ),
        ],
    };
    assert_eq!(ZeroizeType::from_ty(&t), None);
}

#[test]
fn reference_field_forbids_any_plan() {
    let t = Ty::Struct {
        sid: 9,
        name: "view".to_string(),
        size: 8,
        fields: vec![field(
            "inner",
            Ty::Ref { lt: 0, mutbl: false, pointee: Box::new(Ty::Bool) },
        )],
    };
    assert_eq!(ZeroizeType::from_ty(&t), None);
}

#[test]
fn array_zeroes_every_element() {
    let t = Ty::Array { elem: Box::new(Ty::Uint { bytes: 2 }), len: 16 };
    assert_eq!(
        ZeroizeType::from_ty(&t),
        Some(ZeroizeType::Array(Box::new(ZeroizeType::Int)))
    );
}

#[test]
fn array_of_pointers_has_no_plan() {
    let t = Ty::Array {
        elem: Box::new(Ty::RawPtr { mutbl: false, pointee: Box::new(Ty::Bool) }),
        len: 4,
    };
    assert_eq!(ZeroizeType::from_ty(&t), None);
}

#[test]
fn nested_struct_failure_propagates_whole() {
    let inner = Ty::Struct {
        sid: 10,
        name: "inner".to_string(),
        size: 8,
        fields: vec![field(
            "p",
            Ty::RawPtr { mutbl: true, pointee: Box::new(Ty::Uint { bytes: 1 }) },
        )],
    };
    let outer = Ty::Struct {
        sid: 11,
        name: "outer".to_string(),
        size: 16,
        fields: vec![field("a", Ty::Uint { bytes: 8 }), field("b", inner)],
    };
    assert_eq!(ZeroizeType::from_ty(&outer), None);
}

#[test]
fn nested_struct_of_primitives_recurses() {
    let inner = Ty::Struct {
        sid: 12,
        name: "inner".to_string(),
        size: 2,
        fields: vec![field("x", Ty::Bool), field("y", Ty::Bool)],
    };
    let outer = Ty::Struct {
        sid: 13,
        name: "outer".to_string(),
        size: 8,
        fields: vec![field("a", Ty::Uint { bytes: 4 }), field("b", inner)],
    };
    assert_eq!(
        ZeroizeType::from_ty(&outer),
        Some(ZeroizeType::Struct(
            "outer".to_string(),
            vec![
                ("a".to_string(), ZeroizeType::Int),
                (
                    "b".to_string(),
                    ZeroizeType::Struct(
                        "inner".to_string(),
                        vec![
                            ("x".to_string(), ZeroizeType::Bool),
                            ("y".to_string(), ZeroizeType::Bool),
                        ],
                    ),
                ),
            ],
        ))
    );
}

#[test]
fn opaque_types_have_no_plan() {
    assert_eq!(ZeroizeType::from_ty(&Ty::Opaque { oid: 1, size: 24 }), None);
}
