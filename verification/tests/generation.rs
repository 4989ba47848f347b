use num_derive::discriminant::resolve_discriminants;
use num_derive::from_integer::widen_unsigned;
use num_derive::mangle::mangle_scope_name;
use num_derive::model::{
    FieldKind, FromIntegerImpl, GeneratedImpl, ToIntegerImpl, TypeDefinition, TypeKind, Variant,
};
use num_derive::to_integer::reinterpret_signed;
use num_derive::validate::{validate, Capability, GenerationError};
use num_derive::{from_primitive, to_primitive};

fn unit(ident: &str) -> Variant {
    Variant { ident: ident.to_string(), field_kind: FieldKind::Unit, discriminant: None }
}

fn unit_with(ident: &str, value: i64) -> Variant {
    Variant { ident: ident.to_string(), field_kind: FieldKind::Unit, discriminant: Some(value) }
}

fn enumeration(name: &str, variants: Vec<Variant>) -> TypeDefinition {
    TypeDefinition { name: name.to_string(), kind: TypeKind::Enumeration, variants }
}

fn expect_from(def: &TypeDefinition) -> FromIntegerImpl {
    match from_primitive(def) {
        Ok(m) => match m.body {
            GeneratedImpl::FromInteger(fi) => fi,
            GeneratedImpl::ToInteger(_) => panic!("wrong implementation kind"),
        },
        Err(e) => panic!("generation failed: {:?}", e),
    }
}

fn expect_to(def: &TypeDefinition) -> ToIntegerImpl {
    match to_primitive(def) {
        Ok(m) => match m.body {
            GeneratedImpl::ToInteger(ti) => ti,
            GeneratedImpl::FromInteger(_) => panic!("wrong implementation kind"),
        },
        Err(e) => panic!("generation failed: {:?}", e),
    }
}

fn color() -> TypeDefinition {
    enumeration("Color", vec![unit("Red"), unit("Blue"), unit_with("Green", 42)])
}

#[test]
fn explicit_discriminant_conversions() {
    let def = color();
    let fi = expect_from(&def);
    let ti = expect_to(&def);
    assert_eq!(fi.clauses.len(), 3);
    assert_eq!(fi.clauses[0].variant_ident, "Red");
    assert_eq!(fi.clauses[0].value, 0);
    assert_eq!(fi.clauses[1].variant_ident, "Blue");
    assert_eq!(fi.clauses[1].value, 1);
    assert_eq!(fi.clauses[2].variant_ident, "Green");
    assert_eq!(fi.clauses[2].value, 42);
    assert_eq!(ti.to_i64(2), Some(42));
    assert_eq!(fi.from_i64(42), Some(2));
    assert_eq!(fi.from_i64(2), None);
    assert_eq!(fi.from_i64(0), Some(0));
    assert_eq!(fi.from_i64(1), Some(1));
}

#[test]
fn implicit_round_trip() {
    let def = enumeration("Direction", vec![unit("North"), unit("East"), unit("South"), unit("West")]);
    let fi = expect_from(&def);
    let ti = expect_to(&def);
    for i in 0..4usize {
        let n = ti.to_i64(i).expect("value present");
        assert_eq!(n, i as i64);
        assert_eq!(fi.from_i64(n), Some(i));
    }
}

#[test]
fn zero_variant_enumeration() {
    let def = enumeration("Never", vec![]);
    let fi = expect_from(&def);
    let ti = expect_to(&def);
    assert!(fi.clauses.is_empty());
    assert!(ti.arms.is_empty());
    for n in [0i64, 1, -1, i64::MAX, i64::MIN] {
        assert_eq!(fi.from_i64(n), None);
    }
    for n in [0u64, 7, u64::MAX] {
        assert_eq!(fi.from_u64(n), None);
    }
}

#[test]
fn rejects_structure() {
    let def = TypeDefinition {
        name: "Color".to_string(),
        kind: TypeKind::Structure,
        variants: vec![],
    };
    let err = from_primitive(&def).unwrap_err();
    assert_eq!(
        err,
        GenerationError::NotAnEnumeration {
            capability: Capability::FromPrimitive,
            name: "Color".to_string(),
        }
    );
    assert_eq!(
        err.message(),
        "`FromPrimitive` can be applied only to the enums, Color is not an enum"
    );
}

#[test]
fn rejects_union() {
    let def = TypeDefinition {
        name: "Blob".to_string(),
        kind: TypeKind::Union,
        variants: vec![],
    };
    assert!(validate(&def, Capability::ToPrimitive).is_err());
    let err = to_primitive(&def).unwrap_err();
    assert_eq!(
        err.message(),
        "`ToPrimitive` can be applied only to the enums, Blob is not an enum"
    );
}

#[test]
fn rejects_data_variant() {
    let def = enumeration(
        "Color",
        vec![
            unit("Plain"),
            Variant {
                ident: "Rgb".to_string(),
                field_kind: FieldKind::PositionalData,
                discriminant: None,
            },
            Variant {
                ident: "Named".to_string(),
                field_kind: FieldKind::NamedData,
                discriminant: None,
            },
        ],
    );
    let err = from_primitive(&def).unwrap_err();
    assert_eq!(
        err,
        GenerationError::NonUnitVariant {
            capability: Capability::FromPrimitive,
            name: "Color".to_string(),
            variant_name: "Rgb".to_string(),
        }
    );
    assert_eq!(
        err.message(),
        "`FromPrimitive` can be applied only to unitary enums, Color::Rgb is either struct or tuple"
    );
    let err = to_primitive(&def).unwrap_err();
    assert_eq!(
        err.message(),
        "`ToPrimitive` can be applied only to unitary enums, Color::Rgb is either struct or tuple"
    );
}

#[test]
fn duplicate_discriminant_first_wins() {
    let def = enumeration("Twice", vec![unit_with("A", 5), unit_with("B", 5)]);
    let fi = expect_from(&def);
    assert_eq!(fi.from_i64(5), Some(0));
    let ti = expect_to(&def);
    assert_eq!(ti.to_i64(0), Some(5));
    assert_eq!(ti.to_i64(1), Some(5));
}

#[test]
fn unsigned_delegates_to_signed() {
    let def = enumeration("Signed", vec![unit_with("Minus", -1), unit_with("Five", 5)]);
    let fi = expect_from(&def);
    assert_eq!(fi.from_u64(5), fi.from_i64(5));
    assert_eq!(fi.from_u64(5), Some(1));
    assert_eq!(widen_unsigned(u64::MAX), -1);
    assert_eq!(fi.from_u64(u64::MAX), Some(0));
    assert_eq!(fi.from_u64(u64::MAX), fi.from_i64(-1));
}

#[test]
fn unsigned_accessor_reinterprets() {
    let def = enumeration("Signed", vec![unit_with("Minus", -1), unit_with("Bottom", i64::MIN)]);
    let ti = expect_to(&def);
    assert_eq!(ti.to_u64(0), Some(u64::MAX));
    assert_eq!(ti.to_u64(1), Some(0x8000_0000_0000_0000));
    assert_eq!(reinterpret_signed(7), 7);
}

#[test]
fn scope_names() {
    let def = color();
    let from_module = from_primitive(&def).unwrap();
    assert_eq!(from_module.scope_name, "_IMPL_NUM_FROMPRIMATIVE_FOR_COLOR");
    let to_module = to_primitive(&def).unwrap();
    assert_eq!(to_module.scope_name, "_IMPL_NUM_TOPRIMATIVE_FOR_COLOR");
    assert_eq!(
        mangle_scope_name("ToPrimative", "lower_snake"),
        "_IMPL_NUM_TOPRIMATIVE_FOR_LOWER_SNAKE"
    );
}

#[test]
fn explicit_then_implicit_resolution() {
    let vs = vec![unit_with("A", 5), unit("B"), unit("C"), unit_with("D", -3), unit("E")];
    assert_eq!(resolve_discriminants(&vs), vec![5, 6, 7, -3, -2]);
}

#[test]
fn implicit_numbering_starts_at_zero() {
    let vs = vec![unit("A"), unit("B")];
    assert_eq!(resolve_discriminants(&vs), vec![0, 1]);
}

#[test]
fn successor_wraps_at_signed_maximum() {
    let vs = vec![unit_with("Top", i64::MAX), unit("Next")];
    assert_eq!(resolve_discriminants(&vs), vec![i64::MAX, i64::MIN]);
}

#[test]
fn validate_accepts_unit_enumeration() {
    let def = color();
    assert_eq!(validate(&def, Capability::FromPrimitive), Ok(()));
}
