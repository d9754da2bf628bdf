//! Structural diffing of shape descriptors.

use facet_owned_shape::diff::{Diff, Value};
use facet_owned_shape::{
    OwnedArrayDef, OwnedDef, OwnedEnumType, OwnedField, OwnedNumericType, OwnedPrimitiveType,
    OwnedSequenceType, OwnedShape, OwnedStructType, OwnedTextualType, OwnedType, OwnedUserType,
    OwnedVariant,
};

fn prim(id: &str, p: OwnedPrimitiveType, size: usize) -> OwnedShape {
    OwnedShape {
        type_identifier: id.to_string(),
        def: Box::new(OwnedDef::Scalar),
        ty: Box::new(OwnedType::Primitive(p)),
        size: Some(size),
    }
}

fn uint(id: &str, size: usize) -> OwnedShape {
    prim(
        id,
        OwnedPrimitiveType::Numeric(OwnedNumericType::Integer { signed: false }),
        size,
    )
}

fn sint(id: &str, size: usize) -> OwnedShape {
    prim(
        id,
        OwnedPrimitiveType::Numeric(OwnedNumericType::Integer { signed: true }),
        size,
    )
}

fn string_shape() -> OwnedShape {
    OwnedShape {
        type_identifier: "String".to_string(),
        def: Box::new(OwnedDef::Scalar),
        ty: Box::new(OwnedType::User(OwnedUserType::Opaque)),
        size: None,
    }
}

fn bool_shape() -> OwnedShape {
    prim("bool", OwnedPrimitiveType::Boolean, 1)
}

fn u8_shape() -> OwnedShape {
    uint("u8", 1)
}

fn field(name: &str, shape: OwnedShape) -> OwnedField {
    OwnedField { name: name.to_string(), shape, doc: vec![], tags: vec![] }
}

fn record(id: &str, fields: Vec<OwnedField>) -> OwnedShape {
    OwnedShape {
        type_identifier: id.to_string(),
        def: Box::new(OwnedDef::Undefined),
        ty: Box::new(OwnedType::User(OwnedUserType::Struct(OwnedStructType { fields }))),
        size: None,
    }
}

fn unit_variant(name: &str) -> OwnedVariant {
    OwnedVariant {
        name: name.to_string(),
        data: OwnedStructType { fields: vec![] },
        doc: vec![],
    }
}

fn sum_type(id: &str, variants: Vec<OwnedVariant>) -> OwnedShape {
    OwnedShape {
        type_identifier: id.to_string(),
        def: Box::new(OwnedDef::Undefined),
        ty: Box::new(OwnedType::User(OwnedUserType::Enum(OwnedEnumType { variants }))),
        size: None,
    }
}

fn byte_array(id: &str, n: usize) -> OwnedShape {
    OwnedShape {
        type_identifier: id.to_string(),
        def: Box::new(OwnedDef::Array(OwnedArrayDef { t: u8_shape(), n })),
        ty: Box::new(OwnedType::Sequence(OwnedSequenceType { t: u8_shape() })),
        size: Some(n),
    }
}

fn optional(inner: OwnedShape) -> OwnedShape {
    OwnedShape {
        type_identifier: "Option".to_string(),
        def: Box::new(OwnedDef::Option(facet_owned_shape::OwnedOptionDef { t: inner })),
        ty: Box::new(OwnedType::User(OwnedUserType::Opaque)),
        size: None,
    }
}

fn simple_struct() -> OwnedShape {
    record(
        "SimpleStruct",
        vec![field("id", uint("u32", 4)), field("name", string_shape())],
    )
}

#[test]
fn test_equal_shapes() {
    let shape1 = simple_struct();
    let shape2 = simple_struct();

    let diff = Diff::new(&shape1, &shape2);
    assert!(diff.is_equal(), "Same shapes should be equal");
}

#[test]
fn test_different_primitive_types() {
    let shape1 = record("IntStruct", vec![field("value", sint("i32", 4))]);
    let shape2 = record("StringStruct", vec![field("value", string_shape())]);

    let diff = Diff::new(&shape1, &shape2);
    assert!(!diff.is_equal(), "Different primitive types should not be equal");
}

#[test]
fn test_nested_struct_change() {
    let address = record(
        "Address",
        vec![field("street", string_shape()), field("city", string_shape())],
    );
    let shape1 = record(
        "PersonWithAddress",
        vec![field("name", string_shape()), field("address", address)],
    );
    let simple_address = record("SimpleAddress", vec![field("city", string_shape())]);
    let shape2 = record(
        "PersonWithSimpleAddress",
        vec![field("name", string_shape()), field("address", simple_address)],
    );

    let diff = Diff::new(&shape1, &shape2);
    assert!(!diff.is_equal(), "Nested struct changes should be detected");

    match diff {
        Diff::User { value: Value::Struct { updates, .. }, .. } => {
            assert!(
                updates.iter().any(|(n, _)| n == "address"),
                "Should have address as updated"
            );
        }
        _ => panic!("Expected User diff with Struct value"),
    }
}

#[test]
fn test_array_size_change() {
    let shape1 = record("SmallArray", vec![field("data", byte_array("[u8; 10]", 10))]);
    let shape2 = record("LargeArray", vec![field("data", byte_array("[u8; 20]", 20))]);

    let diff = Diff::new(&shape1, &shape2);
    assert!(!diff.is_equal(), "Different array sizes should not be equal");
}

#[test]
fn test_option_type_change() {
    let shape1 = record("RequiredField", vec![field("value", string_shape())]);
    let shape2 = record("OptionalField", vec![field("value", optional(string_shape()))]);

    let diff = Diff::new(&shape1, &shape2);
    assert!(!diff.is_equal(), "Required vs optional should not be equal");
}

#[test]
fn test_enum_shapes() {
    let shape1 = sum_type("StatusV1", vec![unit_variant("Active"), unit_variant("Inactive")]);
    let shape2 = sum_type(
        "StatusV2",
        vec![unit_variant("Active"), unit_variant("Inactive"), unit_variant("Pending")],
    );

    let diff = Diff::new(&shape1, &shape2);
    assert!(!diff.is_equal(), "Enums with different variants should not be equal");
}

#[test]
fn test_complex_nested_change() {
    let metadata = record(
        "Metadata",
        vec![field("version", uint("u32", 4)), field("timestamp", uint("u64", 8))],
    );
    let metadata2 = record(
        "Metadata",
        vec![field("version", uint("u32", 4)), field("timestamp", uint("u64", 8))],
    );
    let shape1 = record(
        "DataRecordV1",
        vec![
            field("id", string_shape()),
            field("data", byte_array("[u8; 32]", 32)),
            field("metadata", metadata),
        ],
    );
    let shape2 = record(
        "DataRecordV2",
        vec![
            field("id", string_shape()),
            field("data", byte_array("[u8; 64]", 64)),
            field("metadata", metadata2),
        ],
    );

    let diff = Diff::new(&shape1, &shape2);
    assert!(!diff.is_equal(), "Complex nested changes should be detected");
}

#[test]
fn test_equal_enum_shapes() {
    let color = || {
        sum_type(
            "Color",
            vec![unit_variant("Red"), unit_variant("Green"), unit_variant("Blue")],
        )
    };
    let shape1 = color();
    let shape2 = color();

    let diff = Diff::new(&shape1, &shape2);
    assert!(diff.is_equal(), "Same enum shapes should be equal");
}

#[test]
fn test_all_fields_unchanged() {
    let unchanged = || {
        record(
            "Unchanged",
            vec![
                field("a", uint("u32", 4)),
                field("b", string_shape()),
                field("c", bool_shape()),
            ],
        )
    };
    let shape1 = unchanged();
    let shape2 = unchanged();

    let diff = Diff::new(&shape1, &shape2);
    assert!(diff.is_equal(), "Identical structs should be equal");
}

#[test]
fn test_empty_structs() {
    let shape1 = record("EmptyStruct1", vec![]);
    let shape2 = record("EmptyStruct2", vec![]);

    let diff = Diff::new(&shape1, &shape2);
    // Empty structs with different names are different.
    assert!(
        !diff.is_equal(),
        "Empty structs with different type identifiers should not be equal"
    );
}

#[test]
fn test_field_order_is_irrelevant() {
    let shape1 = record(
        "Swapped",
        vec![field("a", uint("u32", 4)), field("b", string_shape())],
    );
    let shape2 = record(
        "Swapped",
        vec![field("b", string_shape()), field("a", uint("u32", 4))],
    );

    let diff = Diff::new(&shape1, &shape2);
    assert!(diff.is_equal(), "Permuting record fields must diff as Equal");
}

#[test]
fn test_rename_is_drop_and_add() {
    let shape1 = record(
        "Renamed",
        vec![field("old_name", uint("u32", 4)), field("kept", string_shape())],
    );
    let shape2 = record(
        "Renamed",
        vec![field("new_name", uint("u32", 4)), field("kept", string_shape())],
    );

    let diff = Diff::new(&shape1, &shape2);
    match diff {
        Diff::User { value: Value::Struct { updates, deletions, insertions, unchanged }, .. } => {
            assert!(updates.is_empty(), "Rename must not appear as an update");
            assert_eq!(deletions, vec!["old_name".to_string()]);
            assert_eq!(insertions, vec!["new_name".to_string()]);
            assert_eq!(unchanged, vec!["kept".to_string()]);
        }
        _ => panic!("Expected User diff with Struct value"),
    }
}

#[test]
fn test_diff_breakdown_categories() {
    let shape1 = record(
        "Breakdown",
        vec![
            field("kept", string_shape()),
            field("changed", uint("u32", 4)),
            field("dropped", bool_shape()),
        ],
    );
    let shape2 = record(
        "Breakdown",
        vec![
            field("kept", string_shape()),
            field("changed", uint("u64", 8)),
            field("added", bool_shape()),
        ],
    );

    let diff = Diff::new(&shape1, &shape2);
    match diff {
        Diff::User { value: Value::Struct { updates, deletions, insertions, unchanged }, .. } => {
            assert_eq!(updates.len(), 1);
            assert!(updates.iter().any(|(n, _)| n == "changed"));
            assert_eq!(deletions, vec!["dropped".to_string()]);
            assert_eq!(insertions, vec!["added".to_string()]);
            assert_eq!(unchanged, vec!["kept".to_string()]);
        }
        _ => panic!("Expected User diff with Struct value"),
    }
}

#[test]
fn test_field_addition() {
    let shape1 = record(
        "PersonV1",
        vec![field("name", string_shape()), field("age", uint("u32", 4))],
    );
    let shape2 = record(
        "PersonV2",
        vec![
            field("name", string_shape()),
            field("age", uint("u32", 4)),
            field("email", string_shape()),
        ],
    );

    let diff = Diff::new(&shape1, &shape2);
    assert!(!diff.is_equal(), "Shapes with different fields should not be equal");

    match diff {
        Diff::User { value: Value::Struct { insertions, unchanged, .. }, .. } => {
            assert_eq!(insertions.len(), 1, "Should have one insertion");
            assert!(
                insertions.iter().any(|n| n == "email"),
                "Should have email as insertion"
            );
            assert_eq!(unchanged.len(), 2, "Should have two unchanged fields");
        }
        _ => panic!("Expected User diff with Struct value"),
    }
}

#[test]
fn test_field_deletion() {
    let shape1 = record(
        "PersonV2",
        vec![
            field("name", string_shape()),
            field("age", uint("u32", 4)),
            field("email", string_shape()),
        ],
    );
    let shape2 = record(
        "PersonV1",
        vec![field("name", string_shape()), field("age", uint("u32", 4))],
    );

    let diff = Diff::new(&shape1, &shape2);
    assert!(!diff.is_equal(), "Shapes with different fields should not be equal");

    match diff {
        Diff::User { value: Value::Struct { deletions, unchanged, .. }, .. } => {
            assert_eq!(deletions.len(), 1, "Should have one deletion");
            assert!(
                deletions.iter().any(|n| n == "email"),
                "Should have email as deletion"
            );
            assert_eq!(unchanged.len(), 2, "Should have two unchanged fields");
        }
        _ => panic!("Expected User diff with Struct value"),
    }
}

#[test]
fn test_field_type_change() {
    let shape1 = record(
        "ConfigV1",
        vec![field("port", uint("u16", 2)), field("host", string_shape())],
    );
    let shape2 = record(
        "ConfigV2",
        vec![field("port", string_shape()), field("host", string_shape())],
    );

    let diff = Diff::new(&shape1, &shape2);
    assert!(!diff.is_equal(), "Shapes with different field types should not be equal");

    match diff {
        Diff::User { value: Value::Struct { updates, .. }, .. } => {
            assert_eq!(updates.len(), 1, "Should have one update");
            assert!(
                updates.iter().any(|(n, _)| n == "port"),
                "Should have port as updated"
            );
        }
        _ => panic!("Expected User diff with Struct value"),
    }
}

#[test]
fn test_multiple_field_updates() {
    let shape1 = record(
        "MultiFieldV1",
        vec![
            field("field1", uint("u32", 4)),
            field("field2", string_shape()),
            field("field3", bool_shape()),
        ],
    );
    let shape2 = record(
        "MultiFieldV2",
        vec![
            field("field1", uint("u64", 8)),
            field("field2", string_shape()),
            field("field3", uint("u8", 1)),
        ],
    );

    let diff = Diff::new(&shape1, &shape2);
    assert!(!diff.is_equal(), "Multiple field changes should be detected");

    match diff {
        Diff::User { value: Value::Struct { updates, unchanged, .. }, .. } => {
            assert_eq!(updates.len(), 2, "Should have two updates");
            assert!(
                updates.iter().any(|(n, _)| n == "field1"),
                "field1 should be updated"
            );
            assert!(
                updates.iter().any(|(n, _)| n == "field3"),
                "field3 should be updated"
            );
            assert_eq!(unchanged.len(), 1, "Should have one unchanged field");
            assert!(
                unchanged.iter().any(|n| n == "field2"),
                "field2 should be unchanged"
            );
        }
        _ => panic!("Expected User diff with Struct value"),
    }
}
