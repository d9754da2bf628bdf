//! Normalizing a sum type into its table family.

use facet_owned_shape::{
    DataType, OwnedDef, OwnedEnumType, OwnedField, OwnedNumericType, OwnedPrimitiveType,
    OwnedShape, OwnedStructType, OwnedType, OwnedUserType, OwnedVariant, PartialSchema,
};

fn uint(id: &str, size: usize) -> OwnedShape {
    OwnedShape {
        type_identifier: id.to_string(),
        def: Box::new(OwnedDef::Scalar),
        ty: Box::new(OwnedType::Primitive(OwnedPrimitiveType::Numeric(
            OwnedNumericType::Integer { signed: false },
        ))),
        size: Some(size),
    }
}

fn field(name: &str, shape: OwnedShape) -> OwnedField {
    OwnedField { name: name.to_string(), shape, doc: vec![], tags: vec![] }
}

#[test]
fn test_enum_to_schema_thingy() {
    let shape = OwnedShape {
        type_identifier: "Thingy".to_string(),
        def: Box::new(OwnedDef::Undefined),
        ty: Box::new(OwnedType::User(OwnedUserType::Enum(OwnedEnumType {
            variants: vec![
                OwnedVariant {
                    name: "A".to_string(),
                    data: OwnedStructType { fields: vec![field("a", uint("usize", 8))] },
                    doc: vec![],
                },
                OwnedVariant {
                    name: "B".to_string(),
                    data: OwnedStructType { fields: vec![field("b", uint("usize", 8))] },
                    doc: vec![],
                },
            ],
        }))),
        size: None,
    };
    let schema = PartialSchema::from_shape(&shape).expect("Failed to convert Thingy enum");

    // Expect 3 tables: thingy, thingy_a, thingy_b
    assert_eq!(schema.tables.len(), 3);

    // 1. Verify the main table.
    let main_table = schema
        .tables
        .iter()
        .find(|t| t.name == "thingy")
        .expect("Main table 'thingy' not found");

    // Columns: id, discriminant, a_id, b_id
    assert_eq!(main_table.columns.len(), 4);
    assert!(main_table.columns.iter().any(|c| c.name == "id"));
    assert!(main_table.columns.iter().any(|c| c.name == "discriminant"));
    assert!(
        main_table
            .columns
            .iter()
            .any(|c| c.name == "a_id" && matches!(c.data_type, DataType::BigInt) && c.nullable)
    );
    assert!(
        main_table
            .columns
            .iter()
            .any(|c| c.name == "b_id" && matches!(c.data_type, DataType::BigInt) && c.nullable)
    );

    // Foreign keys.
    assert_eq!(main_table.foreign_keys.len(), 2);
    let fk_a = main_table
        .foreign_keys
        .iter()
        .find(|fk| fk.columns == vec!["a_id"])
        .expect("FK for a_id missing");
    assert_eq!(fk_a.referenced_table.name, "thingy_a");

    let fk_b = main_table
        .foreign_keys
        .iter()
        .find(|fk| fk.columns == vec!["b_id"])
        .expect("FK for b_id missing");
    assert_eq!(fk_b.referenced_table.name, "thingy_b");

    // Check constraint.
    assert_eq!(main_table.checks.len(), 1);
    let check = &main_table.checks[0];
    assert!(check.expression.contains("discriminant = 0"));
    assert!(check.expression.contains("a_id IS NOT NULL"));

    // 2. Verify the variant tables.
    let table_a = schema
        .tables
        .iter()
        .find(|t| t.name == "thingy_a")
        .expect("Variant table 'thingy_a' not found");
    // Columns: id, a
    assert!(table_a.columns.iter().any(|c| c.name == "id"));
    assert!(table_a.columns.iter().any(|c| c.name == "a"));

    let table_b = schema
        .tables
        .iter()
        .find(|t| t.name == "thingy_b")
        .expect("Variant table 'thingy_b' not found");
    // Columns: id, b
    assert!(table_b.columns.iter().any(|c| c.name == "id"));
    assert!(table_b.columns.iter().any(|c| c.name == "b"));
}
