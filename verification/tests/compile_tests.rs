//! Compiling type shapes into relational schemas.

use facet_owned_shape::{
    ConversionError, DataType, OwnedDef, OwnedEnumType, OwnedField, OwnedNumericType,
    OwnedOptionDef, OwnedPrimitiveType, OwnedShape, OwnedStructType, OwnedTextualType,
    OwnedType, OwnedUserType, OwnedVariant, PartialSchema,
};

fn prim(id: &str, p: OwnedPrimitiveType, size: Option<usize>) -> OwnedShape {
    OwnedShape {
        type_identifier: id.to_string(),
        def: Box::new(OwnedDef::Scalar),
        ty: Box::new(OwnedType::Primitive(p)),
        size,
    }
}

fn uint(id: &str, size: usize) -> OwnedShape {
    prim(
        id,
        OwnedPrimitiveType::Numeric(OwnedNumericType::Integer { signed: false }),
        Some(size),
    )
}

fn string_shape() -> OwnedShape {
    OwnedShape {
        type_identifier: "String".to_string(),
        def: Box::new(OwnedDef::Scalar),
        ty: Box::new(OwnedType::User(OwnedUserType::Opaque)),
        size: None,
    }
}

fn tagged_field(name: &str, shape: OwnedShape, tags: Vec<(&str, &str)>) -> OwnedField {
    OwnedField {
        name: name.to_string(),
        shape,
        doc: vec![],
        tags: tags.iter().map(|(ns, k)| (ns.to_string(), k.to_string())).collect(),
    }
}

fn field(name: &str, shape: OwnedShape) -> OwnedField {
    tagged_field(name, shape, vec![])
}

fn record(id: &str, fields: Vec<OwnedField>) -> OwnedShape {
    OwnedShape {
        type_identifier: id.to_string(),
        def: Box::new(OwnedDef::Undefined),
        ty: Box::new(OwnedType::User(OwnedUserType::Struct(OwnedStructType { fields }))),
        size: None,
    }
}

fn variant(name: &str, fields: Vec<OwnedField>) -> OwnedVariant {
    OwnedVariant {
        name: name.to_string(),
        data: OwnedStructType { fields },
        doc: vec![],
    }
}

fn sum_type(id: &str, variants: Vec<OwnedVariant>) -> OwnedShape {
    OwnedShape {
        type_identifier: id.to_string(),
        def: Box::new(OwnedDef::Undefined),
        ty: Box::new(OwnedType::User(OwnedUserType::Enum(OwnedEnumType { variants }))),
        size: None,
    }
}

#[test]
fn test_primary_key_and_text_round_trip() {
    let shape = record(
        "Person",
        vec![
            tagged_field("id", uint("u64", 8), vec![("psql", "primary_key")]),
            field("email", string_shape()),
        ],
    );
    let schema = PartialSchema::from_shape(&shape).unwrap();
    assert_eq!(schema.tables.len(), 1);
    let table = &schema.tables[0];
    assert_eq!(table.name, "person");
    let pk = table.primary_key.as_ref().unwrap();
    assert_eq!(pk.columns, vec!["id".to_string()]);
    let email = &table.columns[1];
    assert_eq!(email.name, "email");
    assert!(!email.nullable);
    assert!(matches!(email.data_type, DataType::Text));
}

#[test]
fn test_three_variant_sum_type_layout() {
    let shape = sum_type(
        "Event",
        vec![
            variant("A", vec![field("x", uint("u32", 4))]),
            variant("B", vec![field("y", uint("u32", 4)), field("z", string_shape())]),
            variant("C", vec![]),
        ],
    );
    let schema = PartialSchema::from_shape(&shape).unwrap();

    // Exactly three tables: the two data-bearing variants, then the
    // main table.
    assert_eq!(schema.tables.len(), 3);
    assert_eq!(schema.tables[0].name, "event_a");
    assert_eq!(schema.tables[1].name, "event_b");
    let main = &schema.tables[2];
    assert_eq!(main.name, "event");

    let column_names: Vec<&str> = main.columns.iter().map(|c| c.name.as_str()).collect();
    assert_eq!(column_names, vec!["id", "discriminant", "a_id", "b_id"]);

    assert_eq!(main.foreign_keys.len(), 2);
    assert_eq!(main.foreign_keys[0].referenced_table.name, "event_a");
    assert_eq!(main.foreign_keys[1].referenced_table.name, "event_b");

    assert_eq!(main.checks.len(), 1);
    let check = &main.checks[0];
    assert_eq!(check.name.as_deref(), Some("variant_integrity"));
    assert!(check.expression.contains("discriminant = 0"));
    assert!(check.expression.contains("a_id IS NOT NULL"));
    assert!(check.expression.contains("discriminant = 1"));
    assert!(check.expression.contains("b_id IS NOT NULL"));
    // The unit variant contributes no clause and no column of its
    // own: its state is exactly "no foreign-key column is non-null".
    assert!(!check.expression.contains("discriminant = 2"));
    assert_eq!(check.expression.matches("CASE WHEN").count(), 2);
}

#[test]
fn test_unit_only_sum_type_has_trivial_check() {
    let shape = sum_type("Flag", vec![variant("On", vec![]), variant("Off", vec![])]);
    let schema = PartialSchema::from_shape(&shape).unwrap();
    assert_eq!(schema.tables.len(), 1);
    let main = &schema.tables[0];
    assert_eq!(main.checks[0].expression, "1=1");
    assert!(main.foreign_keys.is_empty());
}

#[test]
fn test_nullable_and_width_mapping() {
    let shape = record(
        "Widths",
        vec![
            field("a", uint("u8", 1)),
            field("b", uint("u16", 2)),
            field("c", uint("u32", 4)),
            field("d", uint("u64", 8)),
            field(
                "e",
                OwnedShape {
                    type_identifier: "Option".to_string(),
                    def: Box::new(OwnedDef::Option(OwnedOptionDef { t: uint("u32", 4) })),
                    ty: Box::new(OwnedType::User(OwnedUserType::Opaque)),
                    size: None,
                },
            ),
            field(
                "f",
                prim("f32", OwnedPrimitiveType::Numeric(OwnedNumericType::Float), Some(4)),
            ),
            field(
                "g",
                prim("f64", OwnedPrimitiveType::Numeric(OwnedNumericType::Float), Some(8)),
            ),
            field(
                "h",
                prim("char", OwnedPrimitiveType::Textual(OwnedTextualType::Char), Some(4)),
            ),
            field(
                "i",
                prim("bool", OwnedPrimitiveType::Boolean, Some(1)),
            ),
        ],
    );
    let schema = PartialSchema::from_shape(&shape).unwrap();
    let t = &schema.tables[0];
    assert!(matches!(t.columns[0].data_type, DataType::SmallInt));
    assert!(matches!(t.columns[1].data_type, DataType::SmallInt));
    assert!(matches!(t.columns[2].data_type, DataType::Integer));
    assert!(matches!(t.columns[3].data_type, DataType::BigInt));
    assert!(matches!(t.columns[4].data_type, DataType::Integer));
    assert!(t.columns[4].nullable);
    assert!(matches!(t.columns[5].data_type, DataType::Real));
    assert!(matches!(t.columns[6].data_type, DataType::DoublePrecision));
    assert!(matches!(t.columns[7].data_type, DataType::Char(Some(1))));
    assert!(matches!(t.columns[8].data_type, DataType::Boolean));
}

#[test]
fn test_not_a_struct_error() {
    let shape = uint("u32", 4);
    let err = PartialSchema::from_shape(&shape).unwrap_err();
    match &err {
        ConversionError::NotAStruct(msg) => {
            assert!(msg.contains("u32"));
        }
        other => panic!("expected NotAStruct, got {:?}", other),
    }
    assert!(err.message().starts_with("Expected struct, got:"));
}

#[test]
fn test_unsized_integer_error() {
    let shape = record(
        "Bad",
        vec![field(
            "n",
            prim(
                "biguint",
                OwnedPrimitiveType::Numeric(OwnedNumericType::Integer { signed: false }),
                None,
            ),
        )],
    );
    let err = PartialSchema::from_shape(&shape).unwrap_err();
    match &err {
        ConversionError::UnsupportedType(msg) => {
            assert_eq!(msg, "unsized integer");
        }
        other => panic!("expected UnsupportedType, got {:?}", other),
    }
}

#[test]
fn test_float_width_error() {
    let shape = record(
        "Bad",
        vec![field(
            "n",
            prim("f128", OwnedPrimitiveType::Numeric(OwnedNumericType::Float), Some(16)),
        )],
    );
    let err = PartialSchema::from_shape(&shape).unwrap_err();
    match &err {
        ConversionError::UnsupportedType(msg) => {
            assert_eq!(msg, "float with size 16");
        }
        other => panic!("expected UnsupportedType, got {:?}", other),
    }
}

#[test]
fn test_multiple_primary_keys_error() {
    let shape = record(
        "Doubled",
        vec![
            tagged_field("a", uint("u64", 8), vec![("psql", "primary_key")]),
            tagged_field("b", uint("u64", 8), vec![("psql", "primary_key")]),
        ],
    );
    let err = PartialSchema::from_shape(&shape).unwrap_err();
    match &err {
        ConversionError::MultiplePrimaryKeys(msg) => {
            assert_eq!(msg, "table 'doubled' has 2 primary key fields");
        }
        other => panic!("expected MultiplePrimaryKeys, got {:?}", other),
    }
}

#[test]
fn test_empty_record_compiles() {
    let shape = record("Nothing", vec![]);
    let schema = PartialSchema::from_shape(&shape).unwrap();
    assert_eq!(schema.tables.len(), 1);
    assert!(schema.tables[0].columns.is_empty());
    assert!(schema.tables[0].primary_key.is_none());
}

#[test]
fn test_nested_record_and_enum_payloads() {
    let inner = record("Address", vec![field("city", string_shape())]);
    let status = sum_type("Status", vec![variant("On", vec![]), variant("Off", vec![])]);
    let shape = record(
        "Customer",
        vec![field("address", inner), field("status", status)],
    );
    let schema = PartialSchema::from_shape(&shape).unwrap();
    let t = &schema.tables[0];
    assert!(matches!(t.columns[0].data_type, DataType::Jsonb));
    assert!(matches!(t.columns[1].data_type, DataType::Integer));
}

#[test]
fn test_compiled_sum_type_renders_to_ddl() {
    let shape = sum_type(
        "Event",
        vec![variant("A", vec![field("x", uint("u32", 4))]), variant("C", vec![])],
    );
    let schema = PartialSchema::from_shape(&shape).unwrap();
    let ddl = schema.to_ddl("public");
    assert!(ddl.contains("CREATE TABLE public.event_a"));
    assert!(ddl.contains("CREATE TABLE public.event"));
    assert!(ddl.contains("ADD CONSTRAINT variant_integrity CHECK ("));
    let create_variant = ddl.find("CREATE TABLE public.event_a").unwrap();
    let fk = ddl.find("FOREIGN KEY").unwrap();
    assert!(create_variant < fk);
    assert!(ddl.contains("GENERATED ALWAYS AS IDENTITY"));
}
