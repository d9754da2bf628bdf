//! Validation of shapes the compiler must reject.

use facet_owned_shape::conversion::shape_to_table;
use facet_owned_shape::{
    ConversionError, OwnedDef, OwnedField, OwnedNumericType, OwnedPrimitiveType, OwnedShape,
    OwnedStructType, OwnedType, OwnedUserType,
};

fn uint(id: &str, size: usize) -> OwnedShape {
    OwnedShape {
        type_identifier: id.to_string(),
        def: Box::new(OwnedDef::Scalar),
        ty: Box::new(OwnedType::Primitive(OwnedPrimitiveType::Numeric(
            OwnedNumericType::Integer { signed: false },
        ))),
        size: Some(size),
    }
}

fn pk_field(name: &str, shape: OwnedShape) -> OwnedField {
    OwnedField {
        name: name.to_string(),
        shape,
        doc: vec![],
        tags: vec![("psql".to_string(), "primary_key".to_string())],
    }
}

#[test]
fn test_double_pk_fails() {
    let shape = OwnedShape {
        type_identifier: "DoublePk".to_string(),
        def: Box::new(OwnedDef::Undefined),
        ty: Box::new(OwnedType::User(OwnedUserType::Struct(OwnedStructType {
            fields: vec![pk_field("id1", uint("u64", 8)), pk_field("id2", uint("u64", 8))],
        }))),
        size: None,
    };
    let result = shape_to_table(&shape);

    assert!(result.is_err(), "Expected error for multiple primary keys");
    match result {
        Err(ConversionError::MultiplePrimaryKeys(_)) => (), // Expected
        Err(e) => panic!("Expected MultiplePrimaryKeys error, got: {:?}", e),
        Ok(_) => panic!("Expected error, got Ok"),
    }
}
