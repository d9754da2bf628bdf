//! CREATE TABLE and ALTER TABLE statement synthesis from shapes and
//! diffs, and its rendered SQL.

use facet_owned_shape::alter::{TableAlterStatement, TableCreateStatement};
use facet_owned_shape::diff::Diff;
use facet_owned_shape::{
    OwnedDef, OwnedField, OwnedNumericType, OwnedOptionDef, OwnedPrimitiveType, OwnedShape,
    OwnedStructType, OwnedTextualType, OwnedType, OwnedUserType,
};

fn prim(id: &str, p: OwnedPrimitiveType, size: usize) -> OwnedShape {
    OwnedShape {
        type_identifier: id.to_string(),
        def: Box::new(OwnedDef::Scalar),
        ty: Box::new(OwnedType::Primitive(p)),
        size: Some(size),
    }
}

fn uint(id: &str, size: usize) -> OwnedShape {
    prim(
        id,
        OwnedPrimitiveType::Numeric(OwnedNumericType::Integer { signed: false }),
        size,
    )
}

fn sint(id: &str, size: usize) -> OwnedShape {
    prim(
        id,
        OwnedPrimitiveType::Numeric(OwnedNumericType::Integer { signed: true }),
        size,
    )
}

fn float(id: &str, size: usize) -> OwnedShape {
    prim(id, OwnedPrimitiveType::Numeric(OwnedNumericType::Float), size)
}

fn string_shape() -> OwnedShape {
    OwnedShape {
        type_identifier: "String".to_string(),
        def: Box::new(OwnedDef::Scalar),
        ty: Box::new(OwnedType::User(OwnedUserType::Opaque)),
        size: None,
    }
}

fn bool_shape() -> OwnedShape {
    prim("bool", OwnedPrimitiveType::Boolean, 1)
}

fn char_shape() -> OwnedShape {
    prim("char", OwnedPrimitiveType::Textual(OwnedTextualType::Char), 4)
}

fn optional(inner: OwnedShape) -> OwnedShape {
    OwnedShape {
        type_identifier: "Option".to_string(),
        def: Box::new(OwnedDef::Option(OwnedOptionDef { t: inner })),
        ty: Box::new(OwnedType::User(OwnedUserType::Opaque)),
        size: None,
    }
}

fn field(name: &str, shape: OwnedShape) -> OwnedField {
    OwnedField { name: name.to_string(), shape, doc: vec![], tags: vec![] }
}

fn record(id: &str, fields: Vec<OwnedField>) -> OwnedShape {
    OwnedShape {
        type_identifier: id.to_string(),
        def: Box::new(OwnedDef::Undefined),
        ty: Box::new(OwnedType::User(OwnedUserType::Struct(OwnedStructType { fields }))),
        size: None,
    }
}

fn user() -> OwnedShape {
    record(
        "User",
        vec![
            field("id", sint("i32", 4)),
            field("username", string_shape()),
            field("active", bool_shape()),
            field("age", optional(sint("i32", 4))),
        ],
    )
}

fn user_v1() -> OwnedShape {
    record(
        "UserV1",
        vec![field("id", sint("i32", 4)), field("username", string_shape())],
    )
}

#[test]
fn test_user_table_creation() {
    let shape = user();
    let stmt = TableCreateStatement::from_shape(&shape).unwrap();
    let sql = stmt.to_postgres_sql();

    assert!(sql.contains("CREATE TABLE \"User\""));
    assert!(sql.contains("\"id\" integer NOT NULL"));
    assert!(sql.contains("\"username\" varchar"));
    assert!(sql.contains("\"active\" bool NOT NULL"));
    assert!(sql.contains("\"age\" integer"));
}

#[test]
fn test_all_types() {
    let shape = record(
        "AllTypes",
        vec![
            field("f1", uint("u8", 1)),
            field("f2", uint("u16", 2)),
            field("f3", uint("u32", 4)),
            field("f4", uint("u64", 8)),
            field("f5", sint("i8", 1)),
            field("f6", sint("i16", 2)),
            field("f7", sint("i32", 4)),
            field("f8", sint("i64", 8)),
            field("f9", float("f32", 4)),
            field("f10", float("f64", 8)),
            field("f11", bool_shape()),
            field("f12", string_shape()),
            field("f13", char_shape()),
        ],
    );
    let stmt = TableCreateStatement::from_shape(&shape).unwrap();
    let sql = stmt.to_postgres_sql();

    assert!(sql.contains("\"f1\" smallint NOT NULL"));
    assert!(sql.contains("\"f3\" integer NOT NULL"));
    assert!(sql.contains("\"f4\" bigint NOT NULL"));
    assert!(sql.contains("\"f9\" real NOT NULL"));
    assert!(sql.contains("\"f10\" double precision NOT NULL"));
    assert!(sql.contains("\"f13\" char(1) NOT NULL"));
}

#[test]
fn test_non_struct_failure() {
    let shape = uint("u32", 4);
    let res = TableCreateStatement::from_shape(&shape);
    assert!(res.is_err());
}

#[test]
fn test_diff_add_columns() {
    let v1 = user_v1();
    let v2 = record(
        "UserV2",
        vec![
            field("id", sint("i32", 4)),
            field("username", string_shape()),
            field("email", string_shape()),
            field("created_at", optional(sint("i64", 8))),
        ],
    );

    let diff = Diff::new(&v1, &v2);
    let stmt = TableAlterStatement::from_diff(&diff).unwrap();
    let sql = stmt.to_postgres_sql();

    assert!(sql.contains("ALTER TABLE \"UserV2\""));
    assert!(sql.contains("ADD COLUMN \"email\" varchar NOT NULL"));
    assert!(sql.contains("ADD COLUMN \"created_at\" bigint"));
}

#[test]
fn test_diff_drop_columns() {
    let v1 = user_v1();
    let v3 = record("UserV3", vec![field("id", sint("i32", 4))]);

    let diff = Diff::new(&v1, &v3);
    let stmt = TableAlterStatement::from_diff(&diff).unwrap();
    let sql = stmt.to_postgres_sql();

    assert!(sql.contains("ALTER TABLE \"UserV3\""));
    assert!(sql.contains("DROP COLUMN \"username\""));
}

#[test]
fn test_diff_add_and_drop() {
    let v1 = user_v1();
    let v4 = record(
        "UserV4",
        vec![
            field("id", sint("i32", 4)),
            field("username", string_shape()),
            field("status", bool_shape()),
        ],
    );

    let diff = Diff::new(&v1, &v4);
    let stmt = TableAlterStatement::from_diff(&diff).unwrap();
    let sql = stmt.to_postgres_sql();

    assert!(sql.contains("ALTER TABLE \"UserV4\""));
    assert!(sql.contains("ADD COLUMN \"status\" bool NOT NULL"));
}

#[test]
fn test_diff_type_change_i32_to_string() {
    let v1 = user_v1();
    let v5 = record(
        "UserV5",
        vec![field("id", string_shape()), field("username", string_shape())],
    );

    let diff = Diff::new(&v1, &v5);
    let stmt = TableAlterStatement::from_diff(&diff).unwrap();
    let sql = stmt.to_postgres_sql();

    assert!(sql.contains("ALTER TABLE \"UserV5\""));
    assert!(sql.contains("ALTER COLUMN \"id\"") || sql.contains("MODIFY COLUMN \"id\""));
}

#[test]
fn test_diff_type_change_i32_to_i64() {
    let v1 = user_v1();
    let v6 = record(
        "UserV6",
        vec![field("id", sint("i64", 8)), field("username", string_shape())],
    );

    let diff = Diff::new(&v1, &v6);
    let stmt = TableAlterStatement::from_diff(&diff).unwrap();
    let sql = stmt.to_postgres_sql();

    assert!(sql.contains("ALTER TABLE \"UserV6\""));
    assert!(sql.contains("bigint"));
}

#[test]
fn test_diff_incompatible_type_change() {
    let v1 = user_v1();
    let v7 = record(
        "UserV7",
        vec![field("id", sint("i32", 4)), field("username", bool_shape())],
    );

    let diff = Diff::new(&v1, &v7);
    let res = TableAlterStatement::from_diff(&diff);

    assert!(res.is_err());
    assert!(res.unwrap_err().contains("Incompatible type change"));
}

#[test]
fn test_diff_equal_error() {
    let v1 = user_v1();
    let v1_copy = user_v1();

    let diff = Diff::new(&v1, &v1_copy);
    let res = TableAlterStatement::from_diff(&diff);

    assert!(res.is_err());
    assert!(res.unwrap_err().contains("no changes needed"));
}

#[test]
fn test_alter_one_nullable_add_one_drop() {
    let before = record(
        "Account",
        vec![field("id", sint("i64", 8)), field("legacy", string_shape())],
    );
    let after = record(
        "Account",
        vec![field("id", sint("i64", 8)), field("nickname", optional(string_shape()))],
    );

    let diff = Diff::new(&before, &after);
    let stmt = TableAlterStatement::from_diff(&diff).unwrap();
    let sql = stmt.to_postgres_sql();

    assert_eq!(sql.matches("ADD COLUMN").count(), 1);
    assert_eq!(sql.matches("DROP COLUMN").count(), 1);
    assert!(sql.contains("ADD COLUMN \"nickname\" varchar NULL"));
    assert!(sql.contains("DROP COLUMN \"legacy\""));
}

#[test]
fn test_alter_no_column_changes() {
    // Two empty records with different identifiers: a record diff
    // with nothing to alter.
    let before = record("EmptyA", vec![]);
    let after = record("EmptyB", vec![]);

    let diff = Diff::new(&before, &after);
    let res = TableAlterStatement::from_diff(&diff);

    assert!(res.is_err());
    assert!(res.unwrap_err().contains("No column changes found"));
}

#[test]
fn test_alter_rejects_sequence_diff() {
    let a = OwnedShape {
        type_identifier: "[u8; 4]".to_string(),
        def: Box::new(OwnedDef::Scalar),
        ty: Box::new(OwnedType::Sequence(facet_owned_shape::OwnedSequenceType {
            t: uint("u8", 1),
        })),
        size: Some(4),
    };
    let b = OwnedShape {
        type_identifier: "[u16; 4]".to_string(),
        def: Box::new(OwnedDef::Scalar),
        ty: Box::new(OwnedType::Sequence(facet_owned_shape::OwnedSequenceType {
            t: uint("u16", 2),
        })),
        size: Some(8),
    };

    let diff = Diff::new(&a, &b);
    let res = TableAlterStatement::from_diff(&diff);

    assert!(res.is_err());
    assert!(res.unwrap_err().contains("only struct diffs are supported"));
}
