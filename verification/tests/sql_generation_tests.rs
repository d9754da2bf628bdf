//! SQL generation from compiled schemas.

use facet_owned_shape::{
    ForeignKey, Index, IndexColumn, IndexExpr, NullsOrder, OwnedDef, OwnedField,
    OwnedNumericType, OwnedOptionDef, OwnedPrimitiveType, OwnedShape, OwnedStructType,
    OwnedType, OwnedUserType, PartialSchema, QualifiedName, ReferentialAction, SortOrder,
};

fn sint(id: &str, size: usize) -> OwnedShape {
    OwnedShape {
        type_identifier: id.to_string(),
        def: Box::new(OwnedDef::Scalar),
        ty: Box::new(OwnedType::Primitive(OwnedPrimitiveType::Numeric(
            OwnedNumericType::Integer { signed: true },
        ))),
        size: Some(size),
    }
}

fn string_shape() -> OwnedShape {
    OwnedShape {
        type_identifier: "String".to_string(),
        def: Box::new(OwnedDef::Scalar),
        ty: Box::new(OwnedType::User(OwnedUserType::Opaque)),
        size: None,
    }
}

fn optional(inner: OwnedShape) -> OwnedShape {
    OwnedShape {
        type_identifier: "Option".to_string(),
        def: Box::new(OwnedDef::Option(OwnedOptionDef { t: inner })),
        ty: Box::new(OwnedType::User(OwnedUserType::Opaque)),
        size: None,
    }
}

fn tagged_field(name: &str, shape: OwnedShape, tags: Vec<(&str, &str)>) -> OwnedField {
    OwnedField {
        name: name.to_string(),
        shape,
        doc: vec![],
        tags: tags.iter().map(|(ns, k)| (ns.to_string(), k.to_string())).collect(),
    }
}

fn record(id: &str, fields: Vec<OwnedField>) -> OwnedShape {
    OwnedShape {
        type_identifier: id.to_string(),
        def: Box::new(OwnedDef::Undefined),
        ty: Box::new(OwnedType::User(OwnedUserType::Struct(OwnedStructType { fields }))),
        size: None,
    }
}

#[test]
fn test_sql_generation_foreign_key_ordering() {
    let shape_a = record(
        "TableA",
        vec![
            tagged_field("id", sint("i64", 8), vec![("psql", "primary_key")]),
            tagged_field("b_id", optional(sint("i64", 8)), vec![]),
        ],
    );
    let shape_b = record(
        "TableB",
        vec![tagged_field("id", sint("i64", 8), vec![("psql", "primary_key")])],
    );

    let schema_a = PartialSchema::from_shape(&shape_a).expect("Failed to convert TableA");
    let schema_b = PartialSchema::from_shape(&shape_b).expect("Failed to convert TableB");

    let mut table_a = schema_a.tables.into_iter().next().unwrap();
    let table_b = schema_b.tables.into_iter().next().unwrap();

    // Manually add a foreign key to table A (not derivable from the shape).
    table_a.foreign_keys.push(ForeignKey {
        name: None,
        columns: vec!["b_id".into()],
        referenced_table: QualifiedName {
            schema: None,
            name: "tableb".into(),
        },
        referenced_columns: Some(vec!["id".into()]),
        on_delete: Some(ReferentialAction::Cascade),
        on_update: None,
        match_type: None,
        deferrable: None,
        initially: None,
    });

    // Combine into one schema; put A before B to test the ordering logic.
    let schema = PartialSchema {
        tables: vec![table_a, table_b],
        views: vec![],
        materialized_views: vec![],
        enums: vec![],
        domains: vec![],
        composite_types: vec![],
        sequences: vec![],
        collations: vec![],
        functions: vec![],
    };

    let sql = schema.to_ddl("public");

    let create_a_idx = sql
        .find("CREATE TABLE public.tablea")
        .expect("Missing CREATE TABLE tablea");
    let create_b_idx = sql
        .find("CREATE TABLE public.tableb")
        .expect("Missing CREATE TABLE tableb");
    let alter_fk_idx = sql
        .find("ALTER TABLE public.tablea ADD CONSTRAINT tablea_b_id_fkey FOREIGN KEY (b_id) REFERENCES tableb (id)")
        .expect("Missing FK constraint");

    assert!(
        alter_fk_idx > create_a_idx,
        "FK creation should come after table A creation"
    );
    assert!(
        alter_fk_idx > create_b_idx,
        "FK creation should come after table B creation"
    );
}

#[test]
fn test_sql_generation_indexes() {
    let users = record("Users", vec![tagged_field("email", string_shape(), vec![])]);
    let schema = PartialSchema::from_shape(&users).expect("Failed to convert Users");
    let mut table = schema.tables.into_iter().next().unwrap();

    // Manually add an index (not derivable from the shape).
    table.indexes.push(Index {
        name: "idx_users_email".into(),
        columns: vec![IndexColumn {
            expr: IndexExpr::Column("email".into()),
            collate: None,
            opclass: None,
            order: Some(SortOrder::Desc),
            nulls_order: Some(NullsOrder::Last),
        }],
        unique: true,
        method: Some("btree".into()),
        predicate: Some("email IS NOT NULL".into()),
        included: vec![],
        tablespace: None,
        concurrently: false,
        is_primary: false,
        is_valid: true,
    });

    let schema = PartialSchema {
        tables: vec![table],
        views: vec![],
        materialized_views: vec![],
        enums: vec![],
        domains: vec![],
        composite_types: vec![],
        sequences: vec![],
        collations: vec![],
        functions: vec![],
    };

    let sql = schema.to_ddl("public");

    assert!(sql.contains(
        "CREATE UNIQUE INDEX idx_users_email ON public.users USING btree (email DESC NULLS LAST) WHERE email IS NOT NULL;"
    ));
}
