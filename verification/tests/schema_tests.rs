//! Rendering a schema to SQL DDL.

use std::collections::HashMap;

use facet_owned_shape::{
    CheckConstraint, Column, DataType, EnumType, ForeignKey, PartialSchema, PrimaryKey,
    QualifiedName, ReferentialAction, Table, TableOptions, UniqueConstraint,
};

fn empty_schema() -> PartialSchema {
    PartialSchema {
        tables: vec![],
        views: vec![],
        materialized_views: vec![],
        enums: vec![],
        domains: vec![],
        composite_types: vec![],
        sequences: vec![],
        collations: vec![],
        functions: vec![],
    }
}

fn plain_options() -> TableOptions {
    TableOptions {
        inherits: vec![],
        temporary: false,
        unlogged: false,
        partitioned: None,
        tablespace: None,
        with_storage_params: HashMap::new(),
    }
}

fn plain_column(name: &str, data_type: DataType, nullable: bool) -> Column {
    Column {
        name: name.to_string(),
        data_type,
        default: None,
        nullable,
        collation: None,
        is_generated: false,
        generation_expression: None,
        is_identity: false,
        identity_generation: None,
        comment: None,
        privileges: None,
    }
}

fn bare_table(name: &str, columns: Vec<Column>) -> Table {
    Table {
        name: name.to_string(),
        columns,
        primary_key: None,
        uniques: vec![],
        foreign_keys: vec![],
        checks: vec![],
        indexes: vec![],
        options: plain_options(),
        comment: None,
        owned_sequences: vec![],
    }
}

#[test]
fn simple_schema_roundtrip() {
    let mut schema = empty_schema();

    let table = Table {
        name: "users".to_string(),
        columns: vec![
            plain_column("id", DataType::BigSerial, false),
            plain_column("email", DataType::Varchar(Some(255)), false),
        ],
        primary_key: Some(PrimaryKey {
            name: Some("users_pkey".to_string()),
            columns: vec!["id".to_string()],
            deferrable: None,
            using: None,
        }),
        uniques: vec![UniqueConstraint {
            name: Some("users_email_key".to_string()),
            columns: vec!["email".to_string()],
            deferrable: None,
        }],
        foreign_keys: vec![],
        checks: vec![],
        indexes: vec![],
        options: plain_options(),
        comment: Some("Application users".to_string()),
        owned_sequences: vec![],
    };

    schema.tables.push(table);

    // Render DDL and assert it contains the expected CREATE TABLE line.
    let ddl = schema.to_ddl("public");
    assert!(
        ddl.contains("CREATE TABLE public.users"),
        "DDL did not contain expected table definition:\n{}",
        ddl
    );
    assert!(ddl.contains("\"id\" bigserial") || ddl.contains("id bigserial"));
    assert!(ddl.contains("varchar(255)"));
    assert!(ddl.contains("ADD CONSTRAINT users_email_key UNIQUE (email)"));
    assert!(ddl.contains("PRIMARY KEY (id)"));
}

#[test]
fn test_foreign_keys_render_after_all_tables() {
    // Table a references table b, and a is listed first: both
    // CREATE TABLE statements must still come before the foreign
    // key.
    let mut a = bare_table("a", vec![plain_column("b_id", DataType::BigInt, false)]);
    a.foreign_keys.push(ForeignKey {
        name: None,
        columns: vec!["b_id".to_string()],
        referenced_table: QualifiedName { schema: None, name: "b".to_string() },
        referenced_columns: Some(vec!["id".to_string()]),
        on_delete: Some(ReferentialAction::Cascade),
        on_update: Some(ReferentialAction::NoAction),
        match_type: None,
        deferrable: None,
        initially: None,
    });
    let b = bare_table("b", vec![plain_column("id", DataType::BigInt, false)]);

    let mut schema = empty_schema();
    schema.tables.push(a);
    schema.tables.push(b);

    let ddl = schema.to_ddl("public");
    let create_a = ddl.find("CREATE TABLE public.a").unwrap();
    let create_b = ddl.find("CREATE TABLE public.b").unwrap();
    let fk = ddl.find("FOREIGN KEY").unwrap();
    assert!(create_a < fk, "CREATE TABLE a must come before the foreign key");
    assert!(create_b < fk, "CREATE TABLE b must come before the foreign key");
    assert!(ddl.contains("ADD CONSTRAINT a_b_id_fkey FOREIGN KEY (b_id) REFERENCES b (id)"));
    assert!(ddl.contains("ON DELETE CASCADE"));
    assert!(ddl.contains("ON UPDATE NO ACTION"));
}

#[test]
fn test_ddl_is_deterministic() {
    let mut schema = empty_schema();
    schema.enums.push(EnumType {
        schema: Some("public".to_string()),
        name: "mood".to_string(),
        variants: vec!["happy".to_string(), "sad".to_string()],
        comment: Some("how it's going".to_string()),
    });
    schema.tables.push(bare_table(
        "moods",
        vec![plain_column("mood", DataType::Integer, false)],
    ));

    let first = schema.to_ddl("public");
    let second = schema.to_ddl("public");
    assert_eq!(first, second, "Rendering the same schema twice must be byte-identical");
}

#[test]
fn test_enum_type_and_comment_escaping() {
    let mut schema = empty_schema();
    schema.enums.push(EnumType {
        schema: None,
        name: "quote".to_string(),
        variants: vec!["it's".to_string()],
        comment: Some("a 'quoted' comment".to_string()),
    });

    let ddl = schema.to_ddl("public");
    assert!(ddl.contains("CREATE TYPE quote AS ENUM ('it''s');"));
    assert!(ddl.contains("COMMENT ON TYPE quote IS 'a ''quoted'' comment';"));
}

#[test]
fn test_check_constraint_statement() {
    let mut t = bare_table("boxes", vec![plain_column("w", DataType::Integer, false)]);
    t.checks.push(CheckConstraint {
        name: Some("w_positive".to_string()),
        expression: "w > 0".to_string(),
        no_inherit: false,
    });
    let mut schema = empty_schema();
    schema.tables.push(t);

    let ddl = schema.to_ddl("public");
    assert!(ddl.contains("ALTER TABLE public.boxes ADD CONSTRAINT w_positive CHECK (w > 0);"));
}

#[test]
fn test_qualified_name_to_string() {
    let plain = QualifiedName { schema: None, name: "users".to_string() };
    assert_eq!(plain.to_string(), "users");
    let qualified = QualifiedName {
        schema: Some("public".to_string()),
        name: "users".to_string(),
    };
    assert_eq!(qualified.to_string(), "public.users");
}

#[test]
fn test_sequence_rendering_with_negative_start() {
    let mut schema = empty_schema();
    schema.sequences.push(facet_owned_shape::Sequence {
        name: "ticket_seq".to_string(),
        schema: Some("public".to_string()),
        owned_by: None,
        start: Some(-5),
        increment: Some(10),
        min_value: None,
        max_value: Some(9999),
        cache: None,
        cycle: false,
        comment: None,
    });

    let ddl = schema.to_ddl("public");
    assert!(ddl.contains(
        "CREATE SEQUENCE public.ticket_seq START WITH -5 INCREMENT BY 10 MAXVALUE 9999 NO CYCLE;"
    ));
}

#[test]
fn test_view_and_index_rendering() {
    let mut t = bare_table("events", vec![plain_column("kind", DataType::Text, false)]);
    t.indexes.push(facet_owned_shape::Index {
        name: String::new(),
        columns: vec![facet_owned_shape::IndexColumn {
            expr: facet_owned_shape::IndexExpr::Column("kind".to_string()),
            collate: None,
            opclass: None,
            order: Some(facet_owned_shape::SortOrder::Desc),
            nulls_order: None,
        }],
        unique: true,
        method: None,
        predicate: Some("kind <> ''".to_string()),
        included: vec![],
        tablespace: None,
        concurrently: false,
        is_primary: false,
        is_valid: true,
    });
    // An index that backs the primary key is skipped.
    t.indexes.push(facet_owned_shape::Index {
        name: "events_pkey".to_string(),
        columns: vec![],
        unique: true,
        method: None,
        predicate: None,
        included: vec![],
        tablespace: None,
        concurrently: false,
        is_primary: true,
        is_valid: true,
    });
    let mut schema = empty_schema();
    schema.tables.push(t);
    schema.views.push(facet_owned_shape::View {
        name: "recent".to_string(),
        columns: vec![],
        definition: "SELECT kind FROM public.events".to_string(),
        materialized: false,
        check_option: None,
        comment: None,
    });

    let ddl = schema.to_ddl("public");
    assert!(ddl.contains(
        "CREATE UNIQUE INDEX events_idx_kind ON public.events USING btree (kind DESC) WHERE kind <> '';"
    ));
    assert!(!ddl.contains("events_pkey"));
    assert!(ddl.contains("CREATE VIEW public.recent AS\nSELECT kind FROM public.events;"));
}
