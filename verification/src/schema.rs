//! The relational schema model: tables, columns, constraints,
//! indexes, sequences, views and the remaining objects a schema can
//! hold. These are plain value types; the shape compiler produces
//! them and the DDL renderer consumes them.

use std::collections::HashMap;
use vstd::prelude::*;
use vstd::string::StringExecFns;
use vstd::view::View as _;

verus! {

/// An unordered collection of schema objects.
#[derive(Debug)]
pub struct PartialSchema {
    pub tables: Vec<Table>,
    pub views: Vec<View>,
    pub materialized_views: Vec<MaterializedView>,
    pub enums: Vec<EnumType>,
    pub domains: Vec<DomainType>,
    pub composite_types: Vec<CompositeType>,
    pub sequences: Vec<Sequence>,
    pub collations: Vec<Collation>,
    pub functions: Vec<FunctionSignature>,
}

/// A base table.
#[derive(Debug)]
pub struct Table {
    pub name: String,
    pub columns: Vec<Column>,
    /// Primary key if present; a table has at most one.
    pub primary_key: Option<PrimaryKey>,
    /// Other unique constraints.
    pub uniques: Vec<UniqueConstraint>,
    /// Foreign keys.
    pub foreign_keys: Vec<ForeignKey>,
    /// Check constraints.
    pub checks: Vec<CheckConstraint>,
    /// Indexes (including partials).
    pub indexes: Vec<Index>,
    /// Table-level options (like partitioned, inherits, tablespace).
    pub options: TableOptions,
    /// Table-level comment.
    pub comment: Option<String>,
    /// Owned sequences (name of the sequence owned by a column).
    pub owned_sequences: Vec<String>,
}

/// A view over other relations.
#[derive(Debug)]
pub struct View {
    pub name: String,
    pub columns: Vec<Column>,
    /// The SQL SELECT or view definition.
    pub definition: String,
    pub materialized: bool,
    pub check_option: Option<ViewCheckOption>,
    pub comment: Option<String>,
}

/// A materialized view.
#[derive(Debug)]
pub struct MaterializedView {
    pub name: String,
    pub columns: Vec<Column>,
    pub definition: String,
    pub comment: Option<String>,
}

/// A column definition.
#[derive(Debug)]
pub struct Column {
    pub name: String,
    pub data_type: DataType,
    /// Raw SQL expression for the default value.
    pub default: Option<String>,
    pub nullable: bool,
    pub collation: Option<String>,
    /// Stored/generated column.
    pub is_generated: bool,
    pub generation_expression: Option<String>,
    pub is_identity: bool,
    /// ALWAYS or BY DEFAULT.
    pub identity_generation: Option<IdentityGeneration>,
    pub comment: Option<String>,
    pub privileges: Option<Privileges>,
}

/// SQL data types: builtins, arrays, enums, composites, domains and
/// user-defined types.
#[derive(Debug)]
pub enum DataType {
    Boolean,
    SmallInt,
    Integer,
    BigInt,
    Real,
    DoublePrecision,
    Numeric { precision: Option<u32>, scale: Option<u32> },
    Serial,
    BigSerial,
    Text,
    Varchar(Option<u32>),
    Char(Option<u32>),
    Bytea,
    Timestamp { with_time_zone: bool },
    Date,
    Time { with_time_zone: bool },
    Interval,
    Json,
    Jsonb,
    Uuid,
    Inet,
    MacAddr,
    TsVector,
    /// An array of another type.
    Array(Box<DataType>),
    /// A user-created enum type in a schema.
    Enum { schema: Option<String>, name: String },
    /// A composite (row) type defined by name.
    Composite { schema: Option<String>, name: String },
    /// A domain type.
    Domain { schema: Option<String>, name: String },
    /// Range, custom or extension types by name.
    Custom { schema: Option<String>, name: String },
    Any,
    Unknown,
}

/// Identity generation options for
/// `GENERATED { ALWAYS | BY DEFAULT } AS IDENTITY`.
#[derive(Debug)]
pub enum IdentityGeneration {
    Always,
    ByDefault,
}

/// A primary key.
#[derive(Debug)]
pub struct PrimaryKey {
    pub name: Option<String>,
    /// Column names in key order.
    pub columns: Vec<String>,
    /// Whether the key is deferrable, and its initial state.
    pub deferrable: Option<Deferrability>,
    /// Optional storage parameters or using clause.
    pub using: Option<String>,
}

/// A UNIQUE constraint.
#[derive(Debug)]
pub struct UniqueConstraint {
    pub name: Option<String>,
    pub columns: Vec<String>,
    pub deferrable: Option<Deferrability>,
}

/// A foreign key.
#[derive(Debug)]
pub struct ForeignKey {
    pub name: Option<String>,
    /// Referencing local columns, in order.
    pub columns: Vec<String>,
    /// The referenced table.
    pub referenced_table: QualifiedName,
    /// The referenced columns; absent means the primary key.
    pub referenced_columns: Option<Vec<String>>,
    pub on_delete: Option<ReferentialAction>,
    pub on_update: Option<ReferentialAction>,
    pub match_type: Option<MatchType>,
    pub deferrable: Option<Deferrability>,
    pub initially: Option<Initially>,
}

/// A qualified object name: optional schema, then name.
#[derive(Debug)]
pub struct QualifiedName {
    pub schema: Option<String>,
    pub name: String,
}

#[derive(Debug)]
pub enum ReferentialAction {
    NoAction,
    Restrict,
    Cascade,
    SetNull,
    SetDefault,
}

#[derive(Debug)]
pub enum MatchType {
    Simple,
    Full,
    Partial,
}

#[derive(Debug)]
pub enum Initially {
    Deferred,
    Immediate,
}

#[derive(Debug)]
pub enum Deferrability {
    Deferrable,
    NotDeferrable,
}

/// A check constraint.
#[derive(Debug)]
pub struct CheckConstraint {
    pub name: Option<String>,
    /// The raw SQL CHECK expression.
    pub expression: String,
    /// NO INHERIT option.
    pub no_inherit: bool,
}

/// An index definition.
#[derive(Debug)]
pub struct Index {
    pub name: String,
    pub columns: Vec<IndexColumn>,
    pub unique: bool,
    /// For example "btree", "gin" or "gist".
    pub method: Option<String>,
    /// Partial index predicate (WHERE ...).
    pub predicate: Option<String>,
    /// Included columns.
    pub included: Vec<String>,
    pub tablespace: Option<String>,
    pub concurrently: bool,
    /// Whether the index backs the primary key.
    pub is_primary: bool,
    pub is_valid: bool,
}

/// A column within an index: a plain column or an expression, with
/// optional modifiers.
#[derive(Debug)]
pub struct IndexColumn {
    pub expr: IndexExpr,
    pub collate: Option<String>,
    pub opclass: Option<String>,
    pub order: Option<SortOrder>,
    pub nulls_order: Option<NullsOrder>,
}

#[derive(Debug)]
pub enum IndexExpr {
    Column(String),
    Expression(String),
}

#[derive(Debug)]
pub enum SortOrder {
    Asc,
    Desc,
}

#[derive(Debug)]
pub enum NullsOrder {
    First,
    Last,
}

/// A sequence definition.
#[derive(Debug)]
pub struct Sequence {
    pub name: String,
    pub schema: Option<String>,
    /// The owning table column, if owned.
    pub owned_by: Option<QualifiedColumn>,
    pub start: Option<i64>,
    pub increment: Option<i64>,
    pub min_value: Option<i64>,
    pub max_value: Option<i64>,
    pub cache: Option<i64>,
    pub cycle: bool,
    pub comment: Option<String>,
}

#[derive(Debug)]
pub struct QualifiedColumn {
    pub schema: Option<String>,
    pub table: String,
    pub column: String,
}

/// An enumerated type definition.
#[derive(Debug)]
pub struct EnumType {
    pub schema: Option<String>,
    pub name: String,
    pub variants: Vec<String>,
    pub comment: Option<String>,
}

/// A domain type: a base type wrapped with constraints.
#[derive(Debug)]
pub struct DomainType {
    pub schema: Option<String>,
    pub name: String,
    pub base_type: DataType,
    pub default: Option<String>,
    pub not_null: bool,
    pub constraints: Vec<CheckConstraint>,
    pub comment: Option<String>,
}

/// A composite (record) type.
#[derive(Debug)]
pub struct CompositeType {
    pub schema: Option<String>,
    pub name: String,
    pub fields: Vec<Column>,
    pub comment: Option<String>,
}

#[derive(Debug)]
pub struct Collation {
    pub schema: Option<String>,
    pub name: String,
    pub provider: Option<String>,
    pub locale: Option<String>,
    pub deterministic: Option<bool>,
}

/// A lightweight function signature.
#[derive(Debug)]
pub struct FunctionSignature {
    pub schema: Option<String>,
    pub name: String,
    pub args: Vec<DataType>,
    pub return_type: DataType,
    pub language: Option<String>,
    pub volatile: Option<FunctionVolatility>,
}

#[derive(Debug)]
pub enum FunctionVolatility {
    Immutable,
    Stable,
    Volatile,
}

/// Table options: storage, inheritance, partitioning.
#[derive(Debug)]
pub struct TableOptions {
    pub inherits: Vec<QualifiedName>,
    pub temporary: bool,
    pub unlogged: bool,
    pub partitioned: Option<bool>,
    pub tablespace: Option<String>,
    pub with_storage_params: HashMap<String, String>,
}

/// View check option.
#[derive(Debug)]
pub enum ViewCheckOption {
    Local,
    Cascaded,
}

/// Privileges (grants), simplified: owner and grantee lists.
#[derive(Debug)]
pub struct Privileges {
    pub owner: Option<String>,
    /// Grantee mapped to granted privileges such as SELECT or
    /// INSERT.
    pub grants: HashMap<String, Vec<String>>,
}

/// A basic representation for objects such as sequences owned by a
/// column.
#[derive(Debug)]
pub struct QualifiedObject {
    pub schema: Option<String>,
    pub name: String,
}

/// The dotted rendering of a qualified name: `schema.name`, or the
/// bare name when no schema is given.
pub open spec fn qualified_name_seq(schema: Option<String>, name: String) -> Seq<char> {
    match schema {
        Some(s) => s@ + "."@ + name@,
        None => name@,
    }
}

impl QualifiedName {
    /// Renders the name, prefixing the schema with a dot when one is
    /// present.
    pub fn to_string(&self) -> (r: String)
        ensures
            r@ == qualified_name_seq(self.schema, self.name),
    {
        match &self.schema {
            Some(s) => {
                let mut r = String::new();
                r.append(s.as_str());
                r.append(".");
                r.append(self.name.as_str());
                r
            },
            None => {
                let mut r = String::new();
                r.append(self.name.as_str());
                r
            },
        }
    }
}

} // verus!
