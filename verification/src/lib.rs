//! Compiles language-neutral type-shape descriptors into a relational
//! schema, renders that schema as SQL DDL, computes structural diffs
//! between two shapes, and turns a record diff into ALTER statements.

pub mod alter;
pub mod conversion;
pub mod ddl;
pub mod diff;
pub mod owned_shape;
pub mod schema;
pub mod text;
pub mod vec_cow;

pub use conversion::ConversionError;
pub use owned_shape::{
    OwnedArrayDef, OwnedDef, OwnedEnumType, OwnedField, OwnedListDef, OwnedMapDef,
    OwnedNumericType, OwnedOptionDef, OwnedPrimitiveType, OwnedSequenceType, OwnedSetDef,
    OwnedShape, OwnedStructType, OwnedTextualType, OwnedType, OwnedUnionType, OwnedUserType,
    OwnedVariant,
};
pub use schema::{
    CheckConstraint, Collation, Column, CompositeType, DataType, Deferrability, DomainType,
    EnumType, ForeignKey, FunctionSignature, FunctionVolatility, IdentityGeneration, Index,
    IndexColumn, IndexExpr, Initially, MatchType, MaterializedView, NullsOrder, PartialSchema,
    PrimaryKey, Privileges, QualifiedColumn, QualifiedName, QualifiedObject, ReferentialAction,
    Sequence, SortOrder, Table, TableOptions, UniqueConstraint, View, ViewCheckOption,
};
