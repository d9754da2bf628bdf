//! The shape compiler: turns one type shape into relational tables.
//!
//! A record becomes one table, each field one column. A sum type is
//! normalized into a main table (identity key, discriminant, one
//! nullable foreign-key column per data-bearing variant) plus one
//! table per data-bearing variant, locked together by the
//! `variant_integrity` check constraint.

use vstd::prelude::*;
use vstd::string::StringExecFns;

use crate::owned_shape::{
    fields_view, lemma_fields_view_index, lemma_fields_view_len, lemma_variants_view_index,
    lemma_variants_view_len, strings_view, variants_view, FieldV, NumV, OwnedEnumType,
    OwnedField, OwnedNumericType, OwnedPrimitiveType, OwnedShape, OwnedTextualType, OwnedType,
    OwnedUserType, PrimV, ShapeV, TextV, TyV, UserV, VariantV,
};
use crate::schema::{
    Column, DataType, ForeignKey, IdentityGeneration, PartialSchema, PrimaryKey, QualifiedName,
    Table, TableOptions,
};
use crate::schema::CheckConstraint;
use crate::text::{contains_sub, dec_str, ends_with, string_contains, string_ends_with,
    string_eq_str, u64_to_string};
use std::collections::HashMap;

verus! {

// ---------------------------------------------------------------------------
// Lowercasing (trusted)
// ---------------------------------------------------------------------------

/// The Unicode lowercasing of a character sequence, as
/// `str::to_lowercase` computes it.
pub uninterp spec fn lower_of(s: Seq<char>) -> Seq<char>;

/// Relies on str::to_lowercase: the result is a function of the
/// characters alone.
#[verifier::external_body]
fn lowercase(s: &String) -> (r: String)
    ensures
        r@ == lower_of(s@),
{
    s.to_lowercase()
}

// ---------------------------------------------------------------------------
// Errors
// ---------------------------------------------------------------------------

/// Ghost model of a compilation error.
pub enum ErrV {
    UnsupportedType(Seq<char>),
    NotAStruct(Seq<char>),
    MissingTypeInfo,
    MultiplePrimaryKeys(Seq<char>),
}

/// Why a shape could not be compiled to a relational schema. Each
/// error carries the offending name or a description of the type.
#[derive(Debug)]
pub enum ConversionError {
    /// The payload kind cannot be mapped to a SQL data type.
    UnsupportedType(String),
    /// The top-level shape is neither a record nor a sum type.
    NotAStruct(String),
    /// The shape lacks the metadata needed to map it.
    MissingTypeInfo,
    /// More than one field carries the primary-key tag.
    MultiplePrimaryKeys(String),
}

impl View for ConversionError {
    type V = ErrV;

    open spec fn view(&self) -> ErrV {
        match self {
            ConversionError::UnsupportedType(m) => ErrV::UnsupportedType(m@),
            ConversionError::NotAStruct(m) => ErrV::NotAStruct(m@),
            ConversionError::MissingTypeInfo => ErrV::MissingTypeInfo,
            ConversionError::MultiplePrimaryKeys(m) => ErrV::MultiplePrimaryKeys(m@),
        }
    }
}

/// The rendering of an error, for display.
pub open spec fn err_message_seq(e: ErrV) -> Seq<char> {
    match e {
        ErrV::UnsupportedType(m) => "Unsupported type: "@ + m,
        ErrV::NotAStruct(m) => "Expected struct, got: "@ + m,
        ErrV::MissingTypeInfo => "Missing type information"@,
        ErrV::MultiplePrimaryKeys(m) => "Multiple primary keys defined: "@ + m,
    }
}

impl ConversionError {
    /// Renders the error as text.
    pub fn message(&self) -> (r: String)
        ensures
            r@ == err_message_seq(self@),
    {
        let mut r = String::new();
        match self {
            ConversionError::UnsupportedType(m) => {
                r.append("Unsupported type: ");
                r.append(m.as_str());
            },
            ConversionError::NotAStruct(m) => {
                r.append("Expected struct, got: ");
                r.append(m.as_str());
            },
            ConversionError::MissingTypeInfo => {
                r.append("Missing type information");
            },
            ConversionError::MultiplePrimaryKeys(m) => {
                r.append("Multiple primary keys defined: ");
                r.append(m.as_str());
            },
        }
        r
    }
}

// ---------------------------------------------------------------------------
// Data type mapping (ghost)
// ---------------------------------------------------------------------------

/// The SQL integer type for an integer of `sz` bytes: one or two
/// bytes fit a smallint, four an integer, anything wider a bigint.
pub open spec fn int_width_dt(sz: nat) -> DataType {
    if sz == 1 || sz == 2 {
        DataType::SmallInt
    } else if sz == 4 {
        DataType::Integer
    } else {
        DataType::BigInt
    }
}

/// Identifiers that denote the canonical owned string type.
pub open spec fn is_stringish(id: Seq<char>) -> bool {
    ||| id == "String"@
    ||| ends_with(id, "::String"@)
    ||| contains_sub(id, "alloc::string::String"@)
}

pub open spec fn msg_float_size(sz: nat) -> Seq<char> {
    "float with size "@ + dec_str(sz)
}

pub open spec fn msg_unsupported_user(id: Seq<char>) -> Seq<char> {
    "unsupported user type '"@ + id + "'"@
}

pub open spec fn msg_unsupported_payload(id: Seq<char>) -> Seq<char> {
    "unsupported payload '"@ + id + "'"@
}

pub open spec fn msg_not_a_struct(id: Seq<char>) -> Seq<char> {
    "shape '"@ + id + "' is not a record or sum type"@
}

pub open spec fn msg_multiple_pks(table: Seq<char>, n: nat) -> Seq<char> {
    "table '"@ + table + "' has "@ + dec_str(n) + " primary key fields"@
}

/// The SQL data type for a shape whose container is not optional.
pub open spec fn spec_payload_type(s: ShapeV) -> Result<(DataType, bool), ErrV> {
    match s.ty {
        TyV::Primitive(p) => match p {
            PrimV::Boolean => Ok((DataType::Boolean, false)),
            PrimV::Numeric(NumV::Integer { signed }) => match s.size {
                Some(sz) => Ok((int_width_dt(sz), false)),
                None => Err(ErrV::UnsupportedType("unsized integer"@)),
            },
            PrimV::Numeric(NumV::Float) => match s.size {
                Some(sz) => if sz == 4 {
                    Ok((DataType::Real, false))
                } else if sz == 8 {
                    Ok((DataType::DoublePrecision, false))
                } else {
                    Err(ErrV::UnsupportedType(msg_float_size(sz)))
                },
                None => Err(ErrV::UnsupportedType("unsized float"@)),
            },
            PrimV::Textual(TextV::Char) => Ok((DataType::Char(Some(1u32)), false)),
            PrimV::Textual(TextV::Str) => Ok((DataType::Text, false)),
            PrimV::Never => Err(ErrV::UnsupportedType("the never type"@)),
        },
        TyV::User(u) => if is_stringish(s.id) {
            Ok((DataType::Text, false))
        } else if contains_sub(s.id, "Vec"@) || contains_sub(s.id, "HashMap"@) {
            Ok((DataType::Jsonb, false))
        } else {
            match u {
                UserV::Struct(fs) => Ok((DataType::Jsonb, false)),
                UserV::Enum(vs) => Ok((DataType::Integer, false)),
                _ => Err(ErrV::UnsupportedType(msg_unsupported_user(s.id))),
            }
        },
        TyV::Sequence(sq) => Err(ErrV::UnsupportedType(msg_unsupported_payload(s.id))),
    }
}

/// The SQL data type and nullability for a shape: an optional
/// container is unwrapped (possibly repeatedly) and marks the column
/// nullable; the innermost payload decides the type.
pub open spec fn spec_data_type(s: ShapeV) -> Result<(DataType, bool), ErrV>
    decreases s,
{
    match s.def {
        crate::owned_shape::DefV::OptionOf { t } => match spec_data_type(*t) {
            Ok((dt, nb)) => Ok((dt, true)),
            Err(e) => Err(e),
        },
        _ => spec_payload_type(s),
    }
}

/// The data type of a field's column (meaningful when the field
/// maps without error).
pub open spec fn field_dt(f: FieldV) -> DataType {
    match spec_data_type(f.shape) {
        Ok((dt, nb)) => dt,
        Err(e) => DataType::Unknown,
    }
}

/// The nullability of a field's column.
pub open spec fn field_nullable(f: FieldV) -> bool {
    match spec_data_type(f.shape) {
        Ok((dt, nb)) => nb,
        Err(e) => false,
    }
}

// ---------------------------------------------------------------------------
// Data type mapping (executable)
// ---------------------------------------------------------------------------

/// Maps a shape to its SQL data type and nullability.
pub fn shape_to_data_type(shape: &OwnedShape) -> (r: Result<(DataType, bool), ConversionError>)
    ensures
        match r {
            Ok(p) => spec_data_type(shape@) == Ok::<(DataType, bool), ErrV>((p.0, p.1)),
            Err(e) => spec_data_type(shape@) == Err::<(DataType, bool), ErrV>(e@),
        },
    decreases *shape,
{
    match &*shape.def {
        crate::owned_shape::OwnedDef::Option(od) => match shape_to_data_type(&od.t) {
            Ok(p) => Ok((p.0, true)),
            Err(e) => Err(e),
        },
        _ => payload_to_data_type(shape),
    }
}

/// Maps a non-optional shape's payload to its SQL data type.
fn payload_to_data_type(shape: &OwnedShape) -> (r: Result<(DataType, bool), ConversionError>)
    requires
        !(shape@.def is OptionOf),
    ensures
        match r {
            Ok(p) => spec_payload_type(shape@) == Ok::<(DataType, bool), ErrV>((p.0, p.1))
                && spec_data_type(shape@) == Ok::<(DataType, bool), ErrV>((p.0, p.1)),
            Err(e) => spec_payload_type(shape@) == Err::<(DataType, bool), ErrV>(e@)
                && spec_data_type(shape@) == Err::<(DataType, bool), ErrV>(e@),
        },
{
    match &*shape.ty {
        OwnedType::Primitive(p) => primitive_to_data_type(p, shape),
        OwnedType::User(u) => user_type_to_data_type(u, shape),
        OwnedType::Sequence(_) => {
            let mut m = String::new();
            m.append("unsupported payload '");
            m.append(shape.type_identifier.as_str());
            m.append("'");
            proof {
                reveal_strlit("unsupported payload '");
                reveal_strlit("'");
            }
            Err(ConversionError::UnsupportedType(m))
        },
    }
}

/// Maps a primitive payload to its SQL data type, deciding integer
/// and float width from the shape's size in bytes.
pub fn primitive_to_data_type(prim: &OwnedPrimitiveType, shape: &OwnedShape) -> (r: Result<
    (DataType, bool),
    ConversionError,
>)
    requires
        !(shape@.def is OptionOf),
        shape@.ty == TyV::Primitive(crate::owned_shape::prim_view(*prim)),
    ensures
        match r {
            Ok(p) => spec_payload_type(shape@) == Ok::<(DataType, bool), ErrV>((p.0, p.1)),
            Err(e) => spec_payload_type(shape@) == Err::<(DataType, bool), ErrV>(e@),
        },
{
    match prim {
        OwnedPrimitiveType::Boolean => Ok((DataType::Boolean, false)),
        OwnedPrimitiveType::Numeric(OwnedNumericType::Integer { signed }) => match shape.size {
            Some(sz) => {
                if sz == 1 || sz == 2 {
                    Ok((DataType::SmallInt, false))
                } else if sz == 4 {
                    Ok((DataType::Integer, false))
                } else {
                    Ok((DataType::BigInt, false))
                }
            },
            None => {
                let mut m = String::new();
                m.append("unsized integer");
                proof {
                    reveal_strlit("unsized integer");
                }
                Err(ConversionError::UnsupportedType(m))
            },
        },
        OwnedPrimitiveType::Numeric(OwnedNumericType::Float) => match shape.size {
            Some(sz) => {
                if sz == 4 {
                    Ok((DataType::Real, false))
                } else if sz == 8 {
                    Ok((DataType::DoublePrecision, false))
                } else {
                    let mut m = String::new();
                    m.append("float with size ");
                    m.append(u64_to_string(sz as u64).as_str());
                    proof {
                        reveal_strlit("float with size ");
                        assert(m@ =~= msg_float_size(sz as nat));
                    }
                    Err(ConversionError::UnsupportedType(m))
                }
            },
            None => {
                let mut m = String::new();
                m.append("unsized float");
                proof {
                    reveal_strlit("unsized float");
                }
                Err(ConversionError::UnsupportedType(m))
            },
        },
        OwnedPrimitiveType::Textual(OwnedTextualType::Char) => Ok((
            DataType::Char(Some(1)),
            false,
        )),
        OwnedPrimitiveType::Textual(OwnedTextualType::Str) => Ok((DataType::Text, false)),
        OwnedPrimitiveType::Never => {
            let mut m = String::new();
            m.append("the never type");
            proof {
                reveal_strlit("the never type");
            }
            Err(ConversionError::UnsupportedType(m))
        },
    }
}

/// Maps a user-defined payload to its SQL data type: string types to
/// text, list and map types (by name pattern) and nested records to
/// jsonb, nested sum types to an integer discriminant.
pub fn user_type_to_data_type(user_type: &OwnedUserType, shape: &OwnedShape) -> (r: Result<
    (DataType, bool),
    ConversionError,
>)
    requires
        !(shape@.def is OptionOf),
        shape@.ty == TyV::User(crate::owned_shape::user_view(*user_type)),
    ensures
        match r {
            Ok(p) => spec_payload_type(shape@) == Ok::<(DataType, bool), ErrV>((p.0, p.1)),
            Err(e) => spec_payload_type(shape@) == Err::<(DataType, bool), ErrV>(e@),
        },
{
    let id = &shape.type_identifier;
    let stringish = string_eq_str(id, "String") || string_ends_with(id, "::String")
        || string_contains(id, "alloc::string::String");
    proof {
        reveal_strlit("String");
        reveal_strlit("::String");
        reveal_strlit("alloc::string::String");
    }
    if stringish {
        return Ok((DataType::Text, false));
    }
    if string_contains(id, "Vec") || string_contains(id, "HashMap") {
        proof {
            reveal_strlit("Vec");
            reveal_strlit("HashMap");
        }
        return Ok((DataType::Jsonb, false));
    }
    match user_type {
        OwnedUserType::Struct(_) => Ok((DataType::Jsonb, false)),
        OwnedUserType::Enum(_) => Ok((DataType::Integer, false)),
        _ => {
            let mut m = String::new();
            m.append("unsupported user type '");
            m.append(id.as_str());
            m.append("'");
            proof {
                reveal_strlit("unsupported user type '");
                reveal_strlit("'");
            }
            Err(ConversionError::UnsupportedType(m))
        },
    }
}

} // verus!

verus! {

// ---------------------------------------------------------------------------
// Fields and primary keys (ghost)
// ---------------------------------------------------------------------------

/// Whether a field carries the primary-key tag in the `psql`
/// namespace.
pub open spec fn has_pk_tag(f: FieldV) -> bool {
    exists|i: int| 0 <= i < f.tags.len() && #[trigger] f.tags[i] == ("psql"@, "primary_key"@)
}

/// The names of the fields tagged as primary key, in declaration
/// order.
pub open spec fn spec_pk_names(fs: Seq<FieldV>) -> Seq<Seq<char>>
    decreases fs,
{
    if fs.len() == 0 {
        Seq::empty()
    } else {
        spec_pk_names(fs.drop_last()) + (if has_pk_tag(fs.last()) {
            seq![fs.last().name]
        } else {
            Seq::empty()
        })
    }
}

/// The first field whose shape cannot be mapped, if any.
pub open spec fn spec_fields_err(fs: Seq<FieldV>) -> Option<ErrV>
    decreases fs,
{
    if fs.len() == 0 {
        None
    } else {
        match spec_data_type(fs[0].shape) {
            Err(e) => Some(e),
            Ok(p) => spec_fields_err(fs.drop_first()),
        }
    }
}

/// Why a field list cannot become the columns of table `tname`: a
/// field that does not map, or more than one primary-key tag.
pub open spec fn spec_table_err(tname: Seq<char>, fs: Seq<FieldV>) -> Option<ErrV> {
    match spec_fields_err(fs) {
        Some(e) => Some(e),
        None => if spec_pk_names(fs).len() > 1 {
            Some(
                ErrV::MultiplePrimaryKeys(msg_multiple_pks(tname, spec_pk_names(fs).len())),
            )
        } else {
            None
        },
    }
}

// ---------------------------------------------------------------------------
// Result shape predicates (ghost)
// ---------------------------------------------------------------------------

/// A column with the given name, type and nullability and no other
/// modifiers.
pub open spec fn plain_column(c: Column, name: Seq<char>, dt: DataType, nullable: bool) -> bool {
    &&& c.name@ == name
    &&& c.data_type == dt
    &&& c.nullable == nullable
    &&& c.default is None
    &&& c.collation is None
    &&& !c.is_generated
    &&& c.generation_expression is None
    &&& !c.is_identity
    &&& c.identity_generation is None
    &&& c.comment is None
    &&& c.privileges is None
}

/// The auto-incrementing identity column `id` of a generated table.
pub open spec fn identity_id_column(c: Column) -> bool {
    &&& c.name@ == "id"@
    &&& c.data_type is BigSerial
    &&& !c.nullable
    &&& c.default is None
    &&& c.collation is None
    &&& c.is_generated
    &&& c.generation_expression is None
    &&& c.is_identity
    &&& c.identity_generation matches Some(IdentityGeneration::Always)
    &&& c.comment is None
    &&& c.privileges is None
}

/// The non-null integer `discriminant` column of a sum type's main
/// table.
pub open spec fn discriminant_column(c: Column) -> bool {
    &&& c.name@ == "discriminant"@
    &&& c.data_type is Integer
    &&& !c.nullable
    &&& c.default is None
    &&& c.collation is None
    &&& !c.is_generated
    &&& c.generation_expression is None
    &&& !c.is_identity
    &&& c.identity_generation is None
    &&& (c.comment matches Some(m) && m@ == "Discriminant for enum variant"@)
    &&& c.privileges is None
}

/// Table options with nothing set.
pub open spec fn empty_options(o: TableOptions) -> bool {
    &&& o.inherits@.len() == 0
    &&& !o.temporary
    &&& !o.unlogged
    &&& o.partitioned is None
    &&& o.tablespace is None
    &&& o.with_storage_params@.len() == 0
}

/// A primary key over exactly the named columns, unnamed and
/// unmodified; no key at all when no column is named.
pub open spec fn pk_matches(pk: Option<PrimaryKey>, names: Seq<Seq<char>>) -> bool {
    if names.len() == 0 {
        pk is None
    } else {
        &&& pk matches Some(p)
        &&& p.name is None
        &&& strings_view(pk->0.columns@) == names
        &&& pk->0.deferrable is None
        &&& pk->0.using is None
    }
}

/// A table carrying nothing besides its name, columns and primary
/// key.
pub open spec fn table_skeleton(t: Table) -> bool {
    &&& t.uniques@.len() == 0
    &&& t.foreign_keys@.len() == 0
    &&& t.checks@.len() == 0
    &&& t.indexes@.len() == 0
    &&& empty_options(t.options)
    &&& t.comment is None
    &&& t.owned_sequences@.len() == 0
}

/// The table a record shape compiles to: named `tname`, one plain
/// column per field in order, the primary key drawn from the tagged
/// fields, and nothing else.
pub open spec fn struct_table_matches(t: Table, tname: Seq<char>, fs: Seq<FieldV>) -> bool {
    &&& t.name@ == tname
    &&& t.columns@.len() == fs.len()
    &&& forall|i: int|
        0 <= i < fs.len() ==> plain_column(
            #[trigger] t.columns@[i],
            fs[i].name,
            field_dt(fs[i]),
            field_nullable(fs[i]),
        )
    &&& pk_matches(t.primary_key, spec_pk_names(fs))
    &&& table_skeleton(t)
}

// ---------------------------------------------------------------------------
// Fields and primary keys (executable)
// ---------------------------------------------------------------------------

/// Whether a field carries the primary-key tag.
fn field_has_pk_tag(field: &OwnedField) -> (r: bool)
    ensures
        r == has_pk_tag(field@),
{
    let ghost fv = field@;
    let mut i: usize = 0;
    while i < field.tags.len()
        invariant
            i <= field.tags@.len(),
            fv == field@,
            fv.tags.len() == field.tags@.len(),
            forall|k: int|
                0 <= k < field.tags@.len() ==> #[trigger] fv.tags[k] == (
                    field.tags@[k].0@,
                    field.tags@[k].1@,
                ),
            forall|k: int| 0 <= k < i ==> #[trigger] fv.tags[k] != ("psql"@, "primary_key"@),
        decreases field.tags@.len() - i,
    {
        let hit = string_eq_str(&field.tags[i].0, "psql") && string_eq_str(
            &field.tags[i].1,
            "primary_key",
        );
        if hit {
            proof {
                assert(fv.tags[i as int] == ("psql"@, "primary_key"@));
            }
            return true;
        }
        i = i + 1;
    }
    false
}

/// Builds a column carrying only a name, a type and nullability.
fn make_column(name: &String, dt: DataType, nullable: bool) -> (c: Column)
    ensures
        plain_column(c, name@, dt, nullable),
{
    Column {
        name: name.clone(),
        data_type: dt,
        default: None,
        nullable,
        collation: None,
        is_generated: false,
        generation_expression: None,
        is_identity: false,
        identity_generation: None,
        comment: None,
        privileges: None,
    }
}

/// Builds the identity `id` column of a generated table.
fn make_id_column() -> (c: Column)
    ensures
        identity_id_column(c),
{
    let mut name = String::new();
    name.append("id");
    proof {
        reveal_strlit("id");
    }
    Column {
        name,
        data_type: DataType::BigSerial,
        default: None,
        nullable: false,
        collation: None,
        is_generated: true,
        generation_expression: None,
        is_identity: true,
        identity_generation: Some(IdentityGeneration::Always),
        comment: None,
        privileges: None,
    }
}

/// Builds table options with nothing set.
pub fn empty_table_options() -> (o: TableOptions)
    ensures
        empty_options(o),
{
    TableOptions {
        inherits: Vec::new(),
        temporary: false,
        unlogged: false,
        partitioned: None,
        tablespace: None,
        with_storage_params: HashMap::new(),
    }
}

/// Builds the primary key over the named columns, or none.
fn make_primary_key(pk_columns: Vec<String>) -> (pk: Option<PrimaryKey>)
    requires
        pk_columns@.len() <= 1,
    ensures
        pk_matches(pk, strings_view(pk_columns@)),
{
    if pk_columns.len() == 0 {
        None
    } else {
        Some(PrimaryKey { name: None, columns: pk_columns, deferrable: None, using: None })
    }
}

/// Maps one field to one column.
pub fn field_to_column(field: &OwnedField) -> (r: Result<Column, ConversionError>)
    ensures
        match r {
            Ok(c) => spec_data_type(field@.shape) is Ok && plain_column(
                c,
                field@.name,
                field_dt(field@),
                field_nullable(field@),
            ),
            Err(e) => spec_data_type(field@.shape) == Err::<(DataType, bool), ErrV>(e@),
        },
{
    match shape_to_data_type(&field.shape) {
        Ok(p) => Ok(make_column(&field.name, p.0, p.1)),
        Err(e) => Err(e),
    }
}

/// The error outcome of a field list is decided by its first
/// unmappable field.
proof fn lemma_fields_err_skip(fs: Seq<FieldV>, i: int)
    requires
        0 <= i <= fs.len(),
        forall|k: int| 0 <= k < i ==> spec_data_type((#[trigger] fs[k]).shape) is Ok,
    ensures
        spec_fields_err(fs) == spec_fields_err(fs.skip(i)),
    decreases i,
{
    if i > 0 {
        lemma_fields_err_skip(fs.drop_first(), i - 1);
        assert(fs.drop_first().skip(i - 1) =~= fs.skip(i));
    } else {
        assert(fs.skip(0) =~= fs);
    }
}

/// Maps a field list to columns and collects the primary key;
/// rejects more than one tagged field.
pub fn process_fields(fields: &Vec<OwnedField>, table_name: &String) -> (r: Result<
    (Vec<Column>, Option<PrimaryKey>),
    ConversionError,
>)
    ensures
        match r {
            Ok(p) => {
                &&& spec_table_err(table_name@, fields_view(fields@)) is None
                &&& p.0@.len() == fields@.len()
                &&& forall|i: int|
                    0 <= i < fields@.len() ==> plain_column(
                        #[trigger] p.0@[i],
                        fields_view(fields@)[i].name,
                        field_dt(fields_view(fields@)[i]),
                        field_nullable(fields_view(fields@)[i]),
                    )
                &&& pk_matches(p.1, spec_pk_names(fields_view(fields@)))
            },
            Err(e) => spec_table_err(table_name@, fields_view(fields@)) == Some(e@),
        },
{
    let ghost fsv = fields_view(fields@);
    proof {
        lemma_fields_view_len(fields@);
    }
    let mut columns: Vec<Column> = Vec::new();
    let mut pk_columns: Vec<String> = Vec::new();
    let mut i: usize = 0;
    while i < fields.len()
        invariant
            i <= fields@.len(),
            fsv == fields_view(fields@),
            fsv.len() == fields@.len(),
            columns@.len() == i,
            forall|k: int|
                0 <= k < i ==> plain_column(
                    #[trigger] columns@[k],
                    fsv[k].name,
                    field_dt(fsv[k]),
                    field_nullable(fsv[k]),
                ),
            forall|k: int| 0 <= k < i ==> spec_data_type((#[trigger] fsv[k]).shape) is Ok,
            strings_view(pk_columns@) == spec_pk_names(fsv.take(i as int)),
        decreases fields@.len() - i,
    {
        proof {
            lemma_fields_view_index(fields@, i as int);
            assert(fsv.take(i + 1).drop_last() =~= fsv.take(i as int));
            assert(fsv.take(i + 1).last() == fsv[i as int]);
        }
        match field_to_column(&fields[i]) {
            Ok(column) => {
                columns.push(column);
            },
            Err(e) => {
                proof {
                    assert forall|k: int| 0 <= k < i implies spec_data_type(
                        (#[trigger] fsv[k]).shape,
                    ) is Ok by {}
                    lemma_fields_err_skip(fsv, i as int);
                    assert(fsv.skip(i as int)[0] == fsv[i as int]);
                }
                return Err(e);
            },
        }
        if field_has_pk_tag(&fields[i]) {
            let ghost prev = pk_columns@;
            pk_columns.push(fields[i].name.clone());
            proof {
                assert(strings_view(pk_columns@) =~= strings_view(prev)
                    + seq![fsv[i as int].name]);
            }
        } else {
            proof {
                assert(strings_view(pk_columns@) == spec_pk_names(fsv.take(i + 1)));
            }
        }
        i = i + 1;
    }
    proof {
        assert(fsv.take(fsv.len() as int) =~= fsv);
        lemma_fields_err_skip(fsv, fsv.len() as int);
        assert(fsv.skip(fsv.len() as int) =~= Seq::<FieldV>::empty());
    }
    if pk_columns.len() > 1 {
        let mut m = String::new();
        m.append("table '");
        m.append(table_name.as_str());
        m.append("' has ");
        m.append(u64_to_string(pk_columns.len() as u64).as_str());
        m.append(" primary key fields");
        proof {
            reveal_strlit("table '");
            reveal_strlit("' has ");
            reveal_strlit(" primary key fields");
            assert(m@ =~= msg_multiple_pks(table_name@, spec_pk_names(fsv).len()));
        }
        return Err(ConversionError::MultiplePrimaryKeys(m));
    }
    let pk = make_primary_key(pk_columns);
    Ok((columns, pk))
}

} // verus!

verus! {

// ---------------------------------------------------------------------------
// Sum-type normalization (ghost)
// ---------------------------------------------------------------------------

/// The name of a data-bearing variant's own table.
pub open spec fn variant_table_name(base: Seq<char>, vname: Seq<char>) -> Seq<char> {
    base + "_"@ + lower_of(vname)
}

/// The name of the main table's foreign-key column for a
/// data-bearing variant.
pub open spec fn fk_col_name(vname: Seq<char>) -> Seq<char> {
    lower_of(vname) + "_id"@
}

/// The declaration indices of the data-bearing (non-unit) variants,
/// in order.
pub open spec fn nonunit_indices(vs: Seq<VariantV>) -> Seq<int>
    decreases vs,
{
    if vs.len() == 0 {
        Seq::empty()
    } else {
        nonunit_indices(vs.drop_last()) + (if vs.last().fields.len() > 0 {
            seq![vs.len() - 1]
        } else {
            Seq::empty()
        })
    }
}

/// The variant-lockstep clause for the variant at declaration index
/// `i`: its foreign-key column is non-null exactly when the
/// discriminant selects it.
pub open spec fn lockstep_clause(i: nat, vname: Seq<char>) -> Seq<char> {
    "(CASE WHEN discriminant = "@ + dec_str(i) + " THEN "@ + fk_col_name(vname)
        + " IS NOT NULL ELSE "@ + fk_col_name(vname) + " IS NULL END)"@
}

/// The lockstep clauses of all data-bearing variants, in
/// declaration order.
pub open spec fn spec_check_parts(vs: Seq<VariantV>) -> Seq<Seq<char>>
    decreases vs,
{
    if vs.len() == 0 {
        Seq::empty()
    } else {
        spec_check_parts(vs.drop_last()) + (if vs.last().fields.len() > 0 {
            seq![lockstep_clause((vs.len() - 1) as nat, vs.last().name)]
        } else {
            Seq::empty()
        })
    }
}

/// Conjoins clauses with AND.
pub open spec fn join_and(parts: Seq<Seq<char>>) -> Seq<char>
    decreases parts,
{
    if parts.len() == 0 {
        Seq::empty()
    } else if parts.len() == 1 {
        parts[0]
    } else {
        join_and(parts.drop_last()) + " AND "@ + parts.last()
    }
}

/// The expression of the `variant_integrity` check constraint:
/// every lockstep clause conjoined, or a trivially true clause when
/// no variant bears data.
pub open spec fn check_expr(vs: Seq<VariantV>) -> Seq<char> {
    if spec_check_parts(vs).len() == 0 {
        "1=1"@
    } else {
        join_and(spec_check_parts(vs))
    }
}

/// The first error among the data-bearing variants' field lists, in
/// declaration order.
pub open spec fn spec_variants_err(base: Seq<char>, vs: Seq<VariantV>) -> Option<ErrV>
    decreases vs,
{
    if vs.len() == 0 {
        None
    } else if vs[0].fields.len() == 0 {
        spec_variants_err(base, vs.drop_first())
    } else {
        match spec_table_err(variant_table_name(base, vs[0].name), vs[0].fields) {
            Some(e) => Some(e),
            None => spec_variants_err(base, vs.drop_first()),
        }
    }
}

/// Why a shape cannot compile, or nothing when it can: records and
/// sum types compile when every field maps and no table gains two
/// primary keys; any other top-level shape is rejected.
pub open spec fn spec_compile_err(s: ShapeV) -> Option<ErrV> {
    match s.ty {
        TyV::User(UserV::Struct(fs)) => spec_table_err(lower_of(s.id), fs),
        TyV::User(UserV::Enum(vs)) => spec_variants_err(lower_of(s.id), vs),
        _ => Some(ErrV::NotAStruct(msg_not_a_struct(s.id))),
    }
}

/// The main-table foreign key for a data-bearing variant: its
/// column references the variant table's `id`, cascading on delete.
pub open spec fn fk_matches(fk: ForeignKey, base: Seq<char>, vname: Seq<char>) -> bool {
    &&& fk.name is None
    &&& strings_view(fk.columns@) == seq![fk_col_name(vname)]
    &&& fk.referenced_table.schema is None
    &&& fk.referenced_table.name@ == variant_table_name(base, vname)
    &&& (fk.referenced_columns matches Some(rc) && strings_view(rc@) == seq!["id"@])
    &&& fk.on_delete matches Some(crate::schema::ReferentialAction::Cascade)
    &&& fk.on_update matches Some(crate::schema::ReferentialAction::NoAction)
    &&& fk.match_type is None
    &&& fk.deferrable is None
    &&& fk.initially is None
}

/// The `variant_integrity` check constraint of the main table.
pub open spec fn check_matches(c: CheckConstraint, vs: Seq<VariantV>) -> bool {
    &&& c.name matches Some(n) && n@ == "variant_integrity"@
    &&& c.expression@ == check_expr(vs)
    &&& !c.no_inherit
}

/// The table a data-bearing variant compiles to: its own identity
/// key, then one column per variant field.
pub open spec fn variant_table_matches(t: Table, base: Seq<char>, v: VariantV) -> bool {
    &&& t.name@ == variant_table_name(base, v.name)
    &&& t.columns@.len() == 1 + v.fields.len()
    &&& identity_id_column(t.columns@[0])
    &&& forall|i: int|
        0 <= i < v.fields.len() ==> plain_column(
            #[trigger] t.columns@[1 + i],
            v.fields[i].name,
            field_dt(v.fields[i]),
            field_nullable(v.fields[i]),
        )
    &&& pk_matches(t.primary_key, seq!["id"@])
    &&& table_skeleton(t)
}

/// The main table a sum type compiles to: identity key,
/// discriminant, one nullable foreign-key column per data-bearing
/// variant, the foreign keys themselves, and the lockstep check.
pub open spec fn main_table_matches(t: Table, base: Seq<char>, vs: Seq<VariantV>) -> bool {
    let idx = nonunit_indices(vs);
    &&& t.name@ == base
    &&& t.columns@.len() == 2 + idx.len()
    &&& identity_id_column(t.columns@[0])
    &&& discriminant_column(t.columns@[1])
    &&& forall|j: int|
        0 <= j < idx.len() ==> plain_column(
            #[trigger] t.columns@[2 + j],
            fk_col_name(vs[idx[j]].name),
            DataType::BigInt,
            true,
        )
    &&& pk_matches(t.primary_key, seq!["id"@])
    &&& t.uniques@.len() == 0
    &&& t.foreign_keys@.len() == idx.len()
    &&& forall|j: int|
        0 <= j < idx.len() ==> fk_matches(#[trigger] t.foreign_keys@[j], base, vs[idx[j]].name)
    &&& t.checks@.len() == 1
    &&& check_matches(t.checks@[0], vs)
    &&& t.indexes@.len() == 0
    &&& empty_options(t.options)
    &&& t.comment is None
    &&& t.owned_sequences@.len() == 0
}

/// The table list a sum type compiles to: the data-bearing
/// variants' tables in declaration order, then the main table.
pub open spec fn enum_tables_match(ts: Seq<Table>, base: Seq<char>, vs: Seq<VariantV>) -> bool {
    let idx = nonunit_indices(vs);
    &&& ts.len() == idx.len() + 1
    &&& forall|j: int|
        0 <= j < idx.len() ==> variant_table_matches(#[trigger] ts[j], base, vs[idx[j]])
    &&& main_table_matches(ts[idx.len() as int], base, vs)
}

/// A schema holding nothing besides its tables.
pub open spec fn rest_empty(ps: PartialSchema) -> bool {
    &&& ps.views@.len() == 0
    &&& ps.materialized_views@.len() == 0
    &&& ps.enums@.len() == 0
    &&& ps.domains@.len() == 0
    &&& ps.composite_types@.len() == 0
    &&& ps.sequences@.len() == 0
    &&& ps.collations@.len() == 0
    &&& ps.functions@.len() == 0
}

/// The schema a shape compiles to.
pub open spec fn schema_matches(ps: PartialSchema, s: ShapeV) -> bool {
    match s.ty {
        TyV::User(UserV::Struct(fs)) => ps.tables@.len() == 1 && struct_table_matches(
            ps.tables@[0],
            lower_of(s.id),
            fs,
        ) && rest_empty(ps),
        TyV::User(UserV::Enum(vs)) => enum_tables_match(ps.tables@, lower_of(s.id), vs)
            && rest_empty(ps),
        _ => false,
    }
}

} // verus!

verus! {

// ---------------------------------------------------------------------------
// Tables (executable)
// ---------------------------------------------------------------------------

/// The fields of a record shape (empty for any other payload).
pub open spec fn record_fields(s: ShapeV) -> Seq<FieldV> {
    match s.ty {
        TyV::User(UserV::Struct(fs)) => fs,
        _ => Seq::empty(),
    }
}

/// Why a shape cannot become a single table, or nothing when it
/// can: only records qualify here.
pub open spec fn spec_struct_err(s: ShapeV) -> Option<ErrV> {
    match s.ty {
        TyV::User(UserV::Struct(fs)) => spec_table_err(lower_of(s.id), fs),
        _ => Some(ErrV::NotAStruct(msg_not_a_struct(s.id))),
    }
}

/// Builds the `NotAStruct` error for a shape.
fn not_a_struct_error(shape: &OwnedShape) -> (e: ConversionError)
    ensures
        e@ == ErrV::NotAStruct(msg_not_a_struct(shape@.id)),
{
    let mut m = String::new();
    m.append("shape '");
    m.append(shape.type_identifier.as_str());
    m.append("' is not a record or sum type");
    proof {
        reveal_strlit("shape '");
        reveal_strlit("' is not a record or sum type");
    }
    ConversionError::NotAStruct(m)
}

/// Builds the primary key over the single column `id`.
fn make_id_pk() -> (pk: Option<PrimaryKey>)
    ensures
        pk_matches(pk, seq!["id"@]),
{
    let mut cols: Vec<String> = Vec::new();
    cols.push(String::from_str("id"));
    proof {
        assert(strings_view(cols@) =~= seq!["id"@]);
    }
    Some(PrimaryKey { name: None, columns: cols, deferrable: None, using: None })
}

/// Builds the non-null integer discriminant column of a sum type's
/// main table.
fn make_discriminant_column() -> (c: Column)
    ensures
        discriminant_column(c),
{
    Column {
        name: String::from_str("discriminant"),
        data_type: DataType::Integer,
        default: None,
        nullable: false,
        collation: None,
        is_generated: false,
        generation_expression: None,
        is_identity: false,
        identity_generation: None,
        comment: Some(String::from_str("Discriminant for enum variant")),
        privileges: None,
    }
}

/// Compiles a record shape into its one table.
pub fn shape_to_table(shape: &OwnedShape) -> (r: Result<Table, ConversionError>)
    ensures
        match r {
            Ok(t) => {
                &&& shape@.ty matches TyV::User(UserV::Struct(_))
                &&& spec_struct_err(shape@) is None
                &&& struct_table_matches(t, lower_of(shape@.id), record_fields(shape@))
            },
            Err(e) => spec_struct_err(shape@) == Some(e@),
        },
{
    proof {
        crate::owned_shape::lemma_ty_view_kind(*shape.ty);
    }
    match &*shape.ty {
        OwnedType::User(OwnedUserType::Struct(st)) => {
            proof {
                lemma_fields_view_len(st.fields@);
                assert(shape@.ty == TyV::User(UserV::Struct(fields_view(st.fields@))));
                assert(record_fields(shape@) == fields_view(st.fields@));
            }
            let table_name = lowercase(&shape.type_identifier);
            match process_fields(&st.fields, &table_name) {
                Ok(p) => {
                    let table = Table {
                        name: table_name,
                        columns: p.0,
                        primary_key: p.1,
                        uniques: Vec::new(),
                        foreign_keys: Vec::new(),
                        checks: Vec::new(),
                        indexes: Vec::new(),
                        options: empty_table_options(),
                        comment: None,
                        owned_sequences: Vec::new(),
                    };
                    Ok(table)
                },
                Err(e) => Err(e),
            }
        },
        _ => Err(not_a_struct_error(shape)),
    }
}

// ---------------------------------------------------------------------------
// Sum-type normalization (executable)
// ---------------------------------------------------------------------------

/// The error outcome of a variant list is decided by its first
/// failing data-bearing variant.
proof fn lemma_variants_err_skip(base: Seq<char>, vs: Seq<VariantV>, i: int)
    requires
        0 <= i <= vs.len(),
        forall|k: int|
            0 <= k < i ==> ((#[trigger] vs[k]).fields.len() > 0 ==> spec_table_err(
                variant_table_name(base, vs[k].name),
                vs[k].fields,
            ) is None),
    ensures
        spec_variants_err(base, vs) == spec_variants_err(base, vs.skip(i)),
    decreases i,
{
    if i > 0 {
        lemma_variants_err_skip(base, vs.drop_first(), i - 1);
        assert(vs.drop_first().skip(i - 1) =~= vs.skip(i));
    } else {
        assert(vs.skip(0) =~= vs);
    }
}

/// Compiles a sum-type shape into its table family: one table per
/// data-bearing variant, then the main table with discriminant,
/// foreign keys and the variant-lockstep check.
pub fn enum_to_partial_schema(shape: &OwnedShape, enum_type: &OwnedEnumType) -> (r: Result<
    PartialSchema,
    ConversionError,
>)
    requires
        shape@.ty == TyV::User(UserV::Enum(variants_view(enum_type.variants@))),
    ensures
        match r {
            Ok(ps) => {
                &&& spec_variants_err(
                    lower_of(shape@.id),
                    variants_view(enum_type.variants@),
                ) is None
                &&& enum_tables_match(
                    ps.tables@,
                    lower_of(shape@.id),
                    variants_view(enum_type.variants@),
                )
                &&& rest_empty(ps)
            },
            Err(e) => spec_variants_err(
                lower_of(shape@.id),
                variants_view(enum_type.variants@),
            ) == Some(e@),
        },
{
    let ghost vsv = variants_view(enum_type.variants@);
    let ghost basev = lower_of(shape@.id);
    proof {
        lemma_variants_view_len(enum_type.variants@);
    }
    let base = lowercase(&shape.type_identifier);
    let mut tables: Vec<Table> = Vec::new();
    let mut foreign_keys: Vec<ForeignKey> = Vec::new();
    let mut main_columns: Vec<Column> = Vec::new();
    main_columns.push(make_id_column());
    main_columns.push(make_discriminant_column());
    let mut i: usize = 0;
    while i < enum_type.variants.len()
        invariant
            i <= enum_type.variants@.len(),
            vsv == variants_view(enum_type.variants@),
            vsv.len() == enum_type.variants@.len(),
            basev == lower_of(shape@.id),
            base@ == basev,
            tables@.len() == nonunit_indices(vsv.take(i as int)).len(),
            forall|j: int|
                0 <= j < tables@.len() ==> variant_table_matches(
                    #[trigger] tables@[j],
                    basev,
                    vsv[nonunit_indices(vsv.take(i as int))[j]],
                ),
            main_columns@.len() == 2 + nonunit_indices(vsv.take(i as int)).len(),
            identity_id_column(main_columns@[0]),
            discriminant_column(main_columns@[1]),
            forall|j: int|
                0 <= j < nonunit_indices(vsv.take(i as int)).len() ==> plain_column(
                    #[trigger] main_columns@[2 + j],
                    fk_col_name(vsv[nonunit_indices(vsv.take(i as int))[j]].name),
                    DataType::BigInt,
                    true,
                ),
            foreign_keys@.len() == nonunit_indices(vsv.take(i as int)).len(),
            forall|j: int|
                0 <= j < foreign_keys@.len() ==> fk_matches(
                    #[trigger] foreign_keys@[j],
                    basev,
                    vsv[nonunit_indices(vsv.take(i as int))[j]].name,
                ),
            forall|k: int|
                0 <= k < i ==> ((#[trigger] vsv[k]).fields.len() > 0 ==> spec_table_err(
                    variant_table_name(basev, vsv[k].name),
                    vsv[k].fields,
                ) is None),
        decreases enum_type.variants@.len() - i,
    {
        proof {
            lemma_variants_view_index(enum_type.variants@, i as int);
            assert(vsv.take(i + 1).drop_last() =~= vsv.take(i as int));
            assert(vsv.take(i + 1).last() == vsv[i as int]);
        }
        let variant = &enum_type.variants[i];
        if variant.data.fields.len() > 0 {
            proof {
                lemma_fields_view_len(variant.data.fields@);
            }
            let variant_lower = lowercase(&variant.name);
            let mut variant_table_nm = String::new();
            variant_table_nm.append(base.as_str());
            variant_table_nm.append("_");
            variant_table_nm.append(variant_lower.as_str());
            proof {
                reveal_strlit("_");
                assert(variant_table_nm@ =~= variant_table_name(basev, vsv[i as int].name));
            }
            match process_fields(&variant.data.fields, &variant_table_nm) {
                Ok(p) => {
                    let mut variant_columns: Vec<Column> = Vec::new();
                    variant_columns.push(make_id_column());
                    let mut field_cols = p.0;
                    variant_columns.append(&mut field_cols);
                    let variant_table = Table {
                        name: variant_table_nm,
                        columns: variant_columns,
                        primary_key: make_id_pk(),
                        uniques: Vec::new(),
                        foreign_keys: Vec::new(),
                        checks: Vec::new(),
                        indexes: Vec::new(),
                        options: empty_table_options(),
                        comment: None,
                        owned_sequences: Vec::new(),
                    };
                    tables.push(variant_table);
                    proof {
                        assert(variant_table_matches(
                            tables@.last(),
                            basev,
                            vsv[i as int],
                        ));
                        assert(nonunit_indices(vsv.take(i + 1)) =~= nonunit_indices(
                            vsv.take(i as int),
                        ) + seq![i as int]);
                    }
                    let mut fk_column_nm = String::new();
                    fk_column_nm.append(variant_lower.as_str());
                    fk_column_nm.append("_id");
                    proof {
                        reveal_strlit("_id");
                        assert(fk_column_nm@ =~= fk_col_name(vsv[i as int].name));
                    }
                    main_columns.push(make_column(&fk_column_nm, DataType::BigInt, true));
                    let mut ref_table_nm = String::new();
                    ref_table_nm.append(base.as_str());
                    ref_table_nm.append("_");
                    ref_table_nm.append(variant_lower.as_str());
                    proof {
                        assert(ref_table_nm@ =~= variant_table_name(basev, vsv[i as int].name));
                    }
                    let mut fk_columns: Vec<String> = Vec::new();
                    fk_columns.push(fk_column_nm);
                    let mut ref_columns: Vec<String> = Vec::new();
                    ref_columns.push(String::from_str("id"));
                    proof {
                        assert(strings_view(fk_columns@) =~= seq![fk_col_name(
                            vsv[i as int].name,
                        )]);
                        assert(strings_view(ref_columns@) =~= seq!["id"@]);
                    }
                    foreign_keys.push(
                        ForeignKey {
                            name: None,
                            columns: fk_columns,
                            referenced_table: QualifiedName { schema: None, name: ref_table_nm },
                            referenced_columns: Some(ref_columns),
                            on_delete: Some(crate::schema::ReferentialAction::Cascade),
                            on_update: Some(crate::schema::ReferentialAction::NoAction),
                            match_type: None,
                            deferrable: None,
                            initially: None,
                        },
                    );
                },
                Err(e) => {
                    proof {
                        lemma_variants_err_skip(basev, vsv, i as int);
                        assert(vsv.skip(i as int)[0] == vsv[i as int]);
                    }
                    return Err(e);
                },
            }
        } else {
            proof {
                assert(nonunit_indices(vsv.take(i + 1)) =~= nonunit_indices(vsv.take(i as int)));
            }
        }
        i = i + 1;
    }
    proof {
        assert(vsv.take(vsv.len() as int) =~= vsv);
        lemma_variants_err_skip(basev, vsv, vsv.len() as int);
        assert(vsv.skip(vsv.len() as int) =~= Seq::<VariantV>::empty());
    }
    // Build the variant-lockstep check expression in a second pass.
    let mut parts: Vec<String> = Vec::new();
    let mut i2: usize = 0;
    while i2 < enum_type.variants.len()
        invariant
            i2 <= enum_type.variants@.len(),
            vsv == variants_view(enum_type.variants@),
            vsv.len() == enum_type.variants@.len(),
            basev == lower_of(shape@.id),
            base@ == basev,
            strings_view(parts@) == spec_check_parts(vsv.take(i2 as int)),
        decreases enum_type.variants@.len() - i2,
    {
        proof {
            lemma_variants_view_index(enum_type.variants@, i2 as int);
            assert(vsv.take(i2 + 1).drop_last() =~= vsv.take(i2 as int));
            assert(vsv.take(i2 + 1).last() == vsv[i2 as int]);
        }
        let variant = &enum_type.variants[i2];
        if variant.data.fields.len() > 0 {
            proof {
                lemma_fields_view_len(variant.data.fields@);
            }
            let variant_lower = lowercase(&variant.name);
            let mut col = String::new();
            col.append(variant_lower.as_str());
            col.append("_id");
            proof {
                reveal_strlit("_id");
                assert(col@ =~= fk_col_name(vsv[i2 as int].name));
            }
            let mut clause = String::new();
            clause.append("(CASE WHEN discriminant = ");
            clause.append(u64_to_string(i2 as u64).as_str());
            clause.append(" THEN ");
            clause.append(col.as_str());
            clause.append(" IS NOT NULL ELSE ");
            clause.append(col.as_str());
            clause.append(" IS NULL END)");
            proof {
                reveal_strlit("(CASE WHEN discriminant = ");
                reveal_strlit(" THEN ");
                reveal_strlit(" IS NOT NULL ELSE ");
                reveal_strlit(" IS NULL END)");
                assert(clause@ =~= lockstep_clause(i2 as nat, vsv[i2 as int].name));
            }
            let ghost prev = parts@;
            parts.push(clause);
            proof {
                assert(strings_view(parts@) =~= strings_view(prev) + seq![lockstep_clause(
                    i2 as nat,
                    vsv[i2 as int].name,
                )]);
            }
        }
        i2 = i2 + 1;
    }
    proof {
        assert(vsv.take(vsv.len() as int) =~= vsv);
    }
    let ghost cp = spec_check_parts(vsv);
    let mut expression = String::new();
    if parts.len() == 0 {
        expression.append("1=1");
        proof {
            reveal_strlit("1=1");
            assert(expression@ =~= check_expr(vsv));
        }
    } else {
        expression.append(parts[0].as_str());
        proof {
            assert(parts@[0]@ == cp[0]);
            assert(cp.take(1) =~= seq![cp[0]]);
            assert(expression@ =~= join_and(cp.take(1)));
        }
        let mut k: usize = 1;
        while k < parts.len()
            invariant
                1 <= k <= parts@.len(),
                strings_view(parts@) == cp,
                cp.len() == parts@.len(),
                expression@ == join_and(cp.take(k as int)),
            decreases parts@.len() - k,
        {
            expression.append(" AND ");
            expression.append(parts[k].as_str());
            proof {
                reveal_strlit(" AND ");
                assert(parts@[k as int]@ == cp[k as int]);
                assert(cp.take(k + 1).drop_last() =~= cp.take(k as int));
                assert(cp.take(k + 1).last() == cp[k as int]);
                assert(expression@ =~= join_and(cp.take(k + 1)));
            }
            k = k + 1;
        }
        proof {
            assert(cp.take(cp.len() as int) =~= cp);
            assert(expression@ == check_expr(vsv));
        }
    }
    let mut checks: Vec<CheckConstraint> = Vec::new();
    checks.push(
        CheckConstraint {
            name: Some(String::from_str("variant_integrity")),
            expression,
            no_inherit: false,
        },
    );
    let main_table = Table {
        name: base,
        columns: main_columns,
        primary_key: make_id_pk(),
        uniques: Vec::new(),
        foreign_keys,
        checks,
        indexes: Vec::new(),
        options: empty_table_options(),
        comment: None,
        owned_sequences: Vec::new(),
    };
    tables.push(main_table);
    proof {
        assert(main_table_matches(tables@.last(), basev, vsv));
        assert(enum_tables_match(tables@, basev, vsv));
    }
    Ok(
        PartialSchema {
            tables,
            views: Vec::new(),
            materialized_views: Vec::new(),
            enums: Vec::new(),
            domains: Vec::new(),
            composite_types: Vec::new(),
            sequences: Vec::new(),
            collations: Vec::new(),
            functions: Vec::new(),
        },
    )
}

impl PartialSchema {
    /// Compiles one type shape into a schema: a record becomes one
    /// table; a sum type becomes its normalized table family; any
    /// other shape is rejected.
    pub fn from_shape(shape: &OwnedShape) -> (r: Result<PartialSchema, ConversionError>)
        ensures
            match r {
                Ok(ps) => spec_compile_err(shape@) is None && schema_matches(ps, shape@),
                Err(e) => spec_compile_err(shape@) == Some(e@),
            },
    {
        proof {
            crate::owned_shape::lemma_ty_view_kind(*shape.ty);
        }
        match &*shape.ty {
            OwnedType::User(OwnedUserType::Struct(_)) => match shape_to_table(shape) {
                Ok(table) => {
                    let mut tables: Vec<Table> = Vec::new();
                    tables.push(table);
                    Ok(
                        PartialSchema {
                            tables,
                            views: Vec::new(),
                            materialized_views: Vec::new(),
                            enums: Vec::new(),
                            domains: Vec::new(),
                            composite_types: Vec::new(),
                            sequences: Vec::new(),
                            collations: Vec::new(),
                            functions: Vec::new(),
                        },
                    )
                },
                Err(e) => Err(e),
            },
            OwnedType::User(OwnedUserType::Enum(e)) => enum_to_partial_schema(shape, e),
            _ => Err(not_a_struct_error(shape)),
        }
    }
}

} // verus!
