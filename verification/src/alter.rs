//! Statement synthesis: a record shape becomes a CREATE TABLE
//! statement; a record-vs-record diff becomes one ALTER TABLE
//! statement with an ADD COLUMN per insertion, a DROP COLUMN per
//! deletion and a type change per compatible update. Any other diff
//! kind, and any incompatible update, is rejected whole: no partial
//! statement is produced.

use vstd::prelude::*;
use vstd::string::StringExecFns;

use crate::diff::{lookup_field, Diff, DiffV, Value, ValueV};
use crate::diff::find_field;
use crate::owned_shape::{
    fields_view, lemma_fields_view_index, lemma_fields_view_len, lemma_prim_view_kind,
    lemma_ty_view_kind, strings_view, DefV, FieldV, NumV, OwnedDef, OwnedField,
    OwnedNumericType, OwnedPrimitiveType, OwnedShape, OwnedTextualType, OwnedType,
    OwnedUserType, PrimV, ShapeV, TextV, TyV, UserV,
};
use crate::text::{dec_str, string_eq_str, u64_to_string};

verus! {

// ---------------------------------------------------------------------------
// Statement model
// ---------------------------------------------------------------------------

/// The column types a statement can carry, in the vocabulary of the
/// SQL output target.
#[derive(Debug, PartialEq, Eq, Structural, Clone, Copy)]
pub enum ColumnType {
    TinyInteger,
    SmallInteger,
    Integer,
    BigInteger,
    Float,
    Double,
    Boolean,
    CharLen(u32),
    Varchar,
}

/// Ghost model of a statement column definition.
pub struct StatementColumnV {
    pub name: Seq<char>,
    pub column_type: ColumnType,
    pub nullable: bool,
}

/// A column definition inside a statement: name, type,
/// nullability.
#[derive(Debug)]
pub struct StatementColumn {
    pub name: String,
    pub column_type: ColumnType,
    pub nullable: bool,
}

impl View for StatementColumn {
    type V = StatementColumnV;

    open spec fn view(&self) -> StatementColumnV {
        StatementColumnV { name: self.name@, column_type: self.column_type, nullable: self.nullable }
    }
}

/// Ghost model of one ALTER TABLE operation.
pub enum AlterOpV {
    AddColumn(StatementColumnV),
    ModifyColumn(StatementColumnV),
    DropColumn(Seq<char>),
}

/// One operation of an ALTER TABLE statement.
#[derive(Debug)]
pub enum AlterOp {
    AddColumn(StatementColumn),
    ModifyColumn(StatementColumn),
    DropColumn(String),
}

impl View for AlterOp {
    type V = AlterOpV;

    open spec fn view(&self) -> AlterOpV {
        match self {
            AlterOp::AddColumn(c) => AlterOpV::AddColumn(c@),
            AlterOp::ModifyColumn(c) => AlterOpV::ModifyColumn(c@),
            AlterOp::DropColumn(n) => AlterOpV::DropColumn(n@),
        }
    }
}

pub open spec fn columns_view(cs: Seq<StatementColumn>) -> Seq<StatementColumnV> {
    cs.map_values(|c: StatementColumn| c@)
}

pub open spec fn ops_view(os: Seq<AlterOp>) -> Seq<AlterOpV> {
    os.map_values(|o: AlterOp| o@)
}

/// A CREATE TABLE statement: the table and its column definitions.
#[derive(Debug)]
pub struct TableCreateStatement {
    pub table: String,
    pub columns: Vec<StatementColumn>,
}

/// An ALTER TABLE statement: the table and its operations, applied
/// as one statement.
#[derive(Debug)]
pub struct TableAlterStatement {
    pub table: String,
    pub ops: Vec<AlterOp>,
}

// ---------------------------------------------------------------------------
// Column types (ghost)
// ---------------------------------------------------------------------------

/// A shape with one optional layer removed, if it has one.
pub open spec fn one_unwrap(s: ShapeV) -> ShapeV {
    match s.def {
        DefV::OptionOf { t } => *t,
        _ => s,
    }
}

/// A shape with every optional layer removed.
pub open spec fn spec_unwrap_deep(s: ShapeV) -> ShapeV
    decreases s,
{
    match s.def {
        DefV::OptionOf { t } => spec_unwrap_deep(*t),
        _ => s,
    }
}

/// The statement column type of a non-optional shape: integer and
/// float widths follow the type identifier, textual and enum
/// payloads become character types.
pub open spec fn spec_column_type(s: ShapeV) -> Result<ColumnType, Seq<char>> {
    match s.ty {
        TyV::Primitive(p) => match p {
            PrimV::Boolean => Ok(ColumnType::Boolean),
            PrimV::Numeric(NumV::Integer { signed }) => if s.id == "u8"@ || s.id == "i8"@ {
                Ok(ColumnType::TinyInteger)
            } else if s.id == "u16"@ || s.id == "i16"@ {
                Ok(ColumnType::SmallInteger)
            } else if s.id == "u32"@ || s.id == "i32"@ {
                Ok(ColumnType::Integer)
            } else if s.id == "u64"@ || s.id == "i64"@ || s.id == "usize"@ || s.id
                == "isize"@ {
                Ok(ColumnType::BigInteger)
            } else {
                Ok(ColumnType::Integer)
            },
            PrimV::Numeric(NumV::Float) => if s.id == "f32"@ {
                Ok(ColumnType::Float)
            } else {
                Ok(ColumnType::Double)
            },
            PrimV::Textual(TextV::Char) => Ok(ColumnType::CharLen(1u32)),
            PrimV::Textual(TextV::Str) => Ok(ColumnType::Varchar),
            PrimV::Never => Err("Never type not supported in SQL"@),
        },
        TyV::User(UserV::Enum(vs)) => Ok(ColumnType::Varchar),
        TyV::User(UserV::Opaque) => if s.id == "String"@ || s.id == "str"@ {
            Ok(ColumnType::Varchar)
        } else {
            Err("Unsupported Opaque type for SQL column: "@ + s.id)
        },
        _ => Err("Unsupported type for SQL column: "@ + s.id),
    }
}

/// The statement column a field maps to: nullability from its
/// optional container, the type from the payload one level inside.
pub open spec fn spec_field_column(f: FieldV) -> Result<StatementColumnV, Seq<char>> {
    match spec_column_type(one_unwrap(f.shape)) {
        Ok(ct) => Ok(
            StatementColumnV {
                name: f.name,
                column_type: ct,
                nullable: f.shape.def is OptionOf,
            },
        ),
        Err(m) => Err(m),
    }
}

// ---------------------------------------------------------------------------
// Column types (executable)
// ---------------------------------------------------------------------------

/// Strips every optional layer off a shape.
pub fn unwrap_option_type(shape: &OwnedShape) -> (r: &OwnedShape)
    ensures
        r@ == spec_unwrap_deep(shape@),
    decreases *shape,
{
    match &*shape.def {
        OwnedDef::Option(od) => unwrap_option_type(&od.t),
        _ => shape,
    }
}

/// Maps a non-optional shape to its statement column type.
pub fn column_type_from_shape(shape: &OwnedShape) -> (r: Result<ColumnType, String>)
    ensures
        match r {
            Ok(ct) => spec_column_type(shape@) == Ok::<ColumnType, Seq<char>>(ct),
            Err(m) => spec_column_type(shape@) == Err::<ColumnType, Seq<char>>(m@),
        },
{
    proof {
        lemma_ty_view_kind(*shape.ty);
    }
    let id = &shape.type_identifier;
    match &*shape.ty {
        OwnedType::Primitive(p) => {
            proof {
                lemma_prim_view_kind(*p);
            }
            match p {
                OwnedPrimitiveType::Boolean => Ok(ColumnType::Boolean),
                OwnedPrimitiveType::Numeric(OwnedNumericType::Integer { signed }) => {
                    proof {
                        reveal_strlit("u8");
                        reveal_strlit("i8");
                        reveal_strlit("u16");
                        reveal_strlit("i16");
                        reveal_strlit("u32");
                        reveal_strlit("i32");
                        reveal_strlit("u64");
                        reveal_strlit("i64");
                        reveal_strlit("usize");
                        reveal_strlit("isize");
                    }
                    if string_eq_str(id, "u8") || string_eq_str(id, "i8") {
                        Ok(ColumnType::TinyInteger)
                    } else if string_eq_str(id, "u16") || string_eq_str(id, "i16") {
                        Ok(ColumnType::SmallInteger)
                    } else if string_eq_str(id, "u32") || string_eq_str(id, "i32") {
                        Ok(ColumnType::Integer)
                    } else if string_eq_str(id, "u64") || string_eq_str(id, "i64")
                        || string_eq_str(id, "usize") || string_eq_str(id, "isize") {
                        Ok(ColumnType::BigInteger)
                    } else {
                        Ok(ColumnType::Integer)
                    }
                },
                OwnedPrimitiveType::Numeric(OwnedNumericType::Float) => {
                    if string_eq_str(id, "f32") {
                        Ok(ColumnType::Float)
                    } else {
                        Ok(ColumnType::Double)
                    }
                },
                OwnedPrimitiveType::Textual(OwnedTextualType::Char) => Ok(
                    ColumnType::CharLen(1),
                ),
                OwnedPrimitiveType::Textual(OwnedTextualType::Str) => Ok(ColumnType::Varchar),
                OwnedPrimitiveType::Never => {
                    let mut m = String::new();
                    m.append("Never type not supported in SQL");
                    proof {
                        reveal_strlit("Never type not supported in SQL");
                    }
                    Err(m)
                },
            }
        },
        OwnedType::User(OwnedUserType::Enum(_)) => Ok(ColumnType::Varchar),
        OwnedType::User(OwnedUserType::Opaque) => {
            proof {
                reveal_strlit("String");
                reveal_strlit("str");
            }
            if string_eq_str(id, "String") || string_eq_str(id, "str") {
                Ok(ColumnType::Varchar)
            } else {
                let mut m = String::new();
                m.append("Unsupported Opaque type for SQL column: ");
                m.append(id.as_str());
                proof {
                    reveal_strlit("Unsupported Opaque type for SQL column: ");
                }
                Err(m)
            }
        },
        _ => {
            let mut m = String::new();
            m.append("Unsupported type for SQL column: ");
            m.append(id.as_str());
            proof {
                reveal_strlit("Unsupported type for SQL column: ");
            }
            Err(m)
        },
    }
}

/// Maps a field to its statement column.
fn field_to_statement_column(field: &OwnedField) -> (r: Result<StatementColumn, String>)
    ensures
        match r {
            Ok(c) => spec_field_column(field@) == Ok::<StatementColumnV, Seq<char>>(c@),
            Err(m) => spec_field_column(field@) == Err::<StatementColumnV, Seq<char>>(m@),
        },
{
    let nullable = matches!(&*field.shape.def, OwnedDef::Option(_));
    let inner: &OwnedShape = match &*field.shape.def {
        OwnedDef::Option(od) => &od.t,
        _ => &field.shape,
    };
    proof {
        assert(inner@ == one_unwrap(field@.shape));
        assert(nullable == (field@.shape.def is OptionOf));
    }
    match column_type_from_shape(inner) {
        Ok(ct) => Ok(
            StatementColumn { name: field.name.clone(), column_type: ct, nullable },
        ),
        Err(m) => Err(m),
    }
}

// ---------------------------------------------------------------------------
// Compatibility of type changes
// ---------------------------------------------------------------------------

/// Whether a change between two (option-stripped) shapes can be
/// expressed as an in-place column type change: numeric and textual
/// payloads convert freely among each other, and the canonical
/// string type converts with numerics; nothing else does.
pub open spec fn compat_shapes(f: ShapeV, t: ShapeV) -> bool {
    match (f.ty, t.ty) {
        (TyV::Primitive(fp), TyV::Primitive(tp)) => match (fp, tp) {
            (PrimV::Numeric(x), PrimV::Numeric(y)) => true,
            (PrimV::Numeric(x), PrimV::Textual(y)) => true,
            (PrimV::Textual(x), PrimV::Numeric(y)) => true,
            (PrimV::Textual(x), PrimV::Textual(y)) => true,
            _ => false,
        },
        (TyV::User(UserV::Opaque), TyV::Primitive(PrimV::Numeric(y))) => f.id == "String"@,
        (TyV::Primitive(PrimV::Numeric(x)), TyV::User(UserV::Opaque)) => t.id == "String"@,
        _ => false,
    }
}

/// Whether a field-level diff is expressible as a column type
/// change. Only a `Different` leaf constrains anything.
pub open spec fn spec_is_compatible(d: DiffV) -> bool {
    match d {
        DiffV::Different { from, to } => compat_shapes(
            spec_unwrap_deep(from),
            spec_unwrap_deep(to),
        ),
        _ => true,
    }
}

/// Decides whether a field-level diff is expressible as a column
/// type change.
pub fn is_compatible_type_change(diff: &Diff) -> (r: Result<bool, String>)
    ensures
        r matches Ok(b) && b == spec_is_compatible(diff@),
{
    match diff {
        Diff::Different { from, to } => {
            let fi = unwrap_option_type(from);
            let ti = unwrap_option_type(to);
            proof {
                lemma_ty_view_kind(*fi.ty);
                lemma_ty_view_kind(*ti.ty);
                reveal_strlit("String");
            }
            match (&*fi.ty, &*ti.ty) {
                (OwnedType::Primitive(fp), OwnedType::Primitive(tp)) => {
                    proof {
                        lemma_prim_view_kind(*fp);
                        lemma_prim_view_kind(*tp);
                    }
                    match (fp, tp) {
                        (
                            OwnedPrimitiveType::Numeric(x),
                            OwnedPrimitiveType::Numeric(y),
                        ) => Ok(true),
                        (
                            OwnedPrimitiveType::Numeric(x),
                            OwnedPrimitiveType::Textual(y),
                        ) => Ok(true),
                        (
                            OwnedPrimitiveType::Textual(x),
                            OwnedPrimitiveType::Numeric(y),
                        ) => Ok(true),
                        (
                            OwnedPrimitiveType::Textual(x),
                            OwnedPrimitiveType::Textual(y),
                        ) => Ok(true),
                        _ => Ok(false),
                    }
                },
                (
                    OwnedType::User(OwnedUserType::Opaque),
                    OwnedType::Primitive(OwnedPrimitiveType::Numeric(y)),
                ) => {
                    proof {
                        lemma_prim_view_kind(ti.ty->Primitive_0);
                    }
                    Ok(string_eq_str(&fi.type_identifier, "String"))
                },
                (
                    OwnedType::Primitive(OwnedPrimitiveType::Numeric(x)),
                    OwnedType::User(OwnedUserType::Opaque),
                ) => {
                    proof {
                        lemma_prim_view_kind(fi.ty->Primitive_0);
                    }
                    Ok(string_eq_str(&ti.type_identifier, "String"))
                },
                (OwnedType::User(OwnedUserType::Opaque), OwnedType::Primitive(tp)) => {
                    proof {
                        lemma_prim_view_kind(*tp);
                    }
                    Ok(false)
                },
                (OwnedType::Primitive(fp), OwnedType::User(OwnedUserType::Opaque)) => {
                    proof {
                        lemma_prim_view_kind(*fp);
                    }
                    Ok(false)
                },
                _ => Ok(false),
            }
        },
        _ => Ok(true),
    }
}

} // verus!

verus! {

// ---------------------------------------------------------------------------
// Statement synthesis (ghost)
// ---------------------------------------------------------------------------

pub open spec fn msg_field_not_found(n: Seq<char>) -> Seq<char> {
    "Field '"@ + n + "' not found in 'to' struct"@
}

pub open spec fn msg_incompatible(n: Seq<char>) -> Seq<char> {
    "Incompatible type change for field '"@ + n
        + "'. Only conversions between numbers and strings are supported"@
}

/// The ADD COLUMN operation for an inserted field name, looked up
/// in the `to` record's fields.
pub open spec fn spec_add_entry(name: Seq<char>, tf: Seq<FieldV>) -> Result<
    AlterOpV,
    Seq<char>,
> {
    match lookup_field(tf, name) {
        None => Err(msg_field_not_found(name)),
        Some(f) => match spec_field_column(f) {
            Ok(c) => Ok(AlterOpV::AddColumn(c)),
            Err(m) => Err(m),
        },
    }
}

/// The first failing insertion, if any.
pub open spec fn spec_adds_err(ins: Seq<Seq<char>>, tf: Seq<FieldV>) -> Option<Seq<char>>
    decreases ins,
{
    if ins.len() == 0 {
        None
    } else {
        match spec_add_entry(ins[0], tf) {
            Err(m) => Some(m),
            Ok(op) => spec_adds_err(ins.drop_first(), tf),
        }
    }
}

/// The ADD COLUMN operations of the insertions, in order.
pub open spec fn spec_adds_ops(ins: Seq<Seq<char>>, tf: Seq<FieldV>) -> Seq<AlterOpV>
    decreases ins,
{
    if ins.len() == 0 {
        Seq::empty()
    } else {
        spec_adds_ops(ins.drop_last(), tf) + (match spec_add_entry(ins.last(), tf) {
            Ok(op) => seq![op],
            Err(m) => Seq::empty(),
        })
    }
}

/// The column type change for an updated field: the field is looked
/// up in `to`, the update must be compatible, and the new column
/// definition is drawn from the `to` field.
pub open spec fn spec_mod_entry(name: Seq<char>, d: DiffV, tf: Seq<FieldV>) -> Result<
    AlterOpV,
    Seq<char>,
> {
    match lookup_field(tf, name) {
        None => Err(msg_field_not_found(name)),
        Some(f) => if !spec_is_compatible(d) {
            Err(msg_incompatible(name))
        } else {
            match spec_field_column(f) {
                Ok(c) => Ok(AlterOpV::ModifyColumn(c)),
                Err(m) => Err(m),
            }
        },
    }
}

/// The first failing update, if any.
pub open spec fn spec_mods_err(us: Seq<(Seq<char>, DiffV)>, tf: Seq<FieldV>) -> Option<
    Seq<char>,
>
    decreases us,
{
    if us.len() == 0 {
        None
    } else {
        match spec_mod_entry(us[0].0, us[0].1, tf) {
            Err(m) => Some(m),
            Ok(op) => spec_mods_err(us.drop_first(), tf),
        }
    }
}

/// The column type changes of the updates, in order.
pub open spec fn spec_mods_ops(us: Seq<(Seq<char>, DiffV)>, tf: Seq<FieldV>) -> Seq<AlterOpV>
    decreases us,
{
    if us.len() == 0 {
        Seq::empty()
    } else {
        spec_mods_ops(us.drop_last(), tf) + (match spec_mod_entry(
            us.last().0,
            us.last().1,
            tf,
        ) {
            Ok(op) => seq![op],
            Err(m) => Seq::empty(),
        })
    }
}

/// The DROP COLUMN operations of the deletions, in order.
pub open spec fn spec_drop_ops(dels: Seq<Seq<char>>) -> Seq<AlterOpV>
    decreases dels,
{
    if dels.len() == 0 {
        Seq::empty()
    } else {
        spec_drop_ops(dels.drop_last()) + seq![AlterOpV::DropColumn(dels.last())]
    }
}

/// The ALTER TABLE statement a diff renders to, or the error that
/// rejects it: only a record-vs-record diff is expressible; an
/// unknown inserted or updated name, an incompatible update or an
/// unmappable column rejects the whole diff, and a diff with no
/// column changes yields nothing to alter.
pub open spec fn spec_alter(d: DiffV) -> Result<(Seq<char>, Seq<AlterOpV>), Seq<char>> {
    match d {
        DiffV::Equal => Err("Cannot create ALTER TABLE from Equal diff - no changes needed"@),
        DiffV::Different { from, to } => Err(
            "Cannot create ALTER TABLE from Different diff - shapes are incompatible"@,
        ),
        DiffV::Sequence { from, to } => Err(
            "Cannot create ALTER TABLE from Sequence diff - only struct diffs are supported"@,
        ),
        DiffV::User { from, to, value } => match value {
            ValueV::Struct { updates, deletions, insertions, unchanged } => match to.ty {
                TyV::User(UserV::Struct(tf)) => match spec_adds_err(insertions, tf) {
                    Some(m) => Err(m),
                    None => match spec_mods_err(updates, tf) {
                        Some(m) => Err(m),
                        None => if insertions.len() == 0 && deletions.len() == 0
                            && updates.len() == 0 {
                            Err("No column changes found"@)
                        } else {
                            Ok(
                                (
                                    to.id,
                                    spec_adds_ops(insertions, tf) + spec_mods_ops(updates, tf)
                                        + spec_drop_ops(deletions),
                                ),
                            )
                        },
                    },
                },
                _ => Err("Expected 'to' shape to be a struct"@),
            },
        },
    }
}

/// The CREATE TABLE statement a record shape renders to: the table
/// keeps the type identifier's spelling, one column per field.
pub open spec fn spec_create_cols_err(fs: Seq<FieldV>) -> Option<Seq<char>>
    decreases fs,
{
    if fs.len() == 0 {
        None
    } else {
        match spec_field_column(fs[0]) {
            Err(m) => Some(m),
            Ok(c) => spec_create_cols_err(fs.drop_first()),
        }
    }
}

pub open spec fn spec_create_cols(fs: Seq<FieldV>) -> Seq<StatementColumnV>
    decreases fs,
{
    if fs.len() == 0 {
        Seq::empty()
    } else {
        spec_create_cols(fs.drop_last()) + (match spec_field_column(fs.last()) {
            Ok(c) => seq![c],
            Err(m) => Seq::empty(),
        })
    }
}

pub open spec fn spec_create(s: ShapeV) -> Result<(Seq<char>, Seq<StatementColumnV>), Seq<char>> {
    match s.ty {
        TyV::User(UserV::Struct(fs)) => match spec_create_cols_err(fs) {
            Some(m) => Err(m),
            None => Ok((s.id, spec_create_cols(fs))),
        },
        _ => Err("Only record shapes can be converted to a CREATE TABLE statement"@),
    }
}

} // verus!

verus! {

// ---------------------------------------------------------------------------
// Statement synthesis (executable)
// ---------------------------------------------------------------------------

proof fn lemma_adds_err_skip(ins: Seq<Seq<char>>, tf: Seq<FieldV>, i: int)
    requires
        0 <= i <= ins.len(),
        forall|k: int| 0 <= k < i ==> spec_add_entry(#[trigger] ins[k], tf) is Ok,
    ensures
        spec_adds_err(ins, tf) == spec_adds_err(ins.skip(i), tf),
    decreases i,
{
    if i > 0 {
        lemma_adds_err_skip(ins.drop_first(), tf, i - 1);
        assert(ins.drop_first().skip(i - 1) =~= ins.skip(i));
    } else {
        assert(ins.skip(0) =~= ins);
    }
}

proof fn lemma_mods_err_skip(us: Seq<(Seq<char>, DiffV)>, tf: Seq<FieldV>, i: int)
    requires
        0 <= i <= us.len(),
        forall|k: int|
            0 <= k < i ==> spec_mod_entry((#[trigger] us[k]).0, us[k].1, tf) is Ok,
    ensures
        spec_mods_err(us, tf) == spec_mods_err(us.skip(i), tf),
    decreases i,
{
    if i > 0 {
        lemma_mods_err_skip(us.drop_first(), tf, i - 1);
        assert(us.drop_first().skip(i - 1) =~= us.skip(i));
    } else {
        assert(us.skip(0) =~= us);
    }
}

proof fn lemma_create_cols_err_skip(fs: Seq<FieldV>, i: int)
    requires
        0 <= i <= fs.len(),
        forall|k: int| 0 <= k < i ==> spec_field_column(#[trigger] fs[k]) is Ok,
    ensures
        spec_create_cols_err(fs) == spec_create_cols_err(fs.skip(i)),
    decreases i,
{
    if i > 0 {
        lemma_create_cols_err_skip(fs.drop_first(), i - 1);
        assert(fs.drop_first().skip(i - 1) =~= fs.skip(i));
    } else {
        assert(fs.skip(0) =~= fs);
    }
}

impl TableCreateStatement {
    /// Builds the CREATE TABLE statement for a record shape; any
    /// other shape is rejected.
    pub fn from_shape(shape: &OwnedShape) -> (r: Result<TableCreateStatement, String>)
        ensures
            match r {
                Ok(st) => spec_create(shape@) == Ok::<_, Seq<char>>(
                    (st.table@, columns_view(st.columns@)),
                ),
                Err(m) => spec_create(shape@) == Err::<(Seq<char>, Seq<StatementColumnV>), _>(
                    m@,
                ),
            },
    {
        proof {
            lemma_ty_view_kind(*shape.ty);
        }
        match &*shape.ty {
            OwnedType::User(OwnedUserType::Struct(st)) => {
                let ghost fsv = fields_view(st.fields@);
                proof {
                    lemma_fields_view_len(st.fields@);
                    assert(shape@.ty == TyV::User(UserV::Struct(fsv)));
                }
                let mut columns: Vec<StatementColumn> = Vec::new();
                let mut i: usize = 0;
                while i < st.fields.len()
                    invariant
                        i <= st.fields@.len(),
                        fsv == fields_view(st.fields@),
                        fsv.len() == st.fields@.len(),
                        shape@.ty == TyV::User(UserV::Struct(fsv)),
                        forall|k: int|
                            0 <= k < i ==> spec_field_column(#[trigger] fsv[k]) is Ok,
                        columns_view(columns@) == spec_create_cols(fsv.take(i as int)),
                    decreases st.fields@.len() - i,
                {
                    proof {
                        lemma_fields_view_index(st.fields@, i as int);
                        assert(fsv.take(i + 1).drop_last() =~= fsv.take(i as int));
                        assert(fsv.take(i + 1).last() == fsv[i as int]);
                    }
                    match field_to_statement_column(&st.fields[i]) {
                        Ok(c) => {
                            let ghost prev = columns@;
                            columns.push(c);
                            proof {
                                assert(columns_view(columns@) =~= columns_view(prev)
                                    + seq![c@]);
                            }
                        },
                        Err(m) => {
                            proof {
                                lemma_create_cols_err_skip(fsv, i as int);
                                assert(fsv.skip(i as int)[0] == fsv[i as int]);
                            }
                            return Err(m);
                        },
                    }
                    i = i + 1;
                }
                proof {
                    assert(fsv.take(fsv.len() as int) =~= fsv);
                    lemma_create_cols_err_skip(fsv, fsv.len() as int);
                    assert(fsv.skip(fsv.len() as int) =~= Seq::<FieldV>::empty());
                }
                Ok(TableCreateStatement { table: shape.type_identifier.clone(), columns })
            },
            _ => {
                let mut m = String::new();
                m.append("Only record shapes can be converted to a CREATE TABLE statement");
                proof {
                    reveal_strlit(
                        "Only record shapes can be converted to a CREATE TABLE statement",
                    );
                }
                Err(m)
            },
        }
    }
}

impl TableAlterStatement {
    /// Builds the single ALTER TABLE statement for a record diff,
    /// or rejects the diff whole: no partial statement is produced.
    pub fn from_diff(diff: &Diff) -> (r: Result<TableAlterStatement, String>)
        ensures
            match r {
                Ok(st) => spec_alter(diff@) == Ok::<_, Seq<char>>(
                    (st.table@, ops_view(st.ops@)),
                ),
                Err(m) => spec_alter(diff@) == Err::<(Seq<char>, Seq<AlterOpV>), _>(m@),
            },
    {
        match diff {
            Diff::Equal => {
                let mut m = String::new();
                m.append("Cannot create ALTER TABLE from Equal diff - no changes needed");
                proof {
                    reveal_strlit(
                        "Cannot create ALTER TABLE from Equal diff - no changes needed",
                    );
                }
                Err(m)
            },
            Diff::Different { from, to } => {
                let mut m = String::new();
                m.append(
                    "Cannot create ALTER TABLE from Different diff - shapes are incompatible",
                );
                proof {
                    reveal_strlit(
                        "Cannot create ALTER TABLE from Different diff - shapes are incompatible",
                    );
                }
                Err(m)
            },
            Diff::Sequence { from, to } => {
                let mut m = String::new();
                m.append(
                    "Cannot create ALTER TABLE from Sequence diff - only struct diffs are supported",
                );
                proof {
                    reveal_strlit(
                        "Cannot create ALTER TABLE from Sequence diff - only struct diffs are supported",
                    );
                }
                Err(m)
            },
            Diff::User { from, to, value } => {
                proof {
                    lemma_ty_view_kind(*to.ty);
                }
                match &*to.ty {
                    OwnedType::User(OwnedUserType::Struct(ts)) => {
                        let Value::Struct { updates, deletions, insertions, unchanged } = value;
                        let ghost tfv = fields_view(ts.fields@);
                        let ghost insv = strings_view(insertions@);
                        let ghost usv = crate::diff::updates_view(updates@);
                        let ghost delv = strings_view(deletions@);
                        proof {
                            lemma_fields_view_len(ts.fields@);
                            crate::diff::lemma_updates_view_len(updates@);
                            assert(to@.ty == TyV::User(UserV::Struct(tfv)));
                            assert(diff@ == DiffV::User {
                                from: from@,
                                to: to@,
                                value: ValueV::Struct {
                                    updates: usv,
                                    deletions: delv,
                                    insertions: insv,
                                    unchanged: strings_view(unchanged@),
                                },
                            });
                        }
                        let mut ops: Vec<AlterOp> = Vec::new();
                        let mut i: usize = 0;
                        while i < insertions.len()
                            invariant
                                i <= insertions@.len(),
                                tfv == fields_view(ts.fields@),
                                insv == strings_view(insertions@),
                                insv.len() == insertions@.len(),
                                diff@ == (DiffV::User {
                                    from: from@,
                                    to: to@,
                                    value: ValueV::Struct {
                                        updates: usv,
                                        deletions: delv,
                                        insertions: insv,
                                        unchanged: strings_view(unchanged@),
                                    },
                                }),
                                to@.ty == TyV::User(UserV::Struct(tfv)),
                                usv == crate::diff::updates_view(updates@),
                                delv == strings_view(deletions@),
                                forall|k: int|
                                    0 <= k < i ==> spec_add_entry(
                                        #[trigger] insv[k],
                                        tfv,
                                    ) is Ok,
                                ops_view(ops@) == spec_adds_ops(insv.take(i as int), tfv),
                            decreases insertions@.len() - i,
                        {
                            proof {
                                assert(insv[i as int] == insertions@[i as int]@);
                                assert(insv.take(i + 1).drop_last() =~= insv.take(i as int));
                                assert(insv.take(i + 1).last() == insv[i as int]);
                            }
                            match find_field(&ts.fields, &insertions[i]) {
                                Some(j) => {
                                    proof {
                                        lemma_fields_view_index(ts.fields@, j as int);
                                    }
                                    match field_to_statement_column(&ts.fields[j]) {
                                        Ok(c) => {
                                            let ghost prev = ops@;
                                            ops.push(AlterOp::AddColumn(c));
                                            proof {
                                                assert(ops_view(ops@) =~= ops_view(prev)
                                                    + seq![AlterOpV::AddColumn(c@)]);
                                            }
                                        },
                                        Err(m) => {
                                            proof {
                                                lemma_adds_err_skip(insv, tfv, i as int);
                                                assert(insv.skip(i as int)[0] == insv[
                                                    i as int]);
                                            }
                                            return Err(m);
                                        },
                                    }
                                },
                                None => {
                                    let mut m = String::new();
                                    m.append("Field '");
                                    m.append(insertions[i].as_str());
                                    m.append("' not found in 'to' struct");
                                    proof {
                                        reveal_strlit("Field '");
                                        reveal_strlit("' not found in 'to' struct");
                                        assert(m@ =~= msg_field_not_found(insv[i as int]));
                                        lemma_adds_err_skip(insv, tfv, i as int);
                                        assert(insv.skip(i as int)[0] == insv[i as int]);
                                    }
                                    return Err(m);
                                },
                            }
                            i = i + 1;
                        }
                        proof {
                            assert(insv.take(insv.len() as int) =~= insv);
                            lemma_adds_err_skip(insv, tfv, insv.len() as int);
                            assert(insv.skip(insv.len() as int) =~= Seq::<Seq<char>>::empty());
                        }
                        let mut u: usize = 0;
                        while u < updates.len()
                            invariant
                                u <= updates@.len(),
                                tfv == fields_view(ts.fields@),
                                usv == crate::diff::updates_view(updates@),
                                usv.len() == updates@.len(),
                                insv == strings_view(insertions@),
                                diff@ == (DiffV::User {
                                    from: from@,
                                    to: to@,
                                    value: ValueV::Struct {
                                        updates: usv,
                                        deletions: delv,
                                        insertions: insv,
                                        unchanged: strings_view(unchanged@),
                                    },
                                }),
                                to@.ty == TyV::User(UserV::Struct(tfv)),
                                usv == crate::diff::updates_view(updates@),
                                delv == strings_view(deletions@),
                                forall|k: int|
                                    0 <= k < u ==> spec_mod_entry(
                                        (#[trigger] usv[k]).0,
                                        usv[k].1,
                                        tfv,
                                    ) is Ok,
                                spec_adds_err(insv, tfv) is None,
                                ops_view(ops@) == spec_adds_ops(insv, tfv) + spec_mods_ops(
                                    usv.take(u as int),
                                    tfv,
                                ),
                            decreases updates@.len() - u,
                        {
                            proof {
                                crate::diff::lemma_updates_view_index(updates@, u as int);
                                assert(usv.take(u + 1).drop_last() =~= usv.take(u as int));
                                assert(usv.take(u + 1).last() == usv[u as int]);
                            }
                            let field_name = &updates[u].0;
                            let field_diff = &updates[u].1;
                            match find_field(&ts.fields, field_name) {
                                Some(j) => {
                                    proof {
                                        lemma_fields_view_index(ts.fields@, j as int);
                                    }
                                    let compatible = match is_compatible_type_change(
                                        field_diff,
                                    ) {
                                        Ok(b) => b,
                                        Err(m) => false,
                                    };
                                    if !compatible {
                                        let mut m = String::new();
                                        m.append("Incompatible type change for field '");
                                        m.append(field_name.as_str());
                                        m.append(
                                            "'. Only conversions between numbers and strings are supported",
                                        );
                                        proof {
                                            reveal_strlit(
                                                "Incompatible type change for field '",
                                            );
                                            reveal_strlit(
                                                "'. Only conversions between numbers and strings are supported",
                                            );
                                            assert(m@ =~= msg_incompatible(usv[u as int].0));
                                            lemma_mods_err_skip(usv, tfv, u as int);
                                            assert(usv.skip(u as int)[0] == usv[u as int]);
                                        }
                                        return Err(m);
                                    }
                                    match field_to_statement_column(&ts.fields[j]) {
                                        Ok(c) => {
                                            let ghost prev = ops@;
                                            ops.push(AlterOp::ModifyColumn(c));
                                            proof {
                                                assert(ops_view(ops@) =~= ops_view(prev)
                                                    + seq![AlterOpV::ModifyColumn(c@)]);
                                            }
                                        },
                                        Err(m) => {
                                            proof {
                                                lemma_mods_err_skip(usv, tfv, u as int);
                                                assert(usv.skip(u as int)[0] == usv[
                                                    u as int]);
                                            }
                                            return Err(m);
                                        },
                                    }
                                },
                                None => {
                                    let mut m = String::new();
                                    m.append("Field '");
                                    m.append(field_name.as_str());
                                    m.append("' not found in 'to' struct");
                                    proof {
                                        reveal_strlit("Field '");
                                        reveal_strlit("' not found in 'to' struct");
                                        assert(m@ =~= msg_field_not_found(usv[u as int].0));
                                        lemma_mods_err_skip(usv, tfv, u as int);
                                        assert(usv.skip(u as int)[0] == usv[u as int]);
                                    }
                                    return Err(m);
                                },
                            }
                            u = u + 1;
                        }
                        proof {
                            assert(usv.take(usv.len() as int) =~= usv);
                            lemma_mods_err_skip(usv, tfv, usv.len() as int);
                            assert(usv.skip(usv.len() as int) =~= Seq::<(
                                Seq<char>,
                                DiffV,
                            )>::empty());
                        }
                        if insertions.len() == 0 && deletions.len() == 0 && updates.len()
                            == 0 {
                            let mut m = String::new();
                            m.append("No column changes found");
                            proof {
                                reveal_strlit("No column changes found");
                            }
                            return Err(m);
                        }
                        let mut d: usize = 0;
                        while d < deletions.len()
                            invariant
                                d <= deletions@.len(),
                                tfv == fields_view(ts.fields@),
                                insv == strings_view(insertions@),
                                usv == crate::diff::updates_view(updates@),
                                delv == strings_view(deletions@),
                                delv.len() == deletions@.len(),
                                ops_view(ops@) == spec_adds_ops(insv, tfv) + spec_mods_ops(
                                    usv,
                                    tfv,
                                ) + spec_drop_ops(delv.take(d as int)),
                            decreases deletions@.len() - d,
                        {
                            proof {
                                assert(delv[d as int] == deletions@[d as int]@);
                                assert(delv.take(d + 1).drop_last() =~= delv.take(d as int));
                                assert(delv.take(d + 1).last() == delv[d as int]);
                            }
                            let ghost prev = ops@;
                            ops.push(AlterOp::DropColumn(deletions[d].clone()));
                            proof {
                                assert(ops_view(ops@) =~= ops_view(prev)
                                    + seq![AlterOpV::DropColumn(delv[d as int])]);
                            }
                            d = d + 1;
                        }
                        proof {
                            assert(delv.take(delv.len() as int) =~= delv);
                        }
                        Ok(
                            TableAlterStatement {
                                table: to.type_identifier.clone(),
                                ops,
                            },
                        )
                    },
                    _ => {
                        let mut m = String::new();
                        m.append("Expected 'to' shape to be a struct");
                        proof {
                            reveal_strlit("Expected 'to' shape to be a struct");
                        }
                        Err(m)
                    },
                }
            },
        }
    }
}

} // verus!

verus! {

// ---------------------------------------------------------------------------
// Rendering
// ---------------------------------------------------------------------------

/// An identifier in double quotes.
pub open spec fn q_ident(x: Seq<char>) -> Seq<char> {
    "\""@ + x + "\""@
}

/// The SQL spelling of a statement column type.
pub open spec fn coltype_sql(ct: ColumnType) -> Seq<char> {
    match ct {
        ColumnType::TinyInteger => "smallint"@,
        ColumnType::SmallInteger => "smallint"@,
        ColumnType::Integer => "integer"@,
        ColumnType::BigInteger => "bigint"@,
        ColumnType::Float => "real"@,
        ColumnType::Double => "double precision"@,
        ColumnType::Boolean => "bool"@,
        ColumnType::CharLen(n) => "char("@ + dec_str(n as nat) + ")"@,
        ColumnType::Varchar => "varchar"@,
    }
}

/// A column definition: quoted name, type, nullability.
pub open spec fn coldef_sql(c: StatementColumnV) -> Seq<char> {
    q_ident(c.name) + " "@ + coltype_sql(c.column_type) + (if c.nullable {
        " NULL"@
    } else {
        " NOT NULL"@
    })
}

/// One ALTER TABLE operation.
pub open spec fn op_sql(op: AlterOpV) -> Seq<char> {
    match op {
        AlterOpV::AddColumn(c) => "ADD COLUMN "@ + coldef_sql(c),
        AlterOpV::ModifyColumn(c) => "ALTER COLUMN "@ + q_ident(c.name) + " TYPE "@
            + coltype_sql(c.column_type),
        AlterOpV::DropColumn(n) => "DROP COLUMN "@ + q_ident(n),
    }
}

/// Pieces joined with a comma and a space.
pub open spec fn join_comma(xs: Seq<Seq<char>>) -> Seq<char>
    decreases xs,
{
    if xs.len() == 0 {
        Seq::empty()
    } else if xs.len() == 1 {
        xs[0]
    } else {
        join_comma(xs.drop_last()) + ", "@ + xs.last()
    }
}

pub open spec fn coldefs_sql(cs: Seq<StatementColumnV>) -> Seq<Seq<char>>
    decreases cs,
{
    if cs.len() == 0 {
        Seq::empty()
    } else {
        coldefs_sql(cs.drop_last()) + seq![coldef_sql(cs.last())]
    }
}

pub open spec fn ops_sql(os: Seq<AlterOpV>) -> Seq<Seq<char>>
    decreases os,
{
    if os.len() == 0 {
        Seq::empty()
    } else {
        ops_sql(os.drop_last()) + seq![op_sql(os.last())]
    }
}

/// The text of a CREATE TABLE statement.
pub open spec fn create_sql(table: Seq<char>, cs: Seq<StatementColumnV>) -> Seq<char> {
    "CREATE TABLE "@ + q_ident(table) + " ( "@ + join_comma(coldefs_sql(cs)) + " )"@
}

/// The text of an ALTER TABLE statement.
pub open spec fn alter_sql(table: Seq<char>, os: Seq<AlterOpV>) -> Seq<char> {
    "ALTER TABLE "@ + q_ident(table) + " "@ + join_comma(ops_sql(os))
}

/// Appends an identifier in double quotes.
fn append_quoted(dst: &mut String, name: &String)
    ensures
        final(dst)@ == old(dst)@ + q_ident(name@),
{
    dst.append("\"");
    dst.append(name.as_str());
    dst.append("\"");
    proof {
        reveal_strlit("\"");
        assert(dst@ =~= old(dst)@ + q_ident(name@));
    }
}

/// Renders a statement column type.
fn column_type_to_sql(ct: &ColumnType) -> (r: String)
    ensures
        r@ == coltype_sql(*ct),
{
    let mut r = String::new();
    match ct {
        ColumnType::TinyInteger => {
            r.append("smallint");
        },
        ColumnType::SmallInteger => {
            r.append("smallint");
        },
        ColumnType::Integer => {
            r.append("integer");
        },
        ColumnType::BigInteger => {
            r.append("bigint");
        },
        ColumnType::Float => {
            r.append("real");
        },
        ColumnType::Double => {
            r.append("double precision");
        },
        ColumnType::Boolean => {
            r.append("bool");
        },
        ColumnType::CharLen(n) => {
            r.append("char(");
            r.append(u64_to_string(*n as u64).as_str());
            r.append(")");
            proof {
                reveal_strlit("char(");
                reveal_strlit(")");
                assert(r@ =~= coltype_sql(*ct));
            }
        },
        ColumnType::Varchar => {
            r.append("varchar");
        },
    }
    r
}

/// Appends a column definition.
fn append_coldef(dst: &mut String, c: &StatementColumn)
    ensures
        final(dst)@ == old(dst)@ + coldef_sql(c@),
{
    append_quoted(dst, &c.name);
    dst.append(" ");
    dst.append(column_type_to_sql(&c.column_type).as_str());
    if c.nullable {
        dst.append(" NULL");
    } else {
        dst.append(" NOT NULL");
    }
    proof {
        reveal_strlit(" ");
        reveal_strlit(" NULL");
        reveal_strlit(" NOT NULL");
        assert(dst@ =~= old(dst)@ + coldef_sql(c@));
    }
}

impl TableCreateStatement {
    /// Renders the statement as SQL text. Rendering is a pure
    /// function of the statement: the same statement always yields
    /// the same text.
    pub fn to_postgres_sql(&self) -> (r: String)
        ensures
            r@ == create_sql(self.table@, columns_view(self.columns@)),
    {
        let ghost csv = columns_view(self.columns@);
        let mut r = String::new();
        r.append("CREATE TABLE ");
        append_quoted(&mut r, &self.table);
        r.append(" ( ");
        proof {
            reveal_strlit("CREATE TABLE ");
            reveal_strlit(" ( ");
        }
        let mut i: usize = 0;
        while i < self.columns.len()
            invariant
                i <= self.columns@.len(),
                csv == columns_view(self.columns@),
                csv.len() == self.columns@.len(),
                r@ == "CREATE TABLE "@ + q_ident(self.table@) + " ( "@ + join_comma(
                    coldefs_sql(csv.take(i as int)),
                ),
            decreases self.columns@.len() - i,
        {
            proof {
                assert(csv[i as int] == self.columns@[i as int]@);
                assert(csv.take(i + 1).drop_last() =~= csv.take(i as int));
                assert(csv.take(i + 1).last() == csv[i as int]);
                assert(coldefs_sql(csv.take(i + 1)).drop_last() =~= coldefs_sql(
                    csv.take(i as int),
                ));
            }
            if i > 0 {
                r.append(", ");
                proof {
                    reveal_strlit(", ");
                }
            }
            append_coldef(&mut r, &self.columns[i]);
            proof {
                assert(r@ =~= "CREATE TABLE "@ + q_ident(self.table@) + " ( "@ + join_comma(
                    coldefs_sql(csv.take(i + 1)),
                ));
            }
            i = i + 1;
        }
        r.append(" )");
        proof {
            reveal_strlit(" )");
            assert(csv.take(csv.len() as int) =~= csv);
            assert(r@ =~= create_sql(self.table@, csv));
        }
        r
    }
}

impl TableAlterStatement {
    /// Renders the statement as SQL text. Rendering is a pure
    /// function of the statement: the same statement always yields
    /// the same text.
    pub fn to_postgres_sql(&self) -> (r: String)
        ensures
            r@ == alter_sql(self.table@, ops_view(self.ops@)),
    {
        let ghost osv = ops_view(self.ops@);
        let mut r = String::new();
        r.append("ALTER TABLE ");
        append_quoted(&mut r, &self.table);
        r.append(" ");
        proof {
            reveal_strlit("ALTER TABLE ");
            reveal_strlit(" ");
        }
        let mut i: usize = 0;
        while i < self.ops.len()
            invariant
                i <= self.ops@.len(),
                osv == ops_view(self.ops@),
                osv.len() == self.ops@.len(),
                r@ == "ALTER TABLE "@ + q_ident(self.table@) + " "@ + join_comma(
                    ops_sql(osv.take(i as int)),
                ),
            decreases self.ops@.len() - i,
        {
            proof {
                assert(osv[i as int] == self.ops@[i as int]@);
                assert(osv.take(i + 1).drop_last() =~= osv.take(i as int));
                assert(osv.take(i + 1).last() == osv[i as int]);
                assert(ops_sql(osv.take(i + 1)).drop_last() =~= ops_sql(osv.take(i as int)));
            }
            if i > 0 {
                r.append(", ");
                proof {
                    reveal_strlit(", ");
                }
            }
            match &self.ops[i] {
                AlterOp::AddColumn(c) => {
                    r.append("ADD COLUMN ");
                    append_coldef(&mut r, c);
                    proof {
                        reveal_strlit("ADD COLUMN ");
                    }
                },
                AlterOp::ModifyColumn(c) => {
                    r.append("ALTER COLUMN ");
                    append_quoted(&mut r, &c.name);
                    r.append(" TYPE ");
                    r.append(column_type_to_sql(&c.column_type).as_str());
                    proof {
                        reveal_strlit("ALTER COLUMN ");
                        reveal_strlit(" TYPE ");
                    }
                },
                AlterOp::DropColumn(n) => {
                    r.append("DROP COLUMN ");
                    append_quoted(&mut r, n);
                    proof {
                        reveal_strlit("DROP COLUMN ");
                    }
                },
            }
            proof {
                assert(r@ =~= "ALTER TABLE "@ + q_ident(self.table@) + " "@ + join_comma(
                    ops_sql(osv.take(i + 1)),
                ));
            }
            i = i + 1;
        }
        proof {
            assert(osv.take(osv.len() as int) =~= osv);
        }
        r
    }
}

// ---------------------------------------------------------------------------
// Laws
// ---------------------------------------------------------------------------

/// A diff of equal shapes renders to no ALTER statement at all: the
/// attempt is rejected with the no-changes error.
pub proof fn lemma_alter_rejects_equal(d: DiffV)
    requires
        d is Equal,
    ensures
        spec_alter(d) == Err::<(Seq<char>, Seq<AlterOpV>), Seq<char>>(
            "Cannot create ALTER TABLE from Equal diff - no changes needed"@,
        ),
{
}

proof fn lemma_mods_err_none_compatible(us: Seq<(Seq<char>, DiffV)>, tf: Seq<FieldV>)
    requires
        spec_mods_err(us, tf) is None,
    ensures
        forall|k: int| 0 <= k < us.len() ==> spec_is_compatible((#[trigger] us[k]).1),
    decreases us,
{
    if us.len() > 0 {
        lemma_mods_err_none_compatible(us.drop_first(), tf);
        assert forall|k: int| 0 <= k < us.len() implies spec_is_compatible(
            (#[trigger] us[k]).1,
        ) by {
            if k > 0 {
                assert(us.drop_first()[k - 1] == us[k]);
            }
        }
    }
}

/// An ALTER statement is produced only when every update in the
/// diff is a compatible type change: one incompatible update
/// rejects the whole diff, and no partial statement exists.
pub proof fn lemma_alter_requires_compatible_updates(
    from: ShapeV,
    to: ShapeV,
    updates: Seq<(Seq<char>, DiffV)>,
    deletions: Seq<Seq<char>>,
    insertions: Seq<Seq<char>>,
    unchanged: Seq<Seq<char>>,
)
    requires
        spec_alter(
            DiffV::User {
                from,
                to,
                value: ValueV::Struct { updates, deletions, insertions, unchanged },
            },
        ) is Ok,
    ensures
        forall|k: int|
            0 <= k < updates.len() ==> spec_is_compatible((#[trigger] updates[k]).1),
{
    match to.ty {
        TyV::User(UserV::Struct(tf)) => {
            lemma_mods_err_none_compatible(updates, tf);
        },
        _ => {},
    }
}

} // verus!
