//! The DDL renderer: turns a whole schema into an ordered sequence
//! of SQL statements, joined by newlines. Statements come in fixed
//! passes — schema, types and sequences, base tables with their
//! local constraints, views, indexes, and foreign keys last — so
//! that nothing is referenced before it is defined, whatever order
//! the input lists its objects in.

use vstd::prelude::*;
use vstd::string::StringExecFns;
use vstd::view::View as _;

use crate::schema::{
    qualified_name_seq, CheckConstraint, Column, CompositeType, DataType, DomainType, EnumType,
    ForeignKey, IdentityGeneration, Index, IndexColumn, IndexExpr, MaterializedView, NullsOrder,
    PartialSchema, ReferentialAction, Sequence, SortOrder, Table, UniqueConstraint, View,
};
use crate::text::{dec_int_str, dec_str, esc, esc_seq, i64_to_string, u64_to_string};
use crate::owned_shape::strings_view;

verus! {

// ---------------------------------------------------------------------------
// Joining
// ---------------------------------------------------------------------------

/// Pieces joined by a separator.
pub open spec fn join_sep(xs: Seq<Seq<char>>, sep: Seq<char>) -> Seq<char>
    decreases xs,
{
    if xs.len() == 0 {
        Seq::empty()
    } else if xs.len() == 1 {
        xs[0]
    } else {
        join_sep(xs.drop_last(), sep) + sep + xs.last()
    }
}

/// Appends `parts` to `dst`, separated by `sep`.
fn append_joined(dst: &mut String, parts: &Vec<String>, sep: &str)
    ensures
        final(dst)@ == old(dst)@ + join_sep(strings_view(parts@), sep@),
{
    let ghost pv = strings_view(parts@);
    let mut i: usize = 0;
    while i < parts.len()
        invariant
            i <= parts@.len(),
            pv == strings_view(parts@),
            pv.len() == parts@.len(),
            dst@ == old(dst)@ + join_sep(pv.take(i as int), sep@),
        decreases parts@.len() - i,
    {
        proof {
            assert(pv[i as int] == parts@[i as int]@);
            assert(pv.take(i + 1).drop_last() =~= pv.take(i as int));
            assert(pv.take(i + 1).last() == pv[i as int]);
        }
        if i > 0 {
            dst.append(sep);
        }
        dst.append(parts[i].as_str());
        proof {
            assert(dst@ =~= old(dst)@ + join_sep(pv.take(i + 1), sep@));
        }
        i = i + 1;
    }
    proof {
        assert(pv.take(pv.len() as int) =~= pv);
    }
}

// ---------------------------------------------------------------------------
// Data types
// ---------------------------------------------------------------------------

/// The SQL spelling of a data type.
pub open spec fn dt_sql(dt: DataType) -> Seq<char>
    decreases dt,
{
    match dt {
        DataType::Boolean => "boolean"@,
        DataType::SmallInt => "smallint"@,
        DataType::Integer => "integer"@,
        DataType::BigInt => "bigint"@,
        DataType::Real => "real"@,
        DataType::DoublePrecision => "double precision"@,
        DataType::Numeric { precision, scale } => match (precision, scale) {
            (Some(p), Some(s)) => "numeric("@ + dec_str(p as nat) + ","@ + dec_str(s as nat)
                + ")"@,
            (Some(p), None) => "numeric("@ + dec_str(p as nat) + ")"@,
            _ => "numeric"@,
        },
        DataType::Serial => "serial"@,
        DataType::BigSerial => "bigserial"@,
        DataType::Text => "text"@,
        DataType::Varchar(opt) => match opt {
            Some(n) => "varchar("@ + dec_str(n as nat) + ")"@,
            None => "varchar"@,
        },
        DataType::Char(opt) => match opt {
            Some(n) => "char("@ + dec_str(n as nat) + ")"@,
            None => "char"@,
        },
        DataType::Bytea => "bytea"@,
        DataType::Timestamp { with_time_zone } => if with_time_zone {
            "timestamp with time zone"@
        } else {
            "timestamp without time zone"@
        },
        DataType::Date => "date"@,
        DataType::Time { with_time_zone } => if with_time_zone {
            "time with time zone"@
        } else {
            "time without time zone"@
        },
        DataType::Interval => "interval"@,
        DataType::Json => "json"@,
        DataType::Jsonb => "jsonb"@,
        DataType::Uuid => "uuid"@,
        DataType::Inet => "inet"@,
        DataType::MacAddr => "macaddr"@,
        DataType::TsVector => "tsvector"@,
        DataType::Array(inner) => dt_sql(*inner) + "[]"@,
        DataType::Enum { schema, name } => qualified_name_seq(schema, name),
        DataType::Composite { schema, name } => qualified_name_seq(schema, name),
        DataType::Domain { schema, name } => qualified_name_seq(schema, name),
        DataType::Custom { schema, name } => qualified_name_seq(schema, name),
        DataType::Any => "any"@,
        DataType::Unknown => "unknown"@,
    }
}

/// Renders a data type.
pub fn render_data_type(dt: &DataType) -> (r: String)
    ensures
        r@ == dt_sql(*dt),
    decreases *dt,
{
    let mut r = String::new();
    match dt {
        DataType::Boolean => {
            r.append("boolean");
        },
        DataType::SmallInt => {
            r.append("smallint");
        },
        DataType::Integer => {
            r.append("integer");
        },
        DataType::BigInt => {
            r.append("bigint");
        },
        DataType::Real => {
            r.append("real");
        },
        DataType::DoublePrecision => {
            r.append("double precision");
        },
        DataType::Numeric { precision, scale } => {
            match (precision, scale) {
                (Some(p), Some(s)) => {
                    r.append("numeric(");
                    r.append(u64_to_string(*p as u64).as_str());
                    r.append(",");
                    r.append(u64_to_string(*s as u64).as_str());
                    r.append(")");
                    proof {
                        reveal_strlit("numeric(");
                        reveal_strlit(",");
                        reveal_strlit(")");
                        assert(r@ =~= dt_sql(*dt));
                    }
                },
                (Some(p), None) => {
                    r.append("numeric(");
                    r.append(u64_to_string(*p as u64).as_str());
                    r.append(")");
                    proof {
                        reveal_strlit("numeric(");
                        reveal_strlit(")");
                        assert(r@ =~= dt_sql(*dt));
                    }
                },
                _ => {
                    r.append("numeric");
                },
            }
        },
        DataType::Serial => {
            r.append("serial");
        },
        DataType::BigSerial => {
            r.append("bigserial");
        },
        DataType::Text => {
            r.append("text");
        },
        DataType::Varchar(opt) => {
            match opt {
                Some(n) => {
                    r.append("varchar(");
                    r.append(u64_to_string(*n as u64).as_str());
                    r.append(")");
                    proof {
                        reveal_strlit("varchar(");
                        reveal_strlit(")");
                        assert(r@ =~= dt_sql(*dt));
                    }
                },
                None => {
                    r.append("varchar");
                },
            }
        },
        DataType::Char(opt) => {
            match opt {
                Some(n) => {
                    r.append("char(");
                    r.append(u64_to_string(*n as u64).as_str());
                    r.append(")");
                    proof {
                        reveal_strlit("char(");
                        reveal_strlit(")");
                        assert(r@ =~= dt_sql(*dt));
                    }
                },
                None => {
                    r.append("char");
                },
            }
        },
        DataType::Bytea => {
            r.append("bytea");
        },
        DataType::Timestamp { with_time_zone } => {
            if *with_time_zone {
                r.append("timestamp with time zone");
            } else {
                r.append("timestamp without time zone");
            }
        },
        DataType::Date => {
            r.append("date");
        },
        DataType::Time { with_time_zone } => {
            if *with_time_zone {
                r.append("time with time zone");
            } else {
                r.append("time without time zone");
            }
        },
        DataType::Interval => {
            r.append("interval");
        },
        DataType::Json => {
            r.append("json");
        },
        DataType::Jsonb => {
            r.append("jsonb");
        },
        DataType::Uuid => {
            r.append("uuid");
        },
        DataType::Inet => {
            r.append("inet");
        },
        DataType::MacAddr => {
            r.append("macaddr");
        },
        DataType::TsVector => {
            r.append("tsvector");
        },
        DataType::Array(inner) => {
            r.append(render_data_type(inner).as_str());
            r.append("[]");
            proof {
                reveal_strlit("[]");
                assert(r@ =~= dt_sql(*dt));
            }
        },
        DataType::Enum { schema, name } => {
            append_qualified(&mut r, schema, name);
        },
        DataType::Composite { schema, name } => {
            append_qualified(&mut r, schema, name);
        },
        DataType::Domain { schema, name } => {
            append_qualified(&mut r, schema, name);
        },
        DataType::Custom { schema, name } => {
            append_qualified(&mut r, schema, name);
        },
        DataType::Any => {
            r.append("any");
        },
        DataType::Unknown => {
            r.append("unknown");
        },
    }
    r
}

/// Appends a name, prefixed by its schema and a dot when one is
/// given.
fn append_qualified(dst: &mut String, schema: &Option<String>, name: &String)
    ensures
        final(dst)@ == old(dst)@ + qualified_name_seq(*schema, *name),
{
    match schema {
        Some(s) => {
            dst.append(s.as_str());
            dst.append(".");
            dst.append(name.as_str());
            proof {
                reveal_strlit(".");
                assert(dst@ =~= old(dst)@ + qualified_name_seq(*schema, *name));
            }
        },
        None => {
            dst.append(name.as_str());
        },
    }
}

} // verus!

verus! {

// ---------------------------------------------------------------------------
// Per-object statements: types, sequences, domains
// ---------------------------------------------------------------------------

/// The optional COMMENT ON statement for an object.
pub open spec fn comment_opt(prefix: Seq<char>, q: Seq<char>, c: Option<String>) -> Seq<
    Seq<char>,
> {
    match c {
        Some(cs) => seq![prefix + q + " IS '"@ + esc_seq(cs@) + "';"@],
        None => Seq::empty(),
    }
}

/// Appends the optional COMMENT ON statement.
fn push_comment(stmts: &mut Vec<String>, prefix: &str, q: &String, c: &Option<String>)
    ensures
        strings_view(final(stmts)@) == strings_view(old(stmts)@) + comment_opt(
            prefix@,
            q@,
            *c,
        ),
{
    match c {
        Some(cs) => {
            let mut stmt = String::new();
            stmt.append(prefix);
            stmt.append(q.as_str());
            stmt.append(" IS '");
            stmt.append(esc(cs).as_str());
            stmt.append("';");
            proof {
                reveal_strlit(" IS '");
                reveal_strlit("';");
            }
            let ghost prev = stmts@;
            stmts.push(stmt);
            proof {
                assert(strings_view(stmts@) =~= strings_view(prev) + comment_opt(
                    prefix@,
                    q@,
                    *c,
                ));
            }
        },
        None => {
            proof {
                assert(strings_view(stmts@) =~= strings_view(stmts@) + comment_opt(
                    prefix@,
                    q@,
                    *c,
                ));
            }
        },
    }
}

/// The quoted, escaped literal for one enum variant.
pub open spec fn variant_lit(v: String) -> Seq<char> {
    "'"@ + esc_seq(v@) + "'"@
}

pub open spec fn variant_lits(vs: Seq<String>) -> Seq<Seq<char>>
    decreases vs,
{
    if vs.len() == 0 {
        Seq::empty()
    } else {
        variant_lits(vs.drop_last()) + seq![variant_lit(vs.last())]
    }
}

/// The statements for one enumerated type: its CREATE TYPE ... AS
/// ENUM, then its comment if it has one.
pub open spec fn enum_stmts(e: EnumType) -> Seq<Seq<char>> {
    seq![
        "CREATE TYPE "@ + qualified_name_seq(e.schema, e.name) + " AS ENUM ("@ + join_sep(
            variant_lits(e.variants@),
            ", "@,
        ) + ");"@,
    ] + comment_opt("COMMENT ON TYPE "@, qualified_name_seq(e.schema, e.name), e.comment)
}

/// Renders one enumerated type.
fn push_enum_stmts(stmts: &mut Vec<String>, e: &EnumType)
    ensures
        strings_view(final(stmts)@) == strings_view(old(stmts)@) + enum_stmts(*e),
{
    let mut q = String::new();
    append_qualified(&mut q, &e.schema, &e.name);
    let mut lits: Vec<String> = Vec::new();
    let mut i: usize = 0;
    while i < e.variants.len()
        invariant
            i <= e.variants@.len(),
            strings_view(lits@) == variant_lits(e.variants@.take(i as int)),
        decreases e.variants@.len() - i,
    {
        let mut lit = String::new();
        lit.append("'");
        lit.append(esc(&e.variants[i]).as_str());
        lit.append("'");
        proof {
            reveal_strlit("'");
            assert(lit@ =~= variant_lit(e.variants@[i as int]));
        }
        let ghost prev = lits@;
        lits.push(lit);
        proof {
            assert(e.variants@.take(i + 1).drop_last() =~= e.variants@.take(i as int));
            assert(e.variants@.take(i + 1).last() == e.variants@[i as int]);
            assert(strings_view(lits@) =~= variant_lits(e.variants@.take(i + 1)));
        }
        i = i + 1;
    }
    proof {
        assert(e.variants@.take(e.variants@.len() as int) =~= e.variants@);
    }
    let mut stmt = String::new();
    stmt.append("CREATE TYPE ");
    stmt.append(q.as_str());
    stmt.append(" AS ENUM (");
    append_joined(&mut stmt, &lits, ", ");
    stmt.append(");");
    proof {
        reveal_strlit("CREATE TYPE ");
        reveal_strlit(" AS ENUM (");
        reveal_strlit(");");
    }
    let ghost prev = stmts@;
    stmts.push(stmt);
    proof {
        assert(strings_view(stmts@) =~= strings_view(prev) + seq![
            "CREATE TYPE "@ + qualified_name_seq(e.schema, e.name) + " AS ENUM ("@ + join_sep(
                variant_lits(e.variants@),
                ", "@,
            ) + ");"@,
        ]);
    }
    push_comment(stmts, "COMMENT ON TYPE ", &q, &e.comment);
    proof {
        reveal_strlit("COMMENT ON TYPE ");
        assert(strings_view(stmts@) =~= strings_view(prev) + enum_stmts(*e));
    }
}

/// The option clauses of a sequence, in their fixed order.
pub open spec fn sequence_parts(s: Sequence) -> Seq<Seq<char>> {
    seq!["CREATE SEQUENCE "@ + qualified_name_seq(s.schema, s.name)] + (match s.start {
        Some(v) => seq!["START WITH "@ + dec_int_str(v as int)],
        None => Seq::empty(),
    }) + (match s.increment {
        Some(v) => seq!["INCREMENT BY "@ + dec_int_str(v as int)],
        None => Seq::empty(),
    }) + (match s.min_value {
        Some(v) => seq!["MINVALUE "@ + dec_int_str(v as int)],
        None => Seq::empty(),
    }) + (match s.max_value {
        Some(v) => seq!["MAXVALUE "@ + dec_int_str(v as int)],
        None => Seq::empty(),
    }) + (match s.cache {
        Some(v) => seq!["CACHE "@ + dec_int_str(v as int)],
        None => Seq::empty(),
    }) + (if s.cycle {
        seq!["CYCLE"@]
    } else {
        seq!["NO CYCLE"@]
    })
}

/// The statements for one sequence: its CREATE SEQUENCE with the
/// options it sets, then its comment if it has one.
pub open spec fn sequence_stmts(s: Sequence) -> Seq<Seq<char>> {
    seq![join_sep(sequence_parts(s), " "@) + ";"@] + comment_opt(
        "COMMENT ON SEQUENCE "@,
        qualified_name_seq(s.schema, s.name),
        s.comment,
    )
}

/// Renders one sequence.
fn push_sequence_stmts(stmts: &mut Vec<String>, s: &Sequence)
    ensures
        strings_view(final(stmts)@) == strings_view(old(stmts)@) + sequence_stmts(*s),
{
    let mut q = String::new();
    append_qualified(&mut q, &s.schema, &s.name);
    let mut parts: Vec<String> = Vec::new();
    let mut head = String::new();
    head.append("CREATE SEQUENCE ");
    head.append(q.as_str());
    proof {
        reveal_strlit("CREATE SEQUENCE ");
    }
    parts.push(head);
    if let Some(v) = s.start {
        let mut p = String::new();
        p.append("START WITH ");
        p.append(i64_to_string(v).as_str());
        proof {
            reveal_strlit("START WITH ");
        }
        parts.push(p);
    }
    if let Some(v) = s.increment {
        let mut p = String::new();
        p.append("INCREMENT BY ");
        p.append(i64_to_string(v).as_str());
        proof {
            reveal_strlit("INCREMENT BY ");
        }
        parts.push(p);
    }
    if let Some(v) = s.min_value {
        let mut p = String::new();
        p.append("MINVALUE ");
        p.append(i64_to_string(v).as_str());
        proof {
            reveal_strlit("MINVALUE ");
        }
        parts.push(p);
    }
    if let Some(v) = s.max_value {
        let mut p = String::new();
        p.append("MAXVALUE ");
        p.append(i64_to_string(v).as_str());
        proof {
            reveal_strlit("MAXVALUE ");
        }
        parts.push(p);
    }
    if let Some(v) = s.cache {
        let mut p = String::new();
        p.append("CACHE ");
        p.append(i64_to_string(v).as_str());
        proof {
            reveal_strlit("CACHE ");
        }
        parts.push(p);
    }
    if s.cycle {
        parts.push(String::from_str("CYCLE"));
    } else {
        parts.push(String::from_str("NO CYCLE"));
    }
    proof {
        assert(strings_view(parts@) =~= sequence_parts(*s));
    }
    let mut stmt = String::new();
    append_joined(&mut stmt, &parts, " ");
    stmt.append(";");
    proof {
        reveal_strlit(" ");
        reveal_strlit(";");
    }
    let ghost prev = stmts@;
    stmts.push(stmt);
    proof {
        assert(strings_view(stmts@) =~= strings_view(prev) + seq![join_sep(
            sequence_parts(*s),
            " "@,
        ) + ";"@]);
    }
    push_comment(stmts, "COMMENT ON SEQUENCE ", &q, &s.comment);
    proof {
        reveal_strlit("COMMENT ON SEQUENCE ");
        assert(strings_view(stmts@) =~= strings_view(prev) + sequence_stmts(*s));
    }
}

/// One field of a composite type.
pub open spec fn composite_field_sql(c: Column) -> Seq<char> {
    c.name@ + " "@ + dt_sql(c.data_type)
}

pub open spec fn composite_fields_sql(cs: Seq<Column>) -> Seq<Seq<char>>
    decreases cs,
{
    if cs.len() == 0 {
        Seq::empty()
    } else {
        composite_fields_sql(cs.drop_last()) + seq![composite_field_sql(cs.last())]
    }
}

/// The statements for one composite type.
pub open spec fn composite_stmts(ct: CompositeType) -> Seq<Seq<char>> {
    seq![
        "CREATE TYPE "@ + qualified_name_seq(ct.schema, ct.name) + " AS ("@ + join_sep(
            composite_fields_sql(ct.fields@),
            ", "@,
        ) + ");"@,
    ] + comment_opt("COMMENT ON TYPE "@, qualified_name_seq(ct.schema, ct.name), ct.comment)
}

/// Renders one composite type.
fn push_composite_stmts(stmts: &mut Vec<String>, ct: &CompositeType)
    ensures
        strings_view(final(stmts)@) == strings_view(old(stmts)@) + composite_stmts(*ct),
{
    let mut q = String::new();
    append_qualified(&mut q, &ct.schema, &ct.name);
    let mut fields: Vec<String> = Vec::new();
    let mut i: usize = 0;
    while i < ct.fields.len()
        invariant
            i <= ct.fields@.len(),
            strings_view(fields@) == composite_fields_sql(ct.fields@.take(i as int)),
        decreases ct.fields@.len() - i,
    {
        let mut f = String::new();
        f.append(ct.fields[i].name.as_str());
        f.append(" ");
        f.append(render_data_type(&ct.fields[i].data_type).as_str());
        proof {
            reveal_strlit(" ");
            assert(f@ =~= composite_field_sql(ct.fields@[i as int]));
        }
        fields.push(f);
        proof {
            assert(ct.fields@.take(i + 1).drop_last() =~= ct.fields@.take(i as int));
            assert(ct.fields@.take(i + 1).last() == ct.fields@[i as int]);
            assert(strings_view(fields@) =~= composite_fields_sql(ct.fields@.take(i + 1)));
        }
        i = i + 1;
    }
    proof {
        assert(ct.fields@.take(ct.fields@.len() as int) =~= ct.fields@);
    }
    let mut stmt = String::new();
    stmt.append("CREATE TYPE ");
    stmt.append(q.as_str());
    stmt.append(" AS (");
    append_joined(&mut stmt, &fields, ", ");
    stmt.append(");");
    proof {
        reveal_strlit("CREATE TYPE ");
        reveal_strlit(" AS (");
        reveal_strlit(");");
    }
    let ghost prev = stmts@;
    stmts.push(stmt);
    proof {
        assert(strings_view(stmts@) =~= strings_view(prev) + seq![
            "CREATE TYPE "@ + qualified_name_seq(ct.schema, ct.name) + " AS ("@ + join_sep(
                composite_fields_sql(ct.fields@),
                ", "@,
            ) + ");"@,
        ]);
    }
    push_comment(stmts, "COMMENT ON TYPE ", &q, &ct.comment);
    proof {
        reveal_strlit("COMMENT ON TYPE ");
        assert(strings_view(stmts@) =~= strings_view(prev) + composite_stmts(*ct));
    }
}

/// The statements for one domain type.
pub open spec fn domain_stmts(d: DomainType) -> Seq<Seq<char>> {
    seq![
        "CREATE DOMAIN "@ + qualified_name_seq(d.schema, d.name) + " AS "@ + dt_sql(
            d.base_type,
        ) + (if d.not_null {
            " NOT NULL"@
        } else {
            Seq::empty()
        }) + (match d.default {
            Some(df) => " DEFAULT "@ + df@,
            None => Seq::empty(),
        }) + ";"@,
    ] + comment_opt("COMMENT ON DOMAIN "@, qualified_name_seq(d.schema, d.name), d.comment)
}

/// Renders one domain type.
fn push_domain_stmts(stmts: &mut Vec<String>, d: &DomainType)
    ensures
        strings_view(final(stmts)@) == strings_view(old(stmts)@) + domain_stmts(*d),
{
    let mut q = String::new();
    append_qualified(&mut q, &d.schema, &d.name);
    let mut stmt = String::new();
    stmt.append("CREATE DOMAIN ");
    stmt.append(q.as_str());
    stmt.append(" AS ");
    stmt.append(render_data_type(&d.base_type).as_str());
    if d.not_null {
        stmt.append(" NOT NULL");
    }
    if let Some(df) = &d.default {
        stmt.append(" DEFAULT ");
        stmt.append(df.as_str());
    }
    stmt.append(";");
    proof {
        reveal_strlit("CREATE DOMAIN ");
        reveal_strlit(" AS ");
        reveal_strlit(" NOT NULL");
        reveal_strlit(" DEFAULT ");
        reveal_strlit(";");
        assert(stmt@ =~= "CREATE DOMAIN "@ + qualified_name_seq(d.schema, d.name) + " AS "@
            + dt_sql(d.base_type) + (if d.not_null {
            " NOT NULL"@
        } else {
            Seq::empty()
        }) + (match d.default {
            Some(df) => " DEFAULT "@ + df@,
            None => Seq::empty(),
        }) + ";"@);
    }
    let ghost prev = stmts@;
    stmts.push(stmt);
    proof {
        assert(strings_view(stmts@) =~= strings_view(prev) + seq![
            "CREATE DOMAIN "@ + qualified_name_seq(d.schema, d.name) + " AS "@ + dt_sql(
                d.base_type,
            ) + (if d.not_null {
                " NOT NULL"@
            } else {
                Seq::empty()
            }) + (match d.default {
                Some(df) => " DEFAULT "@ + df@,
                None => Seq::empty(),
            }) + ";"@,
        ]);
    }
    push_comment(stmts, "COMMENT ON DOMAIN ", &q, &d.comment);
    proof {
        reveal_strlit("COMMENT ON DOMAIN ");
        assert(strings_view(stmts@) =~= strings_view(prev) + domain_stmts(*d));
    }
}

} // verus!

verus! {

// ---------------------------------------------------------------------------
// Tables, views, indexes, foreign keys (ghost)
// ---------------------------------------------------------------------------

/// A table name qualified by the target schema.
pub open spec fn table_qual(n: Seq<char>, t: Seq<char>) -> Seq<char> {
    n + "."@ + t
}

/// One column definition: name, type, then the optional modifiers
/// in fixed order — collation; identity, generation expression or
/// default (identity takes precedence); nullability.
pub open spec fn column_sql(c: Column) -> Seq<char> {
    c.name@ + " "@ + dt_sql(c.data_type) + (match c.collation {
        Some(co) => " COLLATE "@ + co@,
        None => Seq::empty(),
    }) + (if c.is_identity {
        " GENERATED "@ + (match c.identity_generation {
            Some(IdentityGeneration::Always) => "ALWAYS"@,
            Some(IdentityGeneration::ByDefault) => "BY DEFAULT"@,
            None => "BY DEFAULT"@,
        }) + " AS IDENTITY"@
    } else if c.is_generated {
        match c.generation_expression {
            Some(expr) => " GENERATED ALWAYS AS ("@ + expr@ + ") STORED"@,
            None => Seq::empty(),
        }
    } else {
        match c.default {
            Some(d) => " DEFAULT "@ + d@,
            None => Seq::empty(),
        }
    }) + (if !c.nullable {
        " NOT NULL"@
    } else {
        Seq::empty()
    })
}

pub open spec fn columns_sql(cs: Seq<Column>) -> Seq<Seq<char>>
    decreases cs,
{
    if cs.len() == 0 {
        Seq::empty()
    } else {
        columns_sql(cs.drop_last()) + seq![column_sql(cs.last())]
    }
}

/// The CREATE TABLE statement: columns inline, the primary key
/// inline at the end.
pub open spec fn create_table_stmt(t: Table, n: Seq<char>) -> Seq<char> {
    "CREATE TABLE "@ + table_qual(n, t.name@) + " ("@ + join_sep(
        columns_sql(t.columns@),
        ", "@,
    ) + (match t.primary_key {
        Some(pk) => ", PRIMARY KEY ("@ + join_sep(strings_view(pk.columns@), ", "@) + ")"@,
        None => Seq::empty(),
    }) + ");"@
}

/// The name of a unique constraint: as given, or derived from the
/// table and column names.
pub open spec fn unique_name(t: Table, u: UniqueConstraint) -> Seq<char> {
    match u.name {
        Some(nm) => nm@,
        None => t.name@ + "_"@ + join_sep(strings_view(u.columns@), "_"@) + "_key"@,
    }
}

pub open spec fn unique_stmt(t: Table, n: Seq<char>, u: UniqueConstraint) -> Seq<char> {
    "ALTER TABLE "@ + table_qual(n, t.name@) + " ADD CONSTRAINT "@ + unique_name(t, u)
        + " UNIQUE ("@ + join_sep(strings_view(u.columns@), ", "@) + ");"@
}

pub open spec fn uniques_stmts(t: Table, n: Seq<char>, us: Seq<UniqueConstraint>) -> Seq<
    Seq<char>,
>
    decreases us,
{
    if us.len() == 0 {
        Seq::empty()
    } else {
        uniques_stmts(t, n, us.drop_last()) + seq![unique_stmt(t, n, us.last())]
    }
}

pub open spec fn check_stmt(t: Table, n: Seq<char>, ck: CheckConstraint) -> Seq<char> {
    match ck.name {
        Some(nm) => "ALTER TABLE "@ + table_qual(n, t.name@) + " ADD CONSTRAINT "@ + nm@
            + " CHECK ("@ + ck.expression@ + ");"@,
        None => "ALTER TABLE "@ + table_qual(n, t.name@) + " ADD CHECK ("@ + ck.expression@
            + ");"@,
    }
}

pub open spec fn checks_stmts(t: Table, n: Seq<char>, cks: Seq<CheckConstraint>) -> Seq<
    Seq<char>,
>
    decreases cks,
{
    if cks.len() == 0 {
        Seq::empty()
    } else {
        checks_stmts(t, n, cks.drop_last()) + seq![check_stmt(t, n, cks.last())]
    }
}

/// The statements of one base table: its CREATE TABLE, then its
/// unique constraints, then its check constraints — both reference
/// only local columns, so they are safe to add at once.
pub open spec fn table_stmts(t: Table, n: Seq<char>) -> Seq<Seq<char>> {
    seq![create_table_stmt(t, n)] + uniques_stmts(t, n, t.uniques@) + checks_stmts(
        t,
        n,
        t.checks@,
    )
}

/// The statements of one view.
pub open spec fn view_stmts(v: View, n: Seq<char>) -> Seq<Seq<char>> {
    seq![
        (if v.materialized {
            "CREATE MATERIALIZED VIEW "@
        } else {
            "CREATE VIEW "@
        }) + table_qual(n, v.name@) + " AS\n"@ + v.definition@ + ";"@,
    ] + comment_opt("COMMENT ON VIEW "@, table_qual(n, v.name@), v.comment)
}

/// The statements of one materialized view.
pub open spec fn matview_stmts(mv: MaterializedView, n: Seq<char>) -> Seq<Seq<char>> {
    seq![
        "CREATE MATERIALIZED VIEW "@ + table_qual(n, mv.name@) + " AS\n"@ + mv.definition@
            + ";"@,
    ] + comment_opt("COMMENT ON MATERIALIZED VIEW "@, table_qual(n, mv.name@), mv.comment)
}

/// One indexed column: the column or parenthesized expression, then
/// its optional modifiers in fixed order.
pub open spec fn index_col_sql(c: IndexColumn) -> Seq<char> {
    (match c.expr {
        IndexExpr::Column(x) => x@,
        IndexExpr::Expression(e) => "("@ + e@ + ")"@,
    }) + (match c.collate {
        Some(co) => " COLLATE "@ + co@,
        None => Seq::empty(),
    }) + (match c.opclass {
        Some(op) => " "@ + op@,
        None => Seq::empty(),
    }) + (match c.order {
        Some(SortOrder::Asc) => " ASC"@,
        Some(SortOrder::Desc) => " DESC"@,
        None => Seq::empty(),
    }) + (match c.nulls_order {
        Some(NullsOrder::First) => " NULLS FIRST"@,
        Some(NullsOrder::Last) => " NULLS LAST"@,
        None => Seq::empty(),
    })
}

pub open spec fn index_cols_sql(cs: Seq<IndexColumn>) -> Seq<Seq<char>>
    decreases cs,
{
    if cs.len() == 0 {
        Seq::empty()
    } else {
        index_cols_sql(cs.drop_last()) + seq![index_col_sql(cs.last())]
    }
}

/// The name stand-ins used when deriving an index name.
pub open spec fn index_col_name(c: IndexColumn) -> Seq<char> {
    match c.expr {
        IndexExpr::Column(x) => x@,
        IndexExpr::Expression(e) => "expr"@,
    }
}

pub open spec fn index_col_names(cs: Seq<IndexColumn>) -> Seq<Seq<char>>
    decreases cs,
{
    if cs.len() == 0 {
        Seq::empty()
    } else {
        index_col_names(cs.drop_last()) + seq![index_col_name(cs.last())]
    }
}

/// The name of an index: as given, or derived from the table and
/// column names when empty.
pub open spec fn index_name(t: Table, idx: Index) -> Seq<char> {
    if idx.name@.len() == 0 {
        t.name@ + "_idx_"@ + join_sep(index_col_names(idx.columns@), "_"@)
    } else {
        idx.name@
    }
}

pub open spec fn index_stmt(t: Table, n: Seq<char>, idx: Index) -> Seq<char> {
    "CREATE "@ + (if idx.unique {
        "UNIQUE "@
    } else {
        Seq::empty()
    }) + "INDEX "@ + (if idx.concurrently {
        "CONCURRENTLY "@
    } else {
        Seq::empty()
    }) + index_name(t, idx) + " ON "@ + table_qual(n, t.name@) + " USING "@ + (
    match idx.method {
        Some(m) => m@,
        None => "btree"@,
    }) + " ("@ + join_sep(index_cols_sql(idx.columns@), ", "@) + ")"@ + (if idx.included@.len()
        > 0 {
        " INCLUDE ("@ + join_sep(strings_view(idx.included@), ", "@) + ")"@
    } else {
        Seq::empty()
    }) + (match idx.predicate {
        Some(p) => " WHERE "@ + p@,
        None => Seq::empty(),
    }) + (match idx.tablespace {
        Some(ts) => " TABLESPACE "@ + ts@,
        None => Seq::empty(),
    }) + ";"@
}

/// The index statements of one table, skipping any index that backs
/// the primary key (that index already exists implicitly).
pub open spec fn table_index_stmts(t: Table, n: Seq<char>, idxs: Seq<Index>) -> Seq<Seq<char>>
    decreases idxs,
{
    if idxs.len() == 0 {
        Seq::empty()
    } else {
        table_index_stmts(t, n, idxs.drop_last()) + (if idxs.last().is_primary {
            Seq::empty()
        } else {
            seq![index_stmt(t, n, idxs.last())]
        })
    }
}

/// The name of a foreign key: as given, or derived from the table
/// and column names.
pub open spec fn fk_name(t: Table, fk: ForeignKey) -> Seq<char> {
    match fk.name {
        Some(nm) => nm@,
        None => t.name@ + "_"@ + join_sep(strings_view(fk.columns@), "_"@) + "_fkey"@,
    }
}

pub open spec fn action_sql(a: ReferentialAction) -> Seq<char> {
    match a {
        ReferentialAction::NoAction => "NO ACTION"@,
        ReferentialAction::Restrict => "RESTRICT"@,
        ReferentialAction::Cascade => "CASCADE"@,
        ReferentialAction::SetNull => "SET NULL"@,
        ReferentialAction::SetDefault => "SET DEFAULT"@,
    }
}

pub open spec fn fk_stmt(t: Table, n: Seq<char>, fk: ForeignKey) -> Seq<char> {
    "ALTER TABLE "@ + table_qual(n, t.name@) + " ADD CONSTRAINT "@ + fk_name(t, fk)
        + " FOREIGN KEY ("@ + join_sep(strings_view(fk.columns@), ", "@) + ") REFERENCES "@
        + qualified_name_seq(fk.referenced_table.schema, fk.referenced_table.name) + (
    match fk.referenced_columns {
        Some(rc) => " ("@ + join_sep(strings_view(rc@), ", "@) + ")"@,
        None => Seq::empty(),
    }) + (match fk.on_delete {
        Some(a) => " ON DELETE "@ + action_sql(a),
        None => Seq::empty(),
    }) + (match fk.on_update {
        Some(a) => " ON UPDATE "@ + action_sql(a),
        None => Seq::empty(),
    }) + ";"@
}

pub open spec fn table_fk_stmts(t: Table, n: Seq<char>, fks: Seq<ForeignKey>) -> Seq<Seq<char>>
    decreases fks,
{
    if fks.len() == 0 {
        Seq::empty()
    } else {
        table_fk_stmts(t, n, fks.drop_last()) + seq![fk_stmt(t, n, fks.last())]
    }
}

// ---------------------------------------------------------------------------
// Passes (ghost)
// ---------------------------------------------------------------------------

pub open spec fn schema_stmt(n: Seq<char>) -> Seq<char> {
    "CREATE SCHEMA IF NOT EXISTS "@ + n + ";"@
}

pub open spec fn enums_pass(es: Seq<EnumType>) -> Seq<Seq<char>>
    decreases es,
{
    if es.len() == 0 {
        Seq::empty()
    } else {
        enums_pass(es.drop_last()) + enum_stmts(es.last())
    }
}

pub open spec fn sequences_pass(ss: Seq<Sequence>) -> Seq<Seq<char>>
    decreases ss,
{
    if ss.len() == 0 {
        Seq::empty()
    } else {
        sequences_pass(ss.drop_last()) + sequence_stmts(ss.last())
    }
}

pub open spec fn composites_pass(cs: Seq<CompositeType>) -> Seq<Seq<char>>
    decreases cs,
{
    if cs.len() == 0 {
        Seq::empty()
    } else {
        composites_pass(cs.drop_last()) + composite_stmts(cs.last())
    }
}

pub open spec fn domains_pass(ds: Seq<DomainType>) -> Seq<Seq<char>>
    decreases ds,
{
    if ds.len() == 0 {
        Seq::empty()
    } else {
        domains_pass(ds.drop_last()) + domain_stmts(ds.last())
    }
}

pub open spec fn tables_pass(ts: Seq<Table>, n: Seq<char>) -> Seq<Seq<char>>
    decreases ts,
{
    if ts.len() == 0 {
        Seq::empty()
    } else {
        tables_pass(ts.drop_last(), n) + table_stmts(ts.last(), n)
    }
}

pub open spec fn views_pass(vs: Seq<View>, n: Seq<char>) -> Seq<Seq<char>>
    decreases vs,
{
    if vs.len() == 0 {
        Seq::empty()
    } else {
        views_pass(vs.drop_last(), n) + view_stmts(vs.last(), n)
    }
}

pub open spec fn matviews_pass(ms: Seq<MaterializedView>, n: Seq<char>) -> Seq<Seq<char>>
    decreases ms,
{
    if ms.len() == 0 {
        Seq::empty()
    } else {
        matviews_pass(ms.drop_last(), n) + matview_stmts(ms.last(), n)
    }
}

pub open spec fn indexes_pass(ts: Seq<Table>, n: Seq<char>) -> Seq<Seq<char>>
    decreases ts,
{
    if ts.len() == 0 {
        Seq::empty()
    } else {
        indexes_pass(ts.drop_last(), n) + table_index_stmts(ts.last(), n, ts.last().indexes@)
    }
}

pub open spec fn fks_pass(ts: Seq<Table>, n: Seq<char>) -> Seq<Seq<char>>
    decreases ts,
{
    if ts.len() == 0 {
        Seq::empty()
    } else {
        fks_pass(ts.drop_last(), n) + table_fk_stmts(ts.last(), n, ts.last().foreign_keys@)
    }
}

/// Every statement of a schema, in rendering order: the schema
/// itself; enumerated types, sequences, composite types, domains;
/// base tables with their local constraints; views and materialized
/// views; indexes; foreign keys last, so that every referenced
/// table already exists whatever order the input listed them in.
pub open spec fn ddl_stmts(ps: PartialSchema, n: Seq<char>) -> Seq<Seq<char>> {
    seq![schema_stmt(n)] + enums_pass(ps.enums@) + sequences_pass(ps.sequences@)
        + composites_pass(ps.composite_types@) + domains_pass(ps.domains@) + tables_pass(
        ps.tables@,
        n,
    ) + views_pass(ps.views@, n) + matviews_pass(ps.materialized_views@, n) + indexes_pass(
        ps.tables@,
        n,
    ) + fks_pass(ps.tables@, n)
}

/// The number of statements that precede the base-table pass.
pub open spec fn tables_pass_offset(ps: PartialSchema) -> int {
    1int + enums_pass(ps.enums@).len() + sequences_pass(ps.sequences@).len() + composites_pass(
        ps.composite_types@,
    ).len() + domains_pass(ps.domains@).len()
}

} // verus!

verus! {

// ---------------------------------------------------------------------------
// Tables, views, indexes, foreign keys (executable)
// ---------------------------------------------------------------------------

/// Renders one column definition.
fn render_column(c: &Column) -> (r: String)
    ensures
        r@ == column_sql(*c),
{
    let mut r = String::new();
    r.append(c.name.as_str());
    r.append(" ");
    r.append(render_data_type(&c.data_type).as_str());
    if let Some(co) = &c.collation {
        r.append(" COLLATE ");
        r.append(co.as_str());
    }
    if c.is_identity {
        r.append(" GENERATED ");
        match &c.identity_generation {
            Some(IdentityGeneration::Always) => {
                r.append("ALWAYS");
            },
            Some(IdentityGeneration::ByDefault) => {
                r.append("BY DEFAULT");
            },
            None => {
                r.append("BY DEFAULT");
            },
        }
        r.append(" AS IDENTITY");
    } else if c.is_generated {
        if let Some(expr) = &c.generation_expression {
            r.append(" GENERATED ALWAYS AS (");
            r.append(expr.as_str());
            r.append(") STORED");
        }
    } else {
        if let Some(d) = &c.default {
            r.append(" DEFAULT ");
            r.append(d.as_str());
        }
    }
    if !c.nullable {
        r.append(" NOT NULL");
    }
    proof {
        reveal_strlit(" ");
        reveal_strlit(" COLLATE ");
        reveal_strlit(" GENERATED ");
        reveal_strlit("ALWAYS");
        reveal_strlit("BY DEFAULT");
        reveal_strlit(" AS IDENTITY");
        reveal_strlit(" GENERATED ALWAYS AS (");
        reveal_strlit(") STORED");
        reveal_strlit(" DEFAULT ");
        reveal_strlit(" NOT NULL");
        assert(r@ =~= column_sql(*c));
    }
    r
}

/// Appends the schema-qualified table name.
fn append_table_qual(dst: &mut String, n: &str, t: &String)
    ensures
        final(dst)@ == old(dst)@ + table_qual(n@, t@),
{
    dst.append(n);
    dst.append(".");
    dst.append(t.as_str());
    proof {
        reveal_strlit(".");
        assert(dst@ =~= old(dst)@ + table_qual(n@, t@));
    }
}

/// Renders one base table: CREATE TABLE, unique constraints, check
/// constraints.
fn push_table_stmts(stmts: &mut Vec<String>, t: &Table, n: &str)
    ensures
        strings_view(final(stmts)@) == strings_view(old(stmts)@) + table_stmts(*t, n@),
{
    let ghost base = stmts@;
    let mut cols: Vec<String> = Vec::new();
    let mut i: usize = 0;
    while i < t.columns.len()
        invariant
            i <= t.columns@.len(),
            strings_view(cols@) == columns_sql(t.columns@.take(i as int)),
        decreases t.columns@.len() - i,
    {
        cols.push(render_column(&t.columns[i]));
        proof {
            assert(t.columns@.take(i + 1).drop_last() =~= t.columns@.take(i as int));
            assert(t.columns@.take(i + 1).last() == t.columns@[i as int]);
            assert(strings_view(cols@) =~= columns_sql(t.columns@.take(i + 1)));
        }
        i = i + 1;
    }
    proof {
        assert(t.columns@.take(t.columns@.len() as int) =~= t.columns@);
    }
    let mut stmt = String::new();
    stmt.append("CREATE TABLE ");
    append_table_qual(&mut stmt, n, &t.name);
    stmt.append(" (");
    append_joined(&mut stmt, &cols, ", ");
    match &t.primary_key {
        Some(pk) => {
            stmt.append(", PRIMARY KEY (");
            append_joined(&mut stmt, &pk.columns, ", ");
            stmt.append(")");
        },
        None => {},
    }
    stmt.append(");");
    proof {
        reveal_strlit("CREATE TABLE ");
        reveal_strlit(" (");
        reveal_strlit(", ");
        reveal_strlit(", PRIMARY KEY (");
        reveal_strlit(")");
        reveal_strlit(");");
        assert(stmt@ =~= create_table_stmt(*t, n@));
    }
    stmts.push(stmt);
    proof {
        assert(strings_view(stmts@) =~= strings_view(base) + seq![create_table_stmt(*t, n@)]);
    }
    let ghost after_create = stmts@;
    proof {
        assert(strings_view(stmts@) =~= strings_view(after_create) + uniques_stmts(
            *t,
            n@,
            t.uniques@.take(0),
        ));
    }
    let mut u: usize = 0;
    while u < t.uniques.len()
        invariant
            u <= t.uniques@.len(),
            strings_view(stmts@) == strings_view(after_create) + uniques_stmts(
                *t,
                n@,
                t.uniques@.take(u as int),
            ),
        decreases t.uniques@.len() - u,
    {
        let uc = &t.uniques[u];
        let mut stmt = String::new();
        stmt.append("ALTER TABLE ");
        append_table_qual(&mut stmt, n, &t.name);
        stmt.append(" ADD CONSTRAINT ");
        match &uc.name {
            Some(nm) => {
                stmt.append(nm.as_str());
            },
            None => {
                stmt.append(t.name.as_str());
                stmt.append("_");
                append_joined(&mut stmt, &uc.columns, "_");
                stmt.append("_key");
            },
        }
        stmt.append(" UNIQUE (");
        append_joined(&mut stmt, &uc.columns, ", ");
        stmt.append(");");
        proof {
            reveal_strlit("ALTER TABLE ");
            reveal_strlit(" ADD CONSTRAINT ");
            reveal_strlit("_");
            reveal_strlit("_key");
            reveal_strlit(" UNIQUE (");
            reveal_strlit(");");
            assert(stmt@ =~= unique_stmt(*t, n@, t.uniques@[u as int]));
        }
        let ghost pre = stmts@;
        stmts.push(stmt);
        proof {
            assert(t.uniques@.take(u + 1).drop_last() =~= t.uniques@.take(u as int));
            assert(t.uniques@.take(u + 1).last() == t.uniques@[u as int]);
            assert(strings_view(stmts@) =~= strings_view(pre) + seq![unique_stmt(
                *t,
                n@,
                t.uniques@[u as int],
            )]);
            assert(strings_view(stmts@) =~= strings_view(after_create) + uniques_stmts(
                *t,
                n@,
                t.uniques@.take(u + 1),
            ));
        }
        u = u + 1;
    }
    proof {
        assert(t.uniques@.take(t.uniques@.len() as int) =~= t.uniques@);
    }
    let ghost after_uniques = stmts@;
    proof {
        assert(strings_view(stmts@) =~= strings_view(after_uniques) + checks_stmts(
            *t,
            n@,
            t.checks@.take(0),
        ));
    }
    let mut k: usize = 0;
    while k < t.checks.len()
        invariant
            k <= t.checks@.len(),
            strings_view(stmts@) == strings_view(after_uniques) + checks_stmts(
                *t,
                n@,
                t.checks@.take(k as int),
            ),
        decreases t.checks@.len() - k,
    {
        let ck = &t.checks[k];
        let mut stmt = String::new();
        stmt.append("ALTER TABLE ");
        append_table_qual(&mut stmt, n, &t.name);
        match &ck.name {
            Some(nm) => {
                stmt.append(" ADD CONSTRAINT ");
                stmt.append(nm.as_str());
                stmt.append(" CHECK (");
            },
            None => {
                stmt.append(" ADD CHECK (");
            },
        }
        stmt.append(ck.expression.as_str());
        stmt.append(");");
        proof {
            reveal_strlit("ALTER TABLE ");
            reveal_strlit(" ADD CONSTRAINT ");
            reveal_strlit(" CHECK (");
            reveal_strlit(" ADD CHECK (");
            reveal_strlit(");");
            assert(stmt@ =~= check_stmt(*t, n@, t.checks@[k as int]));
        }
        let ghost pre = stmts@;
        stmts.push(stmt);
        proof {
            assert(t.checks@.take(k + 1).drop_last() =~= t.checks@.take(k as int));
            assert(t.checks@.take(k + 1).last() == t.checks@[k as int]);
            assert(strings_view(stmts@) =~= strings_view(pre) + seq![check_stmt(
                *t,
                n@,
                t.checks@[k as int],
            )]);
            assert(strings_view(stmts@) =~= strings_view(after_uniques) + checks_stmts(
                *t,
                n@,
                t.checks@.take(k + 1),
            ));
        }
        k = k + 1;
    }
    proof {
        assert(t.checks@.take(t.checks@.len() as int) =~= t.checks@);
        assert(strings_view(stmts@) =~= strings_view(base) + table_stmts(*t, n@));
    }
}

/// Renders one view.
fn push_view_stmts(stmts: &mut Vec<String>, v: &View, n: &str)
    ensures
        strings_view(final(stmts)@) == strings_view(old(stmts)@) + view_stmts(*v, n@),
{
    let ghost base = stmts@;
    let mut q = String::new();
    append_table_qual(&mut q, n, &v.name);
    let mut stmt = String::new();
    if v.materialized {
        stmt.append("CREATE MATERIALIZED VIEW ");
    } else {
        stmt.append("CREATE VIEW ");
    }
    stmt.append(q.as_str());
    stmt.append(" AS\n");
    stmt.append(v.definition.as_str());
    stmt.append(";");
    proof {
        reveal_strlit("CREATE MATERIALIZED VIEW ");
        reveal_strlit("CREATE VIEW ");
        reveal_strlit(" AS\n");
        reveal_strlit(";");
        assert(stmt@ =~= (if v.materialized {
            "CREATE MATERIALIZED VIEW "@
        } else {
            "CREATE VIEW "@
        }) + table_qual(n@, v.name@) + " AS\n"@ + v.definition@ + ";"@);
    }
    stmts.push(stmt);
    push_comment(stmts, "COMMENT ON VIEW ", &q, &v.comment);
    proof {
        reveal_strlit("COMMENT ON VIEW ");
        assert(strings_view(stmts@) =~= strings_view(base) + view_stmts(*v, n@));
    }
}

/// Renders one materialized view.
fn push_matview_stmts(stmts: &mut Vec<String>, mv: &MaterializedView, n: &str)
    ensures
        strings_view(final(stmts)@) == strings_view(old(stmts)@) + matview_stmts(*mv, n@),
{
    let ghost base = stmts@;
    let mut q = String::new();
    append_table_qual(&mut q, n, &mv.name);
    let mut stmt = String::new();
    stmt.append("CREATE MATERIALIZED VIEW ");
    stmt.append(q.as_str());
    stmt.append(" AS\n");
    stmt.append(mv.definition.as_str());
    stmt.append(";");
    proof {
        reveal_strlit("CREATE MATERIALIZED VIEW ");
        reveal_strlit(" AS\n");
        reveal_strlit(";");
        assert(stmt@ =~= "CREATE MATERIALIZED VIEW "@ + table_qual(n@, mv.name@) + " AS\n"@
            + mv.definition@ + ";"@);
    }
    stmts.push(stmt);
    push_comment(stmts, "COMMENT ON MATERIALIZED VIEW ", &q, &mv.comment);
    proof {
        reveal_strlit("COMMENT ON MATERIALIZED VIEW ");
        assert(strings_view(stmts@) =~= strings_view(base) + matview_stmts(*mv, n@));
    }
}

/// Renders one indexed column.
#[verifier::rlimit(60)]
fn render_index_col(c: &IndexColumn) -> (r: String)
    ensures
        r@ == index_col_sql(*c),
{
    let mut r = String::new();
    match &c.expr {
        IndexExpr::Column(x) => {
            r.append(x.as_str());
        },
        IndexExpr::Expression(e) => {
            r.append("(");
            r.append(e.as_str());
            r.append(")");
        },
    }
    if let Some(co) = &c.collate {
        r.append(" COLLATE ");
        r.append(co.as_str());
    }
    if let Some(op) = &c.opclass {
        r.append(" ");
        r.append(op.as_str());
    }
    match &c.order {
        Some(SortOrder::Asc) => {
            r.append(" ASC");
        },
        Some(SortOrder::Desc) => {
            r.append(" DESC");
        },
        None => {},
    }
    match &c.nulls_order {
        Some(NullsOrder::First) => {
            r.append(" NULLS FIRST");
        },
        Some(NullsOrder::Last) => {
            r.append(" NULLS LAST");
        },
        None => {},
    }
    proof {
        reveal_strlit("(");
        reveal_strlit(")");
        reveal_strlit(" COLLATE ");
        reveal_strlit(" ");
        reveal_strlit(" ASC");
        reveal_strlit(" DESC");
        reveal_strlit(" NULLS FIRST");
        reveal_strlit(" NULLS LAST");
        assert(r@ =~= index_col_sql(*c));
    }
    r
}

/// Renders one index statement.
#[verifier::rlimit(80)]
fn render_index_stmt(t: &Table, n: &str, idx: &Index) -> (r: String)
    ensures
        r@ == index_stmt(*t, n@, *idx),
{
    let mut stmt = String::new();
    stmt.append("CREATE ");
    if idx.unique {
        stmt.append("UNIQUE ");
    }
    stmt.append("INDEX ");
    if idx.concurrently {
        stmt.append("CONCURRENTLY ");
    }
    if idx.name.as_str().unicode_len() == 0 {
        let mut names: Vec<String> = Vec::new();
        let mut c: usize = 0;
        while c < idx.columns.len()
            invariant
                c <= idx.columns@.len(),
                strings_view(names@) == index_col_names(idx.columns@.take(c as int)),
            decreases idx.columns@.len() - c,
        {
            match &idx.columns[c].expr {
                IndexExpr::Column(x) => {
                    names.push(x.clone());
                },
                IndexExpr::Expression(_) => {
                    names.push(String::from_str("expr"));
                },
            }
            proof {
                assert(idx.columns@.take(c + 1).drop_last() =~= idx.columns@.take(c as int));
                assert(idx.columns@.take(c + 1).last() == idx.columns@[c as int]);
                assert(strings_view(names@) =~= index_col_names(idx.columns@.take(c + 1)));
            }
            c = c + 1;
        }
        proof {
            assert(idx.columns@.take(idx.columns@.len() as int) =~= idx.columns@);
        }
        stmt.append(t.name.as_str());
        stmt.append("_idx_");
        append_joined(&mut stmt, &names, "_");
        proof {
            reveal_strlit("_idx_");
            reveal_strlit("_");
        }
    } else {
        stmt.append(idx.name.as_str());
    }
    proof {
        reveal_strlit("CREATE ");
        reveal_strlit("UNIQUE ");
        reveal_strlit("INDEX ");
        reveal_strlit("CONCURRENTLY ");
        assert(stmt@ =~= "CREATE "@ + (if idx.unique {
            "UNIQUE "@
        } else {
            Seq::empty()
        }) + "INDEX "@ + (if idx.concurrently {
            "CONCURRENTLY "@
        } else {
            Seq::empty()
        }) + index_name(*t, *idx));
    }
    let ghost head = stmt@;
    stmt.append(" ON ");
    append_table_qual(&mut stmt, n, &t.name);
    stmt.append(" USING ");
    match &idx.method {
        Some(m) => {
            stmt.append(m.as_str());
        },
        None => {
            stmt.append("btree");
        },
    }
    stmt.append(" (");
    let mut coldefs: Vec<String> = Vec::new();
    let mut c2: usize = 0;
    while c2 < idx.columns.len()
        invariant
            c2 <= idx.columns@.len(),
            strings_view(coldefs@) == index_cols_sql(idx.columns@.take(c2 as int)),
        decreases idx.columns@.len() - c2,
    {
        coldefs.push(render_index_col(&idx.columns[c2]));
        proof {
            assert(idx.columns@.take(c2 + 1).drop_last() =~= idx.columns@.take(c2 as int));
            assert(idx.columns@.take(c2 + 1).last() == idx.columns@[c2 as int]);
            assert(strings_view(coldefs@) =~= index_cols_sql(idx.columns@.take(c2 + 1)));
        }
        c2 = c2 + 1;
    }
    proof {
        assert(idx.columns@.take(idx.columns@.len() as int) =~= idx.columns@);
    }
    append_joined(&mut stmt, &coldefs, ", ");
    stmt.append(")");
    proof {
        reveal_strlit(" ON ");
        reveal_strlit(" USING ");
        reveal_strlit("btree");
        reveal_strlit(" (");
        reveal_strlit(")");
        reveal_strlit(", ");
        assert(stmt@ =~= head + " ON "@ + table_qual(n@, t.name@) + " USING "@ + (
        match idx.method {
            Some(m) => m@,
            None => "btree"@,
        }) + " ("@ + join_sep(index_cols_sql(idx.columns@), ", "@) + ")"@);
    }
    let ghost mid = stmt@;
    if idx.included.len() > 0 {
        stmt.append(" INCLUDE (");
        append_joined(&mut stmt, &idx.included, ", ");
        stmt.append(")");
    }
    if let Some(p) = &idx.predicate {
        stmt.append(" WHERE ");
        stmt.append(p.as_str());
    }
    if let Some(ts) = &idx.tablespace {
        stmt.append(" TABLESPACE ");
        stmt.append(ts.as_str());
    }
    stmt.append(";");
    proof {
        reveal_strlit(" INCLUDE (");
        reveal_strlit(" WHERE ");
        reveal_strlit(" TABLESPACE ");
        reveal_strlit(";");
        reveal_strlit(", ");
        assert(stmt@ =~= mid + (if idx.included@.len() > 0 {
            " INCLUDE ("@ + join_sep(strings_view(idx.included@), ", "@) + ")"@
        } else {
            Seq::empty()
        }) + (match idx.predicate {
            Some(p) => " WHERE "@ + p@,
            None => Seq::empty(),
        }) + (match idx.tablespace {
            Some(ts) => " TABLESPACE "@ + ts@,
            None => Seq::empty(),
        }) + ";"@);
        assert(stmt@ =~= index_stmt(*t, n@, *idx));
    }
    stmt
}

/// Renders the index statements of one table, skipping primary-key
/// backing indexes.
fn push_index_stmts(stmts: &mut Vec<String>, t: &Table, n: &str)
    ensures
        strings_view(final(stmts)@) == strings_view(old(stmts)@) + table_index_stmts(
            *t,
            n@,
            t.indexes@,
        ),
{
    let ghost base = stmts@;
    proof {
        assert(strings_view(stmts@) =~= strings_view(base) + table_index_stmts(
            *t,
            n@,
            t.indexes@.take(0),
        ));
    }
    let mut i: usize = 0;
    while i < t.indexes.len()
        invariant
            i <= t.indexes@.len(),
            strings_view(stmts@) == strings_view(base) + table_index_stmts(
                *t,
                n@,
                t.indexes@.take(i as int),
            ),
        decreases t.indexes@.len() - i,
    {
        proof {
            assert(t.indexes@.take(i + 1).drop_last() =~= t.indexes@.take(i as int));
            assert(t.indexes@.take(i + 1).last() == t.indexes@[i as int]);
        }
        let idx = &t.indexes[i];
        if !idx.is_primary {
            let stmt = render_index_stmt(t, n, idx);
            let ghost pre = stmts@;
            stmts.push(stmt);
            proof {
                assert(strings_view(stmts@) =~= strings_view(pre) + seq![index_stmt(
                    *t,
                    n@,
                    t.indexes@[i as int],
                )]);
                assert(strings_view(stmts@) =~= strings_view(base) + table_index_stmts(
                    *t,
                    n@,
                    t.indexes@.take(i + 1),
                ));
            }
        } else {
            proof {
                assert(strings_view(stmts@) =~= strings_view(base) + table_index_stmts(
                    *t,
                    n@,
                    t.indexes@.take(i + 1),
                ));
            }
        }
        i = i + 1;
    }
    proof {
        assert(t.indexes@.take(t.indexes@.len() as int) =~= t.indexes@);
    }
}

/// Renders the foreign-key statements of one table.
#[verifier::rlimit(80)]
fn push_fk_stmts(stmts: &mut Vec<String>, t: &Table, n: &str)
    ensures
        strings_view(final(stmts)@) == strings_view(old(stmts)@) + table_fk_stmts(
            *t,
            n@,
            t.foreign_keys@,
        ),
{
    let ghost base = stmts@;
    proof {
        assert(strings_view(stmts@) =~= strings_view(base) + table_fk_stmts(
            *t,
            n@,
            t.foreign_keys@.take(0),
        ));
    }
    let mut i: usize = 0;
    while i < t.foreign_keys.len()
        invariant
            i <= t.foreign_keys@.len(),
            strings_view(stmts@) == strings_view(base) + table_fk_stmts(
                *t,
                n@,
                t.foreign_keys@.take(i as int),
            ),
        decreases t.foreign_keys@.len() - i,
    {
        proof {
            assert(t.foreign_keys@.take(i + 1).drop_last() =~= t.foreign_keys@.take(
                i as int,
            ));
            assert(t.foreign_keys@.take(i + 1).last() == t.foreign_keys@[i as int]);
        }
        let fk = &t.foreign_keys[i];
        let mut stmt = String::new();
        stmt.append("ALTER TABLE ");
        append_table_qual(&mut stmt, n, &t.name);
        stmt.append(" ADD CONSTRAINT ");
        match &fk.name {
            Some(nm) => {
                stmt.append(nm.as_str());
            },
            None => {
                stmt.append(t.name.as_str());
                stmt.append("_");
                append_joined(&mut stmt, &fk.columns, "_");
                stmt.append("_fkey");
            },
        }
        stmt.append(" FOREIGN KEY (");
        append_joined(&mut stmt, &fk.columns, ", ");
        stmt.append(") REFERENCES ");
        append_qualified(&mut stmt, &fk.referenced_table.schema, &fk.referenced_table.name);
        if let Some(rc) = &fk.referenced_columns {
            stmt.append(" (");
            append_joined(&mut stmt, rc, ", ");
            stmt.append(")");
        }
        match &fk.on_delete {
            Some(a) => {
                stmt.append(" ON DELETE ");
                append_action(&mut stmt, a);
            },
            None => {},
        }
        match &fk.on_update {
            Some(a) => {
                stmt.append(" ON UPDATE ");
                append_action(&mut stmt, a);
            },
            None => {},
        }
        stmt.append(";");
        proof {
            reveal_strlit("ALTER TABLE ");
            reveal_strlit(" ADD CONSTRAINT ");
            reveal_strlit("_");
            reveal_strlit("_fkey");
            reveal_strlit(" FOREIGN KEY (");
            reveal_strlit(") REFERENCES ");
            reveal_strlit(" (");
            reveal_strlit(")");
            reveal_strlit(" ON DELETE ");
            reveal_strlit(" ON UPDATE ");
            reveal_strlit(";");
            assert(stmt@ =~= fk_stmt(*t, n@, t.foreign_keys@[i as int]));
        }
        let ghost pre = stmts@;
        stmts.push(stmt);
        proof {
            assert(strings_view(stmts@) =~= strings_view(pre) + seq![fk_stmt(
                *t,
                n@,
                t.foreign_keys@[i as int],
            )]);
            assert(strings_view(stmts@) =~= strings_view(base) + table_fk_stmts(
                *t,
                n@,
                t.foreign_keys@.take(i + 1),
            ));
        }
        i = i + 1;
    }
    proof {
        assert(t.foreign_keys@.take(t.foreign_keys@.len() as int) =~= t.foreign_keys@);
    }
}

/// Appends the spelling of a referential action.
fn append_action(dst: &mut String, a: &ReferentialAction)
    ensures
        final(dst)@ == old(dst)@ + action_sql(*a),
{
    match a {
        ReferentialAction::NoAction => {
            dst.append("NO ACTION");
        },
        ReferentialAction::Restrict => {
            dst.append("RESTRICT");
        },
        ReferentialAction::Cascade => {
            dst.append("CASCADE");
        },
        ReferentialAction::SetNull => {
            dst.append("SET NULL");
        },
        ReferentialAction::SetDefault => {
            dst.append("SET DEFAULT");
        },
    }
}

} // verus!

verus! {

// ---------------------------------------------------------------------------
// Passes (executable) and the renderer
// ---------------------------------------------------------------------------

fn push_enums_pass(stmts: &mut Vec<String>, es: &Vec<EnumType>)
    ensures
        strings_view(final(stmts)@) == strings_view(old(stmts)@) + enums_pass(es@),
{
    let ghost base = stmts@;
    proof {
        assert(strings_view(stmts@) =~= strings_view(base) + enums_pass(es@.take(0)));
    }
    let mut i: usize = 0;
    while i < es.len()
        invariant
            i <= es@.len(),
            strings_view(stmts@) == strings_view(base) + enums_pass(es@.take(i as int)),
        decreases es@.len() - i,
    {
        proof {
            assert(es@.take(i + 1).drop_last() =~= es@.take(i as int));
            assert(es@.take(i + 1).last() == es@[i as int]);
        }
        push_enum_stmts(stmts, &es[i]);
        proof {
            assert(strings_view(stmts@) =~= strings_view(base) + enums_pass(es@.take(i + 1)));
        }
        i = i + 1;
    }
    proof {
        assert(es@.take(es@.len() as int) =~= es@);
    }
}

fn push_sequences_pass(stmts: &mut Vec<String>, ss: &Vec<Sequence>)
    ensures
        strings_view(final(stmts)@) == strings_view(old(stmts)@) + sequences_pass(ss@),
{
    let ghost base = stmts@;
    proof {
        assert(strings_view(stmts@) =~= strings_view(base) + sequences_pass(ss@.take(0)));
    }
    let mut i: usize = 0;
    while i < ss.len()
        invariant
            i <= ss@.len(),
            strings_view(stmts@) == strings_view(base) + sequences_pass(ss@.take(i as int)),
        decreases ss@.len() - i,
    {
        proof {
            assert(ss@.take(i + 1).drop_last() =~= ss@.take(i as int));
            assert(ss@.take(i + 1).last() == ss@[i as int]);
        }
        push_sequence_stmts(stmts, &ss[i]);
        proof {
            assert(strings_view(stmts@) =~= strings_view(base) + sequences_pass(
                ss@.take(i + 1),
            ));
        }
        i = i + 1;
    }
    proof {
        assert(ss@.take(ss@.len() as int) =~= ss@);
    }
}

fn push_composites_pass(stmts: &mut Vec<String>, cs: &Vec<CompositeType>)
    ensures
        strings_view(final(stmts)@) == strings_view(old(stmts)@) + composites_pass(cs@),
{
    let ghost base = stmts@;
    proof {
        assert(strings_view(stmts@) =~= strings_view(base) + composites_pass(cs@.take(0)));
    }
    let mut i: usize = 0;
    while i < cs.len()
        invariant
            i <= cs@.len(),
            strings_view(stmts@) == strings_view(base) + composites_pass(cs@.take(i as int)),
        decreases cs@.len() - i,
    {
        proof {
            assert(cs@.take(i + 1).drop_last() =~= cs@.take(i as int));
            assert(cs@.take(i + 1).last() == cs@[i as int]);
        }
        push_composite_stmts(stmts, &cs[i]);
        proof {
            assert(strings_view(stmts@) =~= strings_view(base) + composites_pass(
                cs@.take(i + 1),
            ));
        }
        i = i + 1;
    }
    proof {
        assert(cs@.take(cs@.len() as int) =~= cs@);
    }
}

fn push_domains_pass(stmts: &mut Vec<String>, ds: &Vec<DomainType>)
    ensures
        strings_view(final(stmts)@) == strings_view(old(stmts)@) + domains_pass(ds@),
{
    let ghost base = stmts@;
    proof {
        assert(strings_view(stmts@) =~= strings_view(base) + domains_pass(ds@.take(0)));
    }
    let mut i: usize = 0;
    while i < ds.len()
        invariant
            i <= ds@.len(),
            strings_view(stmts@) == strings_view(base) + domains_pass(ds@.take(i as int)),
        decreases ds@.len() - i,
    {
        proof {
            assert(ds@.take(i + 1).drop_last() =~= ds@.take(i as int));
            assert(ds@.take(i + 1).last() == ds@[i as int]);
        }
        push_domain_stmts(stmts, &ds[i]);
        proof {
            assert(strings_view(stmts@) =~= strings_view(base) + domains_pass(
                ds@.take(i + 1),
            ));
        }
        i = i + 1;
    }
    proof {
        assert(ds@.take(ds@.len() as int) =~= ds@);
    }
}

fn push_tables_pass(stmts: &mut Vec<String>, ts: &Vec<Table>, n: &str)
    ensures
        strings_view(final(stmts)@) == strings_view(old(stmts)@) + tables_pass(ts@, n@),
{
    let ghost base = stmts@;
    proof {
        assert(strings_view(stmts@) =~= strings_view(base) + tables_pass(ts@.take(0), n@));
    }
    let mut i: usize = 0;
    while i < ts.len()
        invariant
            i <= ts@.len(),
            strings_view(stmts@) == strings_view(base) + tables_pass(ts@.take(i as int), n@),
        decreases ts@.len() - i,
    {
        proof {
            assert(ts@.take(i + 1).drop_last() =~= ts@.take(i as int));
            assert(ts@.take(i + 1).last() == ts@[i as int]);
        }
        push_table_stmts(stmts, &ts[i], n);
        proof {
            assert(strings_view(stmts@) =~= strings_view(base) + tables_pass(
                ts@.take(i + 1),
                n@,
            ));
        }
        i = i + 1;
    }
    proof {
        assert(ts@.take(ts@.len() as int) =~= ts@);
    }
}

fn push_views_pass(stmts: &mut Vec<String>, vs: &Vec<View>, n: &str)
    ensures
        strings_view(final(stmts)@) == strings_view(old(stmts)@) + views_pass(vs@, n@),
{
    let ghost base = stmts@;
    proof {
        assert(strings_view(stmts@) =~= strings_view(base) + views_pass(vs@.take(0), n@));
    }
    let mut i: usize = 0;
    while i < vs.len()
        invariant
            i <= vs@.len(),
            strings_view(stmts@) == strings_view(base) + views_pass(vs@.take(i as int), n@),
        decreases vs@.len() - i,
    {
        proof {
            assert(vs@.take(i + 1).drop_last() =~= vs@.take(i as int));
            assert(vs@.take(i + 1).last() == vs@[i as int]);
        }
        push_view_stmts(stmts, &vs[i], n);
        proof {
            assert(strings_view(stmts@) =~= strings_view(base) + views_pass(
                vs@.take(i + 1),
                n@,
            ));
        }
        i = i + 1;
    }
    proof {
        assert(vs@.take(vs@.len() as int) =~= vs@);
    }
}

fn push_matviews_pass(stmts: &mut Vec<String>, ms: &Vec<MaterializedView>, n: &str)
    ensures
        strings_view(final(stmts)@) == strings_view(old(stmts)@) + matviews_pass(ms@, n@),
{
    let ghost base = stmts@;
    proof {
        assert(strings_view(stmts@) =~= strings_view(base) + matviews_pass(ms@.take(0), n@));
    }
    let mut i: usize = 0;
    while i < ms.len()
        invariant
            i <= ms@.len(),
            strings_view(stmts@) == strings_view(base) + matviews_pass(
                ms@.take(i as int),
                n@,
            ),
        decreases ms@.len() - i,
    {
        proof {
            assert(ms@.take(i + 1).drop_last() =~= ms@.take(i as int));
            assert(ms@.take(i + 1).last() == ms@[i as int]);
        }
        push_matview_stmts(stmts, &ms[i], n);
        proof {
            assert(strings_view(stmts@) =~= strings_view(base) + matviews_pass(
                ms@.take(i + 1),
                n@,
            ));
        }
        i = i + 1;
    }
    proof {
        assert(ms@.take(ms@.len() as int) =~= ms@);
    }
}

fn push_indexes_pass(stmts: &mut Vec<String>, ts: &Vec<Table>, n: &str)
    ensures
        strings_view(final(stmts)@) == strings_view(old(stmts)@) + indexes_pass(ts@, n@),
{
    let ghost base = stmts@;
    proof {
        assert(strings_view(stmts@) =~= strings_view(base) + indexes_pass(ts@.take(0), n@));
    }
    let mut i: usize = 0;
    while i < ts.len()
        invariant
            i <= ts@.len(),
            strings_view(stmts@) == strings_view(base) + indexes_pass(ts@.take(i as int), n@),
        decreases ts@.len() - i,
    {
        proof {
            assert(ts@.take(i + 1).drop_last() =~= ts@.take(i as int));
            assert(ts@.take(i + 1).last() == ts@[i as int]);
        }
        push_index_stmts(stmts, &ts[i], n);
        proof {
            assert(strings_view(stmts@) =~= strings_view(base) + indexes_pass(
                ts@.take(i + 1),
                n@,
            ));
        }
        i = i + 1;
    }
    proof {
        assert(ts@.take(ts@.len() as int) =~= ts@);
    }
}

fn push_fks_pass(stmts: &mut Vec<String>, ts: &Vec<Table>, n: &str)
    ensures
        strings_view(final(stmts)@) == strings_view(old(stmts)@) + fks_pass(ts@, n@),
{
    let ghost base = stmts@;
    proof {
        assert(strings_view(stmts@) =~= strings_view(base) + fks_pass(ts@.take(0), n@));
    }
    let mut i: usize = 0;
    while i < ts.len()
        invariant
            i <= ts@.len(),
            strings_view(stmts@) == strings_view(base) + fks_pass(ts@.take(i as int), n@),
        decreases ts@.len() - i,
    {
        proof {
            assert(ts@.take(i + 1).drop_last() =~= ts@.take(i as int));
            assert(ts@.take(i + 1).last() == ts@[i as int]);
        }
        push_fk_stmts(stmts, &ts[i], n);
        proof {
            assert(strings_view(stmts@) =~= strings_view(base) + fks_pass(
                ts@.take(i + 1),
                n@,
            ));
        }
        i = i + 1;
    }
    proof {
        assert(ts@.take(ts@.len() as int) =~= ts@);
    }
}

impl PartialSchema {
    /// Renders the whole schema as newline-joined SQL DDL
    /// statements. Rendering is a pure function of the schema and
    /// schema name: the same input always yields the same text, and
    /// foreign keys come after every table definition.
    pub fn to_ddl(&self, schema_name: &str) -> (r: String)
        ensures
            r@ == join_sep(ddl_stmts(*self, schema_name@), "\n"@),
    {
        let mut stmts: Vec<String> = Vec::new();
        let mut head = String::new();
        head.append("CREATE SCHEMA IF NOT EXISTS ");
        head.append(schema_name);
        head.append(";");
        proof {
            reveal_strlit("CREATE SCHEMA IF NOT EXISTS ");
            reveal_strlit(";");
            assert(head@ =~= schema_stmt(schema_name@));
        }
        stmts.push(head);
        proof {
            assert(strings_view(stmts@) =~= seq![schema_stmt(schema_name@)]);
        }
        push_enums_pass(&mut stmts, &self.enums);
        push_sequences_pass(&mut stmts, &self.sequences);
        push_composites_pass(&mut stmts, &self.composite_types);
        push_domains_pass(&mut stmts, &self.domains);
        push_tables_pass(&mut stmts, &self.tables, schema_name);
        push_views_pass(&mut stmts, &self.views, schema_name);
        push_matviews_pass(&mut stmts, &self.materialized_views, schema_name);
        push_indexes_pass(&mut stmts, &self.tables, schema_name);
        push_fks_pass(&mut stmts, &self.tables, schema_name);
        proof {
            assert(strings_view(stmts@) =~= ddl_stmts(*self, schema_name@));
        }
        let mut r = String::new();
        append_joined(&mut r, &stmts, "\n");
        r
    }
}

// ---------------------------------------------------------------------------
// Laws
// ---------------------------------------------------------------------------

/// Foreign keys are deferred to the end: the base-table pass is a
/// contiguous block of the rendered statement sequence that ends
/// before the foreign-key pass begins, whatever order the input
/// listed its tables in. So every CREATE TABLE statement stands
/// earlier in the output than every FOREIGN KEY statement.
pub proof fn lemma_tables_precede_foreign_keys(ps: PartialSchema, n: Seq<char>)
    ensures
        ddl_stmts(ps, n).subrange(
            tables_pass_offset(ps),
            tables_pass_offset(ps) + tables_pass(ps.tables@, n).len(),
        ) == tables_pass(ps.tables@, n),
        ddl_stmts(ps, n).subrange(
            ddl_stmts(ps, n).len() - fks_pass(ps.tables@, n).len(),
            ddl_stmts(ps, n).len() as int,
        ) == fks_pass(ps.tables@, n),
        tables_pass_offset(ps) + tables_pass(ps.tables@, n).len() <= ddl_stmts(ps, n).len()
            - fks_pass(ps.tables@, n).len(),
{
    let stmts = ddl_stmts(ps, n);
    let off = tables_pass_offset(ps);
    let tp = tables_pass(ps.tables@, n);
    let fp = fks_pass(ps.tables@, n);
    assert(stmts.subrange(off, off + tp.len()) =~= tp);
    assert(stmts.subrange(stmts.len() - fp.len(), stmts.len() as int) =~= fp);
}

} // verus!
