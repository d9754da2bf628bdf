//! Structural comparison of two type shapes.
//!
//! Equality is name-keyed on record fields: reordering a record's
//! fields without changing their names or shapes leaves the shape
//! equal. Everywhere else comparison follows declaration order. The
//! difference between two shapes is classified as [`Diff`].

use vstd::prelude::*;

use crate::owned_shape::{
    lemma_fields_view_index, lemma_fields_view_len, lemma_variants_view_index,
    lemma_variants_view_len, strings_view, DefV, FieldV, OwnedDef, OwnedField,
    OwnedNumericType, OwnedPrimitiveType, OwnedShape, OwnedTextualType, OwnedType,
    OwnedUserType, OwnedVariant, ShapeV, TyV, UserV, VariantV,
};
use crate::owned_shape::{field_view, fields_view, prim_view, shape_view, variants_view};
use crate::owned_shape::{distinct_field_names, wf_def, wf_fields, wf_shape, wf_ty, wf_user};

verus! {

// ---------------------------------------------------------------------------
// Structural equality (ghost)
// ---------------------------------------------------------------------------

/// The first field of `fs` named `n`, if any.
pub open spec fn lookup_field(fs: Seq<FieldV>, n: Seq<char>) -> Option<FieldV>
    decreases fs,
{
    if fs.len() == 0 {
        None
    } else if fs[0].name == n {
        Some(fs[0])
    } else {
        lookup_field(fs.drop_first(), n)
    }
}

/// Structural equality of two shapes: identifiers, container
/// semantics and payload kinds must agree; record fields are
/// compared by name, not by position.
pub open spec fn shape_eqv(a: ShapeV, b: ShapeV) -> bool
    decreases a,
{
    a.id == b.id && def_eqv(a.def, b.def) && ty_eqv(a.ty, b.ty)
}

pub open spec fn def_eqv(a: DefV, b: DefV) -> bool
    decreases a,
{
    match (a, b) {
        (DefV::Undefined, DefV::Undefined) => true,
        (DefV::Scalar, DefV::Scalar) => true,
        (DefV::MapOf { k: ak, v: av }, DefV::MapOf { k: bk, v: bv }) => shape_eqv(*ak, *bk)
            && shape_eqv(*av, *bv),
        (DefV::SetOf { t: at }, DefV::SetOf { t: bt }) => shape_eqv(*at, *bt),
        (DefV::ListOf { t: at }, DefV::ListOf { t: bt }) => shape_eqv(*at, *bt),
        (DefV::ArrayOf { t: at, n: an }, DefV::ArrayOf { t: bt, n: bn }) => an == bn
            && shape_eqv(*at, *bt),
        (DefV::OptionOf { t: at }, DefV::OptionOf { t: bt }) => shape_eqv(*at, *bt),
        _ => false,
    }
}

pub open spec fn ty_eqv(a: TyV, b: TyV) -> bool
    decreases a,
{
    match (a, b) {
        (TyV::Primitive(p), TyV::Primitive(q)) => p == q,
        (TyV::Sequence(at), TyV::Sequence(bt)) => shape_eqv(*at, *bt),
        (TyV::User(u), TyV::User(w)) => user_eqv(u, w),
        _ => false,
    }
}

pub open spec fn user_eqv(a: UserV, b: UserV) -> bool
    decreases a,
{
    match (a, b) {
        (UserV::Struct(af), UserV::Struct(bf)) => fields_eq_nk(af, bf),
        (UserV::Enum(av), UserV::Enum(bv)) => variants_eqv(av, bv),
        (UserV::Union(af), UserV::Union(bf)) => fields_eq_ordered(af, bf),
        (UserV::Opaque, UserV::Opaque) => true,
        _ => false,
    }
}

/// Name-keyed record field equality: equal length, every field of
/// `a` has a same-named field in `b` with an equal shape (taking the
/// first occurrence of the name), and every name of `b` occurs in
/// `a`.
pub open spec fn fields_eq_nk(a: Seq<FieldV>, b: Seq<FieldV>) -> bool
    decreases a,
{
    &&& a.len() == b.len()
    &&& forall|i: int|
        0 <= i < a.len() ==> match lookup_field(b, (#[trigger] a[i]).name) {
            Some(g) => shape_eqv(a[i].shape, g.shape),
            None => false,
        }
    &&& forall|j: int| 0 <= j < b.len() ==> lookup_field(a, (#[trigger] b[j]).name) is Some
}

/// Position-keyed field equality: names and shapes agree pairwise in
/// declaration order.
pub open spec fn fields_eq_ordered(a: Seq<FieldV>, b: Seq<FieldV>) -> bool
    decreases a,
{
    &&& a.len() == b.len()
    &&& forall|i: int|
        0 <= i < a.len() ==> (#[trigger] a[i]).name == b[i].name && shape_eqv(
            a[i].shape,
            b[i].shape,
        )
}

/// Sum-type equality: variants agree pairwise in declaration order,
/// by name and by their field lists.
pub open spec fn variants_eqv(a: Seq<VariantV>, b: Seq<VariantV>) -> bool
    decreases a,
{
    &&& a.len() == b.len()
    &&& forall|i: int|
        0 <= i < a.len() ==> (#[trigger] a[i]).name == b[i].name && fields_eq_ordered(
            a[i].fields,
            b[i].fields,
        )
}

// ---------------------------------------------------------------------------
// Structural equality (executable)
// ---------------------------------------------------------------------------

/// Looks a field up by name, scanning forward; agrees with
/// [`lookup_field`] on the view.
pub fn find_field(fs: &Vec<OwnedField>, name: &String) -> (r: Option<usize>)
    ensures
        match r {
            Some(i) => i < fs@.len() && fs@[i as int].name@ == name@ && lookup_field(
                fields_view(fs@),
                name@,
            ) == Some(field_view(fs@[i as int])),
            None => lookup_field(fields_view(fs@), name@) is None,
        },
{
    let ghost fsv = fields_view(fs@);
    proof {
        lemma_fields_view_len(fs@);
    }
    let mut i: usize = 0;
    while i < fs.len()
        invariant
            i <= fs@.len(),
            fsv == fields_view(fs@),
            fsv.len() == fs@.len(),
            forall|k: int| 0 <= k < i ==> (#[trigger] fs@[k]).name@ != name@,
        decreases fs@.len() - i,
    {
        if fs[i].name == *name {
            proof {
                lemma_fields_view_index(fs@, i as int);
                assert forall|k: int| 0 <= k < i implies (#[trigger] fsv[k]).name != name@ by {
                    lemma_fields_view_index(fs@, k);
                }
                lemma_lookup_skips_mismatches(fsv, name@, i as int);
                assert(lookup_field(fsv.skip(i as int), name@) == Some(fsv[i as int])) by {
                    assert(fsv.skip(i as int)[0] == fsv[i as int]);
                }
            }
            return Some(i);
        }
        i = i + 1;
    }
    proof {
        assert forall|k: int| 0 <= k < fsv.len() implies (#[trigger] fsv[k]).name != name@ by {
            lemma_fields_view_index(fs@, k);
        }
        lemma_lookup_skips_mismatches(fsv, name@, fsv.len() as int);
        assert(fsv.skip(fsv.len() as int) =~= Seq::<FieldV>::empty());
    }
    None
}

/// If no field before position `i` is named `n`, the lookup outcome
/// is decided by the fields from `i` on.
proof fn lemma_lookup_skips_mismatches(fs: Seq<FieldV>, n: Seq<char>, i: int)
    requires
        0 <= i <= fs.len(),
        forall|k: int| 0 <= k < i ==> (#[trigger] fs[k]).name != n,
    ensures
        lookup_field(fs, n) == lookup_field(fs.skip(i), n),
    decreases i,
{
    if i > 0 {
        lemma_lookup_skips_mismatches(fs.drop_first(), n, i - 1);
        assert(fs.drop_first().skip(i - 1) =~= fs.skip(i));
    } else {
        assert(fs.skip(0) =~= fs);
    }
}

/// Deep structural equality of two shapes.
pub fn shapes_equal(a: &OwnedShape, b: &OwnedShape) -> (r: bool)
    ensures
        r == shape_eqv(a@, b@),
    decreases *a,
{
    a.type_identifier == b.type_identifier && defs_equal(&a.def, &b.def) && types_equal(
        &a.ty,
        &b.ty,
    )
}

/// Structural equality of two container classifications.
pub fn defs_equal(a: &OwnedDef, b: &OwnedDef) -> (r: bool)
    ensures
        r == def_eqv(a@, b@),
    decreases *a,
{
    match (a, b) {
        (OwnedDef::Undefined, OwnedDef::Undefined) => true,
        (OwnedDef::Scalar, OwnedDef::Scalar) => true,
        (OwnedDef::MapOf(x), OwnedDef::MapOf(y)) => shapes_equal(&x.k, &y.k) && shapes_equal(
            &x.v,
            &y.v,
        ),
        (OwnedDef::SetOf(x), OwnedDef::SetOf(y)) => shapes_equal(&x.t, &y.t),
        (OwnedDef::List(x), OwnedDef::List(y)) => shapes_equal(&x.t, &y.t),
        (OwnedDef::Array(x), OwnedDef::Array(y)) => x.n == y.n && shapes_equal(&x.t, &y.t),
        (OwnedDef::Option(x), OwnedDef::Option(y)) => shapes_equal(&x.t, &y.t),
        _ => false,
    }
}

/// Structural equality of two payload classifications.
pub fn types_equal(a: &OwnedType, b: &OwnedType) -> (r: bool)
    ensures
        r == ty_eqv(a@, b@),
    decreases *a,
{
    match (a, b) {
        (OwnedType::Primitive(p), OwnedType::Primitive(q)) => prims_equal(p, q),
        (OwnedType::Sequence(x), OwnedType::Sequence(y)) => shapes_equal(&x.t, &y.t),
        (OwnedType::User(u), OwnedType::User(w)) => match (u, w) {
            (OwnedUserType::Struct(x), OwnedUserType::Struct(y)) => fields_equal_nk(
                &x.fields,
                &y.fields,
            ),
            (OwnedUserType::Enum(x), OwnedUserType::Enum(y)) => variants_equal(
                &x.variants,
                &y.variants,
            ),
            (OwnedUserType::Union(x), OwnedUserType::Union(y)) => fields_equal_ordered(
                &x.fields,
                &y.fields,
            ),
            (OwnedUserType::Opaque, OwnedUserType::Opaque) => true,
            _ => false,
        },
        _ => false,
    }
}

/// Equality of two primitive payload kinds.
pub fn prims_equal(a: &OwnedPrimitiveType, b: &OwnedPrimitiveType) -> (r: bool)
    ensures
        r == (prim_view(*a) == prim_view(*b)),
{
    match (a, b) {
        (OwnedPrimitiveType::Boolean, OwnedPrimitiveType::Boolean) => true,
        (OwnedPrimitiveType::Numeric(x), OwnedPrimitiveType::Numeric(y)) => match (x, y) {
            (
                OwnedNumericType::Integer { signed: s1 },
                OwnedNumericType::Integer { signed: s2 },
            ) => s1 == s2,
            (OwnedNumericType::Float, OwnedNumericType::Float) => true,
            _ => false,
        },
        (OwnedPrimitiveType::Textual(x), OwnedPrimitiveType::Textual(y)) => match (x, y) {
            (OwnedTextualType::Char, OwnedTextualType::Char) => true,
            (OwnedTextualType::Str, OwnedTextualType::Str) => true,
            _ => false,
        },
        (OwnedPrimitiveType::Never, OwnedPrimitiveType::Never) => true,
        _ => false,
    }
}

/// Name-keyed equality of two record field lists.
pub fn fields_equal_nk(a: &Vec<OwnedField>, b: &Vec<OwnedField>) -> (r: bool)
    ensures
        r == fields_eq_nk(fields_view(a@), fields_view(b@)),
    decreases a@,
{
    let ghost av = fields_view(a@);
    let ghost bv = fields_view(b@);
    proof {
        lemma_fields_view_len(a@);
        lemma_fields_view_len(b@);
    }
    if a.len() != b.len() {
        return false;
    }
    let mut i: usize = 0;
    while i < a.len()
        invariant
            i <= a@.len(),
            a@.len() == b@.len(),
            av == fields_view(a@),
            bv == fields_view(b@),
            av.len() == a@.len(),
            bv.len() == b@.len(),
            forall|k: int|
                0 <= k < i ==> match lookup_field(bv, (#[trigger] av[k]).name) {
                    Some(g) => shape_eqv(av[k].shape, g.shape),
                    None => false,
                },
        decreases a@.len() - i,
    {
        proof {
            lemma_fields_view_index(a@, i as int);
        }
        match find_field(b, &a[i].name) {
            Some(j) => {
                proof {
                    lemma_fields_view_index(b@, j as int);
                }
                if !shapes_equal(&a[i].shape, &b[j].shape) {
                    return false;
                }
            },
            None => {
                return false;
            },
        }
        i = i + 1;
    }
    let mut j: usize = 0;
    while j < b.len()
        invariant
            j <= b@.len(),
            a@.len() == b@.len(),
            av == fields_view(a@),
            bv == fields_view(b@),
            av.len() == a@.len(),
            bv.len() == b@.len(),
            forall|k: int|
                0 <= k < av.len() ==> match lookup_field(bv, (#[trigger] av[k]).name) {
                    Some(g) => shape_eqv(av[k].shape, g.shape),
                    None => false,
                },
            forall|k: int| 0 <= k < j ==> lookup_field(av, (#[trigger] bv[k]).name) is Some,
        decreases b@.len() - j,
    {
        proof {
            lemma_fields_view_index(b@, j as int);
        }
        match find_field(a, &b[j].name) {
            Some(_) => {},
            None => {
                return false;
            },
        }
        j = j + 1;
    }
    true
}

/// Position-keyed equality of two field lists.
pub fn fields_equal_ordered(a: &Vec<OwnedField>, b: &Vec<OwnedField>) -> (r: bool)
    ensures
        r == fields_eq_ordered(fields_view(a@), fields_view(b@)),
    decreases a@,
{
    let ghost av = fields_view(a@);
    let ghost bv = fields_view(b@);
    proof {
        lemma_fields_view_len(a@);
        lemma_fields_view_len(b@);
    }
    if a.len() != b.len() {
        return false;
    }
    let mut i: usize = 0;
    while i < a.len()
        invariant
            i <= a@.len(),
            a@.len() == b@.len(),
            av == fields_view(a@),
            bv == fields_view(b@),
            av.len() == a@.len(),
            bv.len() == b@.len(),
            forall|k: int|
                0 <= k < i ==> (#[trigger] av[k]).name == bv[k].name && shape_eqv(
                    av[k].shape,
                    bv[k].shape,
                ),
        decreases a@.len() - i,
    {
        proof {
            lemma_fields_view_index(a@, i as int);
            lemma_fields_view_index(b@, i as int);
        }
        if !(a[i].name == b[i].name) {
            return false;
        }
        if !shapes_equal(&a[i].shape, &b[i].shape) {
            return false;
        }
        i = i + 1;
    }
    true
}

/// Position-keyed equality of two variant lists.
pub fn variants_equal(a: &Vec<OwnedVariant>, b: &Vec<OwnedVariant>) -> (r: bool)
    ensures
        r == variants_eqv(variants_view(a@), variants_view(b@)),
    decreases a@,
{
    let ghost av = variants_view(a@);
    let ghost bv = variants_view(b@);
    proof {
        lemma_variants_view_len(a@);
        lemma_variants_view_len(b@);
    }
    if a.len() != b.len() {
        return false;
    }
    let mut i: usize = 0;
    while i < a.len()
        invariant
            i <= a@.len(),
            a@.len() == b@.len(),
            av == variants_view(a@),
            bv == variants_view(b@),
            av.len() == a@.len(),
            bv.len() == b@.len(),
            forall|k: int|
                0 <= k < i ==> (#[trigger] av[k]).name == bv[k].name && fields_eq_ordered(
                    av[k].fields,
                    bv[k].fields,
                ),
        decreases a@.len() - i,
    {
        proof {
            lemma_variants_view_index(a@, i as int);
            lemma_variants_view_index(b@, i as int);
        }
        if !(a[i].name == b[i].name) {
            return false;
        }
        if !fields_equal_ordered(&a[i].data.fields, &b[i].data.fields) {
            return false;
        }
        i = i + 1;
    }
    true
}

} // verus!

verus! {

// ---------------------------------------------------------------------------
// The diff tree
// ---------------------------------------------------------------------------

/// Ghost model of the difference between two shapes.
pub enum DiffV {
    Equal,
    Different { from: ShapeV, to: ShapeV },
    User { from: ShapeV, to: ShapeV, value: ValueV },
    Sequence { from: ShapeV, to: ShapeV },
}

/// Ghost model of the field-level breakdown of a record diff.
pub enum ValueV {
    Struct {
        updates: Seq<(Seq<char>, DiffV)>,
        deletions: Seq<Seq<char>>,
        insertions: Seq<Seq<char>>,
        unchanged: Seq<Seq<char>>,
    },
}

/// The difference between two shape descriptors. This compares the
/// structure and metadata of shapes, not runtime values.
#[derive(Debug)]
pub enum Diff {
    /// The two shapes are structurally equal.
    Equal,
    /// The shapes differ and no finer breakdown is computed.
    Different { from: OwnedShape, to: OwnedShape },
    /// Both shapes are records; `value` breaks the difference down
    /// field by field.
    User { from: OwnedShape, to: OwnedShape, value: Value },
    /// Both shapes are sequences; kept as a distinguishable kind.
    Sequence { from: OwnedShape, to: OwnedShape },
}

/// Field-level differences between two records.
#[derive(Debug)]
pub enum Value {
    Struct {
        /// Fields present on both sides whose shapes differ, with
        /// the diff of their shapes, in `from` declaration order.
        updates: Vec<(String, Diff)>,
        /// Names present in `from` but not in `to`, in `from` order.
        deletions: Vec<String>,
        /// Names present in `to` but not in `from`, in `to` order.
        insertions: Vec<String>,
        /// Names present on both sides with equal shapes, in `from`
        /// order.
        unchanged: Vec<String>,
    },
}

pub open spec fn diff_view(d: Diff) -> DiffV
    decreases d,
{
    match d {
        Diff::Equal => DiffV::Equal,
        Diff::Different { from, to } => DiffV::Different {
            from: shape_view(from),
            to: shape_view(to),
        },
        Diff::User { from, to, value } => DiffV::User {
            from: shape_view(from),
            to: shape_view(to),
            value: value_view(value),
        },
        Diff::Sequence { from, to } => DiffV::Sequence {
            from: shape_view(from),
            to: shape_view(to),
        },
    }
}

pub open spec fn value_view(v: Value) -> ValueV
    decreases v,
{
    match v {
        Value::Struct { updates, deletions, insertions, unchanged } => ValueV::Struct {
            updates: updates_view(updates@),
            deletions: strings_view(deletions@),
            insertions: strings_view(insertions@),
            unchanged: strings_view(unchanged@),
        },
    }
}

pub open spec fn updates_view(us: Seq<(String, Diff)>) -> Seq<(Seq<char>, DiffV)>
    decreases us,
{
    if us.len() == 0 {
        Seq::empty()
    } else {
        updates_view(us.drop_last()) + seq![(us.last().0@, diff_view(us.last().1))]
    }
}

impl View for Diff {
    type V = DiffV;

    open spec fn view(&self) -> DiffV {
        diff_view(*self)
    }
}

impl View for Value {
    type V = ValueV;

    open spec fn view(&self) -> ValueV {
        value_view(*self)
    }
}

// ---------------------------------------------------------------------------
// The diff algorithm (ghost)
// ---------------------------------------------------------------------------

/// Fields of `ff` whose name also occurs in `tf` but whose shape
/// differs, paired with the diff of the two shapes, in `ff` order.
pub open spec fn spec_updates(ff: Seq<FieldV>, tf: Seq<FieldV>) -> Seq<(Seq<char>, DiffV)>
    decreases ff,
{
    if ff.len() == 0 {
        Seq::empty()
    } else {
        spec_updates(ff.drop_last(), tf) + match lookup_field(tf, ff.last().name) {
            Some(g) => if shape_eqv(ff.last().shape, g.shape) {
                Seq::empty()
            } else {
                seq![(ff.last().name, spec_diff(ff.last().shape, g.shape))]
            },
            None => Seq::empty(),
        }
    }
}

/// Names of `ff` fields that have no counterpart in `tf`, in `ff`
/// order.
pub open spec fn spec_deletions(ff: Seq<FieldV>, tf: Seq<FieldV>) -> Seq<Seq<char>>
    decreases ff,
{
    if ff.len() == 0 {
        Seq::empty()
    } else {
        spec_deletions(ff.drop_last(), tf) + match lookup_field(tf, ff.last().name) {
            Some(g) => Seq::empty(),
            None => seq![ff.last().name],
        }
    }
}

/// Names of `ff` fields whose counterpart in `tf` has an equal
/// shape, in `ff` order.
pub open spec fn spec_unchanged(ff: Seq<FieldV>, tf: Seq<FieldV>) -> Seq<Seq<char>>
    decreases ff,
{
    if ff.len() == 0 {
        Seq::empty()
    } else {
        spec_unchanged(ff.drop_last(), tf) + match lookup_field(tf, ff.last().name) {
            Some(g) => if shape_eqv(ff.last().shape, g.shape) {
                seq![ff.last().name]
            } else {
                Seq::empty()
            },
            None => Seq::empty(),
        }
    }
}

/// Names of `tf` fields that have no counterpart in `ff`, in `tf`
/// order.
pub open spec fn spec_insertions(ff: Seq<FieldV>, tf: Seq<FieldV>) -> Seq<Seq<char>>
    decreases tf,
{
    if tf.len() == 0 {
        Seq::empty()
    } else {
        spec_insertions(ff, tf.drop_last()) + match lookup_field(ff, tf.last().name) {
            Some(g) => Seq::empty(),
            None => seq![tf.last().name],
        }
    }
}

/// The difference between two shapes: `Equal` for structurally
/// (name-keyed) equal shapes; a field-by-field breakdown for two
/// records; `Sequence` for two sequences; `Different` otherwise.
pub open spec fn spec_diff(from: ShapeV, to: ShapeV) -> DiffV
    decreases from,
{
    if shape_eqv(from, to) {
        DiffV::Equal
    } else {
        match (from.ty, to.ty) {
            (TyV::User(UserV::Struct(ff)), TyV::User(UserV::Struct(tf))) => DiffV::User {
                from,
                to,
                value: ValueV::Struct {
                    updates: spec_updates(ff, tf),
                    deletions: spec_deletions(ff, tf),
                    insertions: spec_insertions(ff, tf),
                    unchanged: spec_unchanged(ff, tf),
                },
            },
            (TyV::User(UserV::Enum(av)), TyV::User(UserV::Enum(bv))) => DiffV::Different {
                from,
                to,
            },
            (TyV::Sequence(at), TyV::Sequence(bt)) => DiffV::Sequence { from, to },
            _ => DiffV::Different { from, to },
        }
    }
}

// ---------------------------------------------------------------------------
// The diff algorithm (executable)
// ---------------------------------------------------------------------------

impl Diff {
    /// Returns true when the two compared shapes were equal.
    pub fn is_equal(&self) -> (r: bool)
        ensures
            r == (self@ is Equal),
    {
        matches!(self, Diff::Equal)
    }

    /// Computes the difference between two owned shapes.
    pub fn new(from: &OwnedShape, to: &OwnedShape) -> (r: Diff)
        ensures
            r@ == spec_diff(from@, to@),
        decreases *from,
    {
        if shapes_equal(from, to) {
            return Diff::Equal;
        }
        proof {
            crate::owned_shape::lemma_ty_view_kind(*from.ty);
            crate::owned_shape::lemma_ty_view_kind(*to.ty);
        }
        match (&*from.ty, &*to.ty) {
            (
                OwnedType::User(OwnedUserType::Struct(fs)),
                OwnedType::User(OwnedUserType::Struct(ts)),
            ) => {
                let ghost ffv = fields_view(fs.fields@);
                let ghost tfv = fields_view(ts.fields@);
                proof {
                    lemma_fields_view_len(fs.fields@);
                    lemma_fields_view_len(ts.fields@);
                }
                let mut updates: Vec<(String, Diff)> = Vec::new();
                let mut deletions: Vec<String> = Vec::new();
                let mut unchanged: Vec<String> = Vec::new();
                let mut i: usize = 0;
                while i < fs.fields.len()
                    invariant
                        i <= fs.fields@.len(),
                        ffv == fields_view(fs.fields@),
                        tfv == fields_view(ts.fields@),
                        ffv.len() == fs.fields@.len(),
                        tfv.len() == ts.fields@.len(),
                        *from.ty == OwnedType::User(OwnedUserType::Struct(*fs)),
                        updates_view(updates@) == spec_updates(ffv.take(i as int), tfv),
                        strings_view(deletions@) == spec_deletions(ffv.take(i as int), tfv),
                        strings_view(unchanged@) == spec_unchanged(ffv.take(i as int), tfv),
                    decreases fs.fields@.len() - i,
                {
                    proof {
                        lemma_fields_view_index(fs.fields@, i as int);
                        assert(ffv.take(i + 1).drop_last() =~= ffv.take(i as int));
                        assert(ffv.take(i + 1).last() == ffv[i as int]);
                    }
                    let name = &fs.fields[i].name;
                    match find_field(&ts.fields, name) {
                        Some(j) => {
                            if shapes_equal(&fs.fields[i].shape, &ts.fields[j].shape) {
                                let ghost prev = unchanged@;
                                unchanged.push(name.clone());
                                proof {
                                    assert(unchanged@ == prev.push(unchanged@.last()));
                                    assert(strings_view(unchanged@) =~= strings_view(prev)
                                        + seq![ffv[i as int].name]);
                                    assert(updates_view(updates@) == spec_updates(
                                        ffv.take(i + 1),
                                        tfv,
                                    ));
                                    assert(strings_view(deletions@) == spec_deletions(
                                        ffv.take(i + 1),
                                        tfv,
                                    ));
                                }
                            } else {
                                proof {
                                    assert(*from.ty == OwnedType::User(
                                        OwnedUserType::Struct(*fs),
                                    ));
                                    assert(decreases_to!(*from => *from.ty));
                                    assert(decreases_to!(*from.ty => (*from.ty)->User_0));
                                    assert(decreases_to!(
                                        (*from.ty)->User_0 => (*from.ty)->User_0->Struct_0
                                    ));
                                    assert((*from.ty)->User_0->Struct_0 == *fs);
                                    assert(decreases_to!(*fs => fs.fields@));
                                    assert(decreases_to!(fs.fields@ => fs.fields@[i as int]));
                                    assert(decreases_to!(
                                        fs.fields@[i as int] => fs.fields@[i as int].shape
                                    ));
                                    assert(decreases_to!(*from => fs.fields@[i as int].shape));
                                }
                                let d = Diff::new(&fs.fields[i].shape, &ts.fields[j].shape);
                                let ghost prev = updates@;
                                updates.push((name.clone(), d));
                                proof {
                                    assert(updates@.drop_last() =~= prev);
                                    assert(updates_view(updates@) =~= updates_view(prev)
                                        + seq![
                                        (ffv[i as int].name, spec_diff(
                                            ffv[i as int].shape,
                                            field_view(ts.fields@[j as int]).shape,
                                        )),
                                    ]);
                                    assert(strings_view(deletions@) == spec_deletions(
                                        ffv.take(i + 1),
                                        tfv,
                                    ));
                                    assert(strings_view(unchanged@) == spec_unchanged(
                                        ffv.take(i + 1),
                                        tfv,
                                    ));
                                }
                            }
                        },
                        None => {
                            let ghost prev = deletions@;
                            deletions.push(name.clone());
                            proof {
                                assert(strings_view(deletions@) =~= strings_view(prev)
                                    + seq![ffv[i as int].name]);
                                assert(updates_view(updates@) == spec_updates(
                                    ffv.take(i + 1),
                                    tfv,
                                ));
                                assert(strings_view(unchanged@) == spec_unchanged(
                                    ffv.take(i + 1),
                                    tfv,
                                ));
                            }
                        },
                    }
                    i = i + 1;
                }
                proof {
                    assert(ffv.take(ffv.len() as int) =~= ffv);
                }
                let mut insertions: Vec<String> = Vec::new();
                let mut j: usize = 0;
                while j < ts.fields.len()
                    invariant
                        j <= ts.fields@.len(),
                        ffv == fields_view(fs.fields@),
                        tfv == fields_view(ts.fields@),
                        tfv.len() == ts.fields@.len(),
                        strings_view(insertions@) == spec_insertions(ffv, tfv.take(j as int)),
                    decreases ts.fields@.len() - j,
                {
                    proof {
                        lemma_fields_view_index(ts.fields@, j as int);
                        assert(tfv.take(j + 1).drop_last() =~= tfv.take(j as int));
                        assert(tfv.take(j + 1).last() == tfv[j as int]);
                    }
                    let name = &ts.fields[j].name;
                    match find_field(&fs.fields, name) {
                        Some(_) => {},
                        None => {
                            let ghost prev = insertions@;
                            insertions.push(name.clone());
                            proof {
                                assert(strings_view(insertions@) =~= strings_view(prev)
                                    + seq![tfv[j as int].name]);
                            }
                        },
                    }
                    j = j + 1;
                }
                proof {
                    assert(tfv.take(tfv.len() as int) =~= tfv);
                }
                Diff::User {
                    from: from.clone(),
                    to: to.clone(),
                    value: Value::Struct { updates, deletions, insertions, unchanged },
                }
            },
            (OwnedType::User(OwnedUserType::Enum(_)), OwnedType::User(OwnedUserType::Enum(_))) => {
                Diff::Different { from: from.clone(), to: to.clone() }
            },
            (OwnedType::Sequence(_), OwnedType::Sequence(_)) => Diff::Sequence {
                from: from.clone(),
                to: to.clone(),
            },
            _ => Diff::Different { from: from.clone(), to: to.clone() },
        }
    }
}

} // verus!

verus! {

// ---------------------------------------------------------------------------
// Laws
// ---------------------------------------------------------------------------

/// If the fields of `fs` are pairwise distinctly named, looking a
/// field's own name up finds exactly that field.
pub proof fn lemma_lookup_distinct(fs: Seq<FieldV>, i: int)
    requires
        distinct_field_names(fs),
        0 <= i < fs.len(),
    ensures
        lookup_field(fs, fs[i].name) == Some(fs[i]),
{
    lemma_lookup_skips_mismatches(fs, fs[i].name, i);
    assert(fs.skip(i)[0] == fs[i]);
}

/// Structural equality is reflexive on well-formed shapes.
pub proof fn lemma_shape_eqv_refl(s: ShapeV)
    requires
        wf_shape(s),
    ensures
        shape_eqv(s, s),
    decreases s,
{
    lemma_def_eqv_refl(s.def);
    lemma_ty_eqv_refl(s.ty);
}

proof fn lemma_def_eqv_refl(d: DefV)
    requires
        wf_def(d),
    ensures
        def_eqv(d, d),
    decreases d,
{
    match d {
        DefV::MapOf { k, v } => {
            lemma_shape_eqv_refl(*k);
            lemma_shape_eqv_refl(*v);
        },
        DefV::SetOf { t } => lemma_shape_eqv_refl(*t),
        DefV::ListOf { t } => lemma_shape_eqv_refl(*t),
        DefV::ArrayOf { t, n } => lemma_shape_eqv_refl(*t),
        DefV::OptionOf { t } => lemma_shape_eqv_refl(*t),
        _ => {},
    }
}

proof fn lemma_ty_eqv_refl(t: TyV)
    requires
        wf_ty(t),
    ensures
        ty_eqv(t, t),
    decreases t,
{
    match t {
        TyV::Sequence(sq) => lemma_shape_eqv_refl(*sq),
        TyV::User(u) => lemma_user_eqv_refl(u),
        _ => {},
    }
}

proof fn lemma_user_eqv_refl(u: UserV)
    requires
        wf_user(u),
    ensures
        user_eqv(u, u),
    decreases u,
{
    match u {
        UserV::Struct(fs) => lemma_fields_eq_nk_refl(fs),
        UserV::Enum(vs) => {
            assert forall|i: int| 0 <= i < vs.len() implies (#[trigger] vs[i]).name == vs[i].name
                && fields_eq_ordered(vs[i].fields, vs[i].fields) by {
                lemma_fields_eq_ordered_refl(vs[i].fields);
            }
        },
        UserV::Union(fs) => lemma_fields_eq_ordered_refl(fs),
        UserV::Opaque => {},
    }
}

proof fn lemma_fields_eq_ordered_refl(fs: Seq<FieldV>)
    requires
        wf_fields(fs),
    ensures
        fields_eq_ordered(fs, fs),
    decreases fs,
{
    assert forall|i: int| 0 <= i < fs.len() implies (#[trigger] fs[i]).name == fs[i].name
        && shape_eqv(fs[i].shape, fs[i].shape) by {
        lemma_shape_eqv_refl(fs[i].shape);
    }
}

proof fn lemma_fields_eq_nk_refl(fs: Seq<FieldV>)
    requires
        wf_fields(fs),
    ensures
        fields_eq_nk(fs, fs),
    decreases fs,
{
    assert forall|i: int|
        0 <= i < fs.len() implies match lookup_field(fs, (#[trigger] fs[i]).name) {
        Some(g) => shape_eqv(fs[i].shape, g.shape),
        None => false,
    } by {
        lemma_lookup_distinct(fs, i);
        lemma_shape_eqv_refl(fs[i].shape);
    }
    assert forall|j: int| 0 <= j < fs.len() implies lookup_field(
        fs,
        (#[trigger] fs[j]).name,
    ) is Some by {
        lemma_lookup_distinct(fs, j);
    }
}

/// The diff of any well-formed shape with itself is `Equal`.
pub proof fn lemma_diff_reflexive(s: ShapeV)
    requires
        wf_shape(s),
    ensures
        spec_diff(s, s) == DiffV::Equal,
{
    lemma_shape_eqv_refl(s);
}

/// The diff is name-keyed, not position-keyed: two well-formed
/// record shapes that agree on identifier and container semantics
/// and whose field lists are permutations of one another diff as
/// `Equal`.
pub proof fn lemma_diff_field_order_irrelevant(
    from: ShapeV,
    to: ShapeV,
    ff: Seq<FieldV>,
    tf: Seq<FieldV>,
)
    requires
        wf_shape(from),
        wf_shape(to),
        from.id == to.id,
        from.def == to.def,
        from.ty == TyV::User(UserV::Struct(ff)),
        to.ty == TyV::User(UserV::Struct(tf)),
        ff.to_multiset() == tf.to_multiset(),
    ensures
        spec_diff(from, to) == DiffV::Equal,
{
    broadcast use vstd::seq_lib::group_to_multiset_ensures;

    lemma_def_eqv_refl(from.def);
    assert(wf_ty(from.ty) && wf_user(UserV::Struct(ff)) && wf_fields(ff));
    assert(wf_ty(to.ty) && wf_user(UserV::Struct(tf)) && wf_fields(tf));
    assert(ff.len() == tf.len()) by {
        assert(ff.to_multiset().len() == ff.len());
        assert(tf.to_multiset().len() == tf.len());
    }
    assert forall|i: int|
        0 <= i < ff.len() implies match lookup_field(tf, (#[trigger] ff[i]).name) {
        Some(g) => shape_eqv(ff[i].shape, g.shape),
        None => false,
    } by {
        assert(ff.to_multiset().count(ff[i]) > 0);
        assert(tf.contains(ff[i]));
        let j = choose|j: int| 0 <= j < tf.len() && tf[j] == ff[i];
        lemma_lookup_distinct(tf, j);
        lemma_shape_eqv_refl(ff[i].shape);
    }
    assert forall|j: int| 0 <= j < tf.len() implies lookup_field(
        ff,
        (#[trigger] tf[j]).name,
    ) is Some by {
        assert(tf.to_multiset().count(tf[j]) > 0);
        assert(ff.contains(tf[j]));
        let i = choose|i: int| 0 <= i < ff.len() && ff[i] == tf[j];
        lemma_lookup_distinct(ff, i);
    }
    assert(fields_eq_nk(ff, tf));
    assert(user_eqv(UserV::Struct(ff), UserV::Struct(tf)));
    assert(ty_eqv(from.ty, to.ty));
    assert(shape_eqv(from, to));
}

} // verus!

verus! {

pub proof fn lemma_updates_view_len(us: Seq<(String, Diff)>)
    ensures
        updates_view(us).len() == us.len(),
    decreases us,
{
    if us.len() > 0 {
        lemma_updates_view_len(us.drop_last());
    }
}

pub proof fn lemma_updates_view_index(us: Seq<(String, Diff)>, i: int)
    requires
        0 <= i < us.len(),
    ensures
        updates_view(us)[i] == (us[i].0@, diff_view(us[i].1)),
    decreases us,
{
    lemma_updates_view_len(us);
    if i < us.len() - 1 {
        lemma_updates_view_index(us.drop_last(), i);
        lemma_updates_view_len(us.drop_last());
    }
}

} // verus!
