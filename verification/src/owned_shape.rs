//! The type-shape intermediate representation: a recursive, owned
//! description of a value's structure (container semantics, payload
//! kind, record fields, sum-type variants), together with its ghost
//! model used by every contract in this crate.

use vstd::prelude::*;

verus! {

// ---------------------------------------------------------------------------
// Ghost model
// ---------------------------------------------------------------------------

/// Ghost model of a container classification.
pub enum DefV {
    Undefined,
    Scalar,
    MapOf { k: Box<ShapeV>, v: Box<ShapeV> },
    SetOf { t: Box<ShapeV> },
    ListOf { t: Box<ShapeV> },
    ArrayOf { t: Box<ShapeV>, n: nat },
    OptionOf { t: Box<ShapeV> },
}

/// Ghost model of a numeric payload kind.
pub enum NumV {
    Integer { signed: bool },
    Float,
}

/// Ghost model of a textual payload kind.
pub enum TextV {
    Char,
    Str,
}

/// Ghost model of a primitive payload kind.
pub enum PrimV {
    Boolean,
    Numeric(NumV),
    Textual(TextV),
    Never,
}

/// Ghost model of a record field.
pub struct FieldV {
    pub name: Seq<char>,
    pub shape: ShapeV,
    pub doc: Seq<Seq<char>>,
    pub tags: Seq<(Seq<char>, Seq<char>)>,
}

/// Ghost model of a sum-type variant.
pub struct VariantV {
    pub name: Seq<char>,
    pub fields: Seq<FieldV>,
    pub doc: Seq<Seq<char>>,
}

/// Ghost model of a user-defined payload.
pub enum UserV {
    Struct(Seq<FieldV>),
    Enum(Seq<VariantV>),
    Union(Seq<FieldV>),
    Opaque,
}

/// Ghost model of a payload classification.
pub enum TyV {
    Primitive(PrimV),
    Sequence(Box<ShapeV>),
    User(UserV),
}

/// Ghost model of a whole type shape.
pub struct ShapeV {
    pub id: Seq<char>,
    pub def: DefV,
    pub ty: TyV,
    pub size: Option<nat>,
}

// ---------------------------------------------------------------------------
// Executable representation
// ---------------------------------------------------------------------------

/// A map container: key and value shapes.
#[derive(Debug)]
pub struct OwnedMapDef {
    pub k: OwnedShape,
    pub v: OwnedShape,
}

/// A set container: element shape.
#[derive(Debug)]
pub struct OwnedSetDef {
    pub t: OwnedShape,
}

/// A list container: element shape.
#[derive(Debug)]
pub struct OwnedListDef {
    pub t: OwnedShape,
}

/// A fixed-length array container: element shape and length.
#[derive(Debug)]
pub struct OwnedArrayDef {
    pub t: OwnedShape,
    pub n: usize,
}

/// An optional container: element shape. This is the sole
/// nullability signal in the representation.
#[derive(Debug)]
pub struct OwnedOptionDef {
    pub t: OwnedShape,
}

/// Container semantics of a shape, independent of the payload kind.
#[derive(Debug)]
pub enum OwnedDef {
    Undefined,
    Scalar,
    MapOf(OwnedMapDef),
    SetOf(OwnedSetDef),
    List(OwnedListDef),
    Array(OwnedArrayDef),
    Option(OwnedOptionDef),
}

/// Numeric payload kind.
#[derive(Debug)]
pub enum OwnedNumericType {
    Integer { signed: bool },
    Float,
}

/// Textual payload kind.
#[derive(Debug)]
pub enum OwnedTextualType {
    Char,
    Str,
}

/// Primitive payload kind.
#[derive(Debug)]
pub enum OwnedPrimitiveType {
    Boolean,
    Numeric(OwnedNumericType),
    Textual(OwnedTextualType),
    Never,
}

/// A sequence payload: element shape.
#[derive(Debug)]
pub struct OwnedSequenceType {
    pub t: OwnedShape,
}

/// A named record field with its shape, documentation lines and
/// semantic tags (namespace, key) that the compiler interprets.
#[derive(Debug)]
pub struct OwnedField {
    pub name: String,
    pub shape: OwnedShape,
    pub doc: Vec<String>,
    pub tags: Vec<(String, String)>,
}

/// A record payload: its fields in declaration order.
#[derive(Debug)]
pub struct OwnedStructType {
    pub fields: Vec<OwnedField>,
}

/// An untagged-union payload: its fields in declaration order.
#[derive(Debug)]
pub struct OwnedUnionType {
    pub fields: Vec<OwnedField>,
}

/// A sum-type variant: name, payload fields (empty for unit
/// variants) and documentation lines.
#[derive(Debug)]
pub struct OwnedVariant {
    pub name: String,
    pub data: OwnedStructType,
    pub doc: Vec<String>,
}

/// A sum-type payload: its variants in declaration order.
#[derive(Debug)]
pub struct OwnedEnumType {
    pub variants: Vec<OwnedVariant>,
}

/// User-defined payload kinds.
#[derive(Debug)]
pub enum OwnedUserType {
    Struct(OwnedStructType),
    Enum(OwnedEnumType),
    Union(OwnedUnionType),
    Opaque,
}

/// Payload classification of a shape.
#[derive(Debug)]
pub enum OwnedType {
    Primitive(OwnedPrimitiveType),
    Sequence(OwnedSequenceType),
    User(OwnedUserType),
}

/// A complete, owned type-shape descriptor: a globally
/// distinguishing identifier, container semantics, payload kind,
/// and, for sized leaves, the size in bytes.
#[derive(Debug)]
pub struct OwnedShape {
    pub type_identifier: String,
    pub def: Box<OwnedDef>,
    pub ty: Box<OwnedType>,
    pub size: Option<usize>,
}

// ---------------------------------------------------------------------------
// Views
// ---------------------------------------------------------------------------

/// Ghost projection of a sequence of strings to their character
/// sequences.
pub open spec fn strings_view(ds: Seq<String>) -> Seq<Seq<char>> {
    ds.map_values(|s: String| s@)
}

/// Ghost projection of a sequence of (namespace, key) tags.
pub open spec fn tags_view(ts: Seq<(String, String)>) -> Seq<(Seq<char>, Seq<char>)> {
    ts.map_values(|t: (String, String)| (t.0@, t.1@))
}

pub open spec fn size_view(s: Option<usize>) -> Option<nat> {
    match s {
        Some(n) => Some(n as nat),
        None => None,
    }
}

pub open spec fn shape_view(s: OwnedShape) -> ShapeV
    decreases s,
{
    ShapeV {
        id: s.type_identifier@,
        def: def_view(*s.def),
        ty: ty_view(*s.ty),
        size: size_view(s.size),
    }
}

pub open spec fn def_view(d: OwnedDef) -> DefV
    decreases d,
{
    match d {
        OwnedDef::Undefined => DefV::Undefined,
        OwnedDef::Scalar => DefV::Scalar,
        OwnedDef::MapOf(m) => DefV::MapOf {
            k: Box::new(shape_view(m.k)),
            v: Box::new(shape_view(m.v)),
        },
        OwnedDef::SetOf(sd) => DefV::SetOf { t: Box::new(shape_view(sd.t)) },
        OwnedDef::List(ld) => DefV::ListOf { t: Box::new(shape_view(ld.t)) },
        OwnedDef::Array(ad) => DefV::ArrayOf { t: Box::new(shape_view(ad.t)), n: ad.n as nat },
        OwnedDef::Option(od) => DefV::OptionOf { t: Box::new(shape_view(od.t)) },
    }
}

pub open spec fn ty_view(t: OwnedType) -> TyV
    decreases t,
{
    match t {
        OwnedType::Primitive(p) => TyV::Primitive(prim_view(p)),
        OwnedType::Sequence(sq) => TyV::Sequence(Box::new(shape_view(sq.t))),
        OwnedType::User(u) => TyV::User(user_view(u)),
    }
}

pub open spec fn prim_view(p: OwnedPrimitiveType) -> PrimV {
    match p {
        OwnedPrimitiveType::Boolean => PrimV::Boolean,
        OwnedPrimitiveType::Numeric(n) => PrimV::Numeric(
            match n {
                OwnedNumericType::Integer { signed } => NumV::Integer { signed },
                OwnedNumericType::Float => NumV::Float,
            },
        ),
        OwnedPrimitiveType::Textual(t) => PrimV::Textual(
            match t {
                OwnedTextualType::Char => TextV::Char,
                OwnedTextualType::Str => TextV::Str,
            },
        ),
        OwnedPrimitiveType::Never => PrimV::Never,
    }
}

pub open spec fn user_view(u: OwnedUserType) -> UserV
    decreases u,
{
    match u {
        OwnedUserType::Struct(st) => UserV::Struct(fields_view(st.fields@)),
        OwnedUserType::Enum(e) => UserV::Enum(variants_view(e.variants@)),
        OwnedUserType::Union(un) => UserV::Union(fields_view(un.fields@)),
        OwnedUserType::Opaque => UserV::Opaque,
    }
}

pub open spec fn fields_view(fs: Seq<OwnedField>) -> Seq<FieldV>
    decreases fs,
{
    if fs.len() == 0 {
        Seq::empty()
    } else {
        seq![field_view(fs[0])] + fields_view(fs.drop_first())
    }
}

pub open spec fn field_view(f: OwnedField) -> FieldV
    decreases f,
{
    FieldV {
        name: f.name@,
        shape: shape_view(f.shape),
        doc: strings_view(f.doc@),
        tags: tags_view(f.tags@),
    }
}

pub open spec fn variants_view(vs: Seq<OwnedVariant>) -> Seq<VariantV>
    decreases vs,
{
    if vs.len() == 0 {
        Seq::empty()
    } else {
        seq![variant_view(vs[0])] + variants_view(vs.drop_first())
    }
}

pub open spec fn variant_view(v: OwnedVariant) -> VariantV
    decreases v,
{
    VariantV {
        name: v.name@,
        fields: fields_view(v.data.fields@),
        doc: strings_view(v.doc@),
    }
}

impl View for OwnedShape {
    type V = ShapeV;

    open spec fn view(&self) -> ShapeV {
        shape_view(*self)
    }
}

impl View for OwnedDef {
    type V = DefV;

    open spec fn view(&self) -> DefV {
        def_view(*self)
    }
}

impl View for OwnedType {
    type V = TyV;

    open spec fn view(&self) -> TyV {
        ty_view(*self)
    }
}

impl View for OwnedField {
    type V = FieldV;

    open spec fn view(&self) -> FieldV {
        field_view(*self)
    }
}

impl View for OwnedVariant {
    type V = VariantV;

    open spec fn view(&self) -> VariantV {
        variant_view(*self)
    }
}

// Pointwise characterization of the sequence views, for use in loop
// invariants.

pub broadcast proof fn lemma_fields_view_len(fs: Seq<OwnedField>)
    ensures
        #[trigger] fields_view(fs).len() == fs.len(),
    decreases fs,
{
    if fs.len() > 0 {
        lemma_fields_view_len(fs.drop_first());
    }
}

pub broadcast proof fn lemma_fields_view_index(fs: Seq<OwnedField>, i: int)
    requires
        0 <= i < fs.len(),
    ensures
        #[trigger] fields_view(fs)[i] == field_view(fs[i]),
    decreases fs,
{
    lemma_fields_view_len(fs);
    if i > 0 {
        lemma_fields_view_index(fs.drop_first(), i - 1);
    }
}

pub broadcast proof fn lemma_variants_view_len(vs: Seq<OwnedVariant>)
    ensures
        #[trigger] variants_view(vs).len() == vs.len(),
    decreases vs,
{
    if vs.len() > 0 {
        lemma_variants_view_len(vs.drop_first());
    }
}

pub broadcast proof fn lemma_variants_view_index(vs: Seq<OwnedVariant>, i: int)
    requires
        0 <= i < vs.len(),
    ensures
        #[trigger] variants_view(vs)[i] == variant_view(vs[i]),
    decreases vs,
{
    lemma_variants_view_len(vs);
    if i > 0 {
        lemma_variants_view_index(vs.drop_first(), i - 1);
    }
}

// ---------------------------------------------------------------------------
// Well-formedness: distinct field names
// ---------------------------------------------------------------------------

/// The names of a field list are pairwise distinct.
pub open spec fn distinct_field_names(fs: Seq<FieldV>) -> bool {
    forall|i: int, j: int| 0 <= i < j < fs.len() ==> fs[i].name != fs[j].name
}

/// A shape is well formed when every record, union and variant it
/// contains names its fields pairwise distinctly.
pub open spec fn wf_shape(s: ShapeV) -> bool
    decreases s,
{
    wf_def(s.def) && wf_ty(s.ty)
}

pub open spec fn wf_def(d: DefV) -> bool
    decreases d,
{
    match d {
        DefV::Undefined => true,
        DefV::Scalar => true,
        DefV::MapOf { k, v } => wf_shape(*k) && wf_shape(*v),
        DefV::SetOf { t } => wf_shape(*t),
        DefV::ListOf { t } => wf_shape(*t),
        DefV::ArrayOf { t, n } => wf_shape(*t),
        DefV::OptionOf { t } => wf_shape(*t),
    }
}

pub open spec fn wf_ty(t: TyV) -> bool
    decreases t,
{
    match t {
        TyV::Primitive(p) => true,
        TyV::Sequence(sq) => wf_shape(*sq),
        TyV::User(u) => wf_user(u),
    }
}

pub open spec fn wf_user(u: UserV) -> bool
    decreases u,
{
    match u {
        UserV::Struct(fs) => wf_fields(fs),
        UserV::Enum(vs) => forall|i: int|
            0 <= i < vs.len() ==> wf_fields(#[trigger] vs[i].fields),
        UserV::Union(fs) => wf_fields(fs),
        UserV::Opaque => true,
    }
}

pub open spec fn wf_fields(fs: Seq<FieldV>) -> bool
    decreases fs,
{
    distinct_field_names(fs) && (forall|i: int|
        0 <= i < fs.len() ==> wf_shape(#[trigger] fs[i].shape))
}

// ---------------------------------------------------------------------------
// Clone
// ---------------------------------------------------------------------------

impl Clone for OwnedShape {
    /// Produces a structurally identical shape tree.
    fn clone(&self) -> (res: Self)
        ensures
            res@ == self@,
        decreases *self,
    {
        OwnedShape {
            type_identifier: self.type_identifier.clone(),
            def: Box::new((*self.def).clone()),
            ty: Box::new((*self.ty).clone()),
            size: match self.size {
                Some(n) => Some(n),
                None => None,
            },
        }
    }
}

impl Clone for OwnedDef {
    fn clone(&self) -> (res: Self)
        ensures
            res@ == self@,
        decreases *self,
    {
        match self {
            OwnedDef::Undefined => OwnedDef::Undefined,
            OwnedDef::Scalar => OwnedDef::Scalar,
            OwnedDef::MapOf(m) => OwnedDef::MapOf(
                OwnedMapDef { k: m.k.clone(), v: m.v.clone() },
            ),
            OwnedDef::SetOf(sd) => OwnedDef::SetOf(OwnedSetDef { t: sd.t.clone() }),
            OwnedDef::List(ld) => OwnedDef::List(OwnedListDef { t: ld.t.clone() }),
            OwnedDef::Array(ad) => OwnedDef::Array(
                OwnedArrayDef { t: ad.t.clone(), n: ad.n },
            ),
            OwnedDef::Option(od) => OwnedDef::Option(OwnedOptionDef { t: od.t.clone() }),
        }
    }
}

impl Clone for OwnedType {
    fn clone(&self) -> (res: Self)
        ensures
            res@ == self@,
        decreases *self,
    {
        match self {
            OwnedType::Primitive(p) => OwnedType::Primitive(p.clone()),
            OwnedType::Sequence(sq) => OwnedType::Sequence(
                OwnedSequenceType { t: sq.t.clone() },
            ),
            OwnedType::User(u) => OwnedType::User(u.clone()),
        }
    }
}

impl Clone for OwnedPrimitiveType {
    fn clone(&self) -> (res: Self)
        ensures
            prim_view(res) == prim_view(*self),
    {
        match self {
            OwnedPrimitiveType::Boolean => OwnedPrimitiveType::Boolean,
            OwnedPrimitiveType::Numeric(n) => OwnedPrimitiveType::Numeric(
                match n {
                    OwnedNumericType::Integer { signed } => OwnedNumericType::Integer {
                        signed: *signed,
                    },
                    OwnedNumericType::Float => OwnedNumericType::Float,
                },
            ),
            OwnedPrimitiveType::Textual(t) => OwnedPrimitiveType::Textual(
                match t {
                    OwnedTextualType::Char => OwnedTextualType::Char,
                    OwnedTextualType::Str => OwnedTextualType::Str,
                },
            ),
            OwnedPrimitiveType::Never => OwnedPrimitiveType::Never,
        }
    }
}

impl Clone for OwnedUserType {
    fn clone(&self) -> (res: Self)
        ensures
            user_view(res) == user_view(*self),
        decreases *self,
    {
        match self {
            OwnedUserType::Struct(st) => OwnedUserType::Struct(
                OwnedStructType { fields: clone_fields(&st.fields) },
            ),
            OwnedUserType::Enum(e) => OwnedUserType::Enum(
                OwnedEnumType { variants: clone_variants(&e.variants) },
            ),
            OwnedUserType::Union(un) => OwnedUserType::Union(
                OwnedUnionType { fields: clone_fields(&un.fields) },
            ),
            OwnedUserType::Opaque => OwnedUserType::Opaque,
        }
    }
}

impl Clone for OwnedField {
    fn clone(&self) -> (res: Self)
        ensures
            res@ == self@,
        decreases *self,
    {
        OwnedField {
            name: self.name.clone(),
            shape: self.shape.clone(),
            doc: clone_strings(&self.doc),
            tags: clone_tags(&self.tags),
        }
    }
}

impl Clone for OwnedVariant {
    fn clone(&self) -> (res: Self)
        ensures
            res@ == self@,
        decreases *self,
    {
        OwnedVariant {
            name: self.name.clone(),
            data: OwnedStructType { fields: clone_fields(&self.data.fields) },
            doc: clone_strings(&self.doc),
        }
    }
}

/// Clones documentation lines; the result reads the same, line for
/// line.
fn clone_strings(v: &Vec<String>) -> (r: Vec<String>)
    ensures
        strings_view(r@) == strings_view(v@),
{
    let mut r: Vec<String> = Vec::new();
    let mut i: usize = 0;
    while i < v.len()
        invariant
            i <= v.len(),
            r@.len() == i,
            forall|k: int| 0 <= k < i ==> r@[k]@ == v@[k]@,
        decreases v.len() - i,
    {
        r.push(v[i].clone());
        i = i + 1;
    }
    proof {
        assert(strings_view(r@) =~= strings_view(v@));
    }
    r
}

/// Clones (namespace, key) tags; the result reads the same, pair for
/// pair.
fn clone_tags(v: &Vec<(String, String)>) -> (r: Vec<(String, String)>)
    ensures
        tags_view(r@) == tags_view(v@),
{
    let mut r: Vec<(String, String)> = Vec::new();
    let mut i: usize = 0;
    while i < v.len()
        invariant
            i <= v.len(),
            r@.len() == i,
            forall|k: int| 0 <= k < i ==> r@[k].0@ == v@[k].0@ && r@[k].1@ == v@[k].1@,
        decreases v.len() - i,
    {
        let ns = v[i].0.clone();
        let key = v[i].1.clone();
        r.push((ns, key));
        i = i + 1;
    }
    proof {
        assert(tags_view(r@) =~= tags_view(v@));
    }
    r
}

/// Clones a field list; the resulting views match element for
/// element.
fn clone_fields(v: &Vec<OwnedField>) -> (r: Vec<OwnedField>)
    ensures
        fields_view(r@) == fields_view(v@),
    decreases v@,
{
    let mut r: Vec<OwnedField> = Vec::new();
    let mut i: usize = 0;
    while i < v.len()
        invariant
            i <= v.len(),
            r@.len() == i,
            forall|k: int| 0 <= k < i ==> #[trigger] r@[k]@ == v@[k]@,
        decreases v.len() - i,
    {
        r.push(v[i].clone());
        i = i + 1;
    }
    proof {
        lemma_fields_view_len(r@);
        lemma_fields_view_len(v@);
        assert forall|k: int| 0 <= k < v@.len() implies fields_view(r@)[k] == fields_view(
            v@,
        )[k] by {
            assert(r@[k]@ == v@[k]@);
            lemma_fields_view_index(r@, k);
            lemma_fields_view_index(v@, k);
        }
        assert(fields_view(r@) =~= fields_view(v@));
    }
    r
}

/// Clones a variant list; the resulting views match element for
/// element.
fn clone_variants(v: &Vec<OwnedVariant>) -> (r: Vec<OwnedVariant>)
    ensures
        variants_view(r@) == variants_view(v@),
    decreases v@,
{
    let mut r: Vec<OwnedVariant> = Vec::new();
    let mut i: usize = 0;
    while i < v.len()
        invariant
            i <= v.len(),
            r@.len() == i,
            forall|k: int| 0 <= k < i ==> #[trigger] r@[k]@ == v@[k]@,
        decreases v.len() - i,
    {
        r.push(v[i].clone());
        i = i + 1;
    }
    proof {
        lemma_variants_view_len(r@);
        lemma_variants_view_len(v@);
        assert forall|k: int| 0 <= k < v@.len() implies variants_view(r@)[k] == variants_view(
            v@,
        )[k] by {
            assert(r@[k]@ == v@[k]@);
            lemma_variants_view_index(r@, k);
            lemma_variants_view_index(v@, k);
        }
        assert(variants_view(r@) =~= variants_view(v@));
    }
    r
}

} // verus!

verus! {

/// The payload classification of a view mirrors the payload
/// classification of the shape it was taken from.
pub proof fn lemma_ty_view_kind(t: OwnedType)
    ensures
        (ty_view(t) matches TyV::User(UserV::Struct(_))) <==> (t matches OwnedType::User(
            OwnedUserType::Struct(_),
        )),
        (ty_view(t) matches TyV::User(UserV::Enum(_))) <==> (t matches OwnedType::User(
            OwnedUserType::Enum(_),
        )),
        (ty_view(t) matches TyV::Sequence(_)) <==> (t matches OwnedType::Sequence(_)),
        (ty_view(t) matches TyV::Primitive(_)) <==> (t matches OwnedType::Primitive(_)),
        (ty_view(t) matches TyV::User(UserV::Union(_))) <==> (t matches OwnedType::User(
            OwnedUserType::Union(_),
        )),
        (ty_view(t) == TyV::User(UserV::Opaque)) <==> (t matches OwnedType::User(
            OwnedUserType::Opaque,
        )),
{
    match t {
        OwnedType::Primitive(p) => {
            assert(ty_view(t) is Primitive);
        },
        OwnedType::Sequence(sq) => {
            assert(ty_view(t) is Sequence);
        },
        OwnedType::User(u) => {
            match u {
                OwnedUserType::Struct(st) => {
                    assert(ty_view(t) == TyV::User(UserV::Struct(fields_view(st.fields@))));
                },
                OwnedUserType::Enum(e) => {
                    assert(ty_view(t) == TyV::User(UserV::Enum(variants_view(e.variants@))));
                },
                OwnedUserType::Union(un) => {
                    assert(ty_view(t) == TyV::User(UserV::Union(fields_view(un.fields@))));
                },
                OwnedUserType::Opaque => {
                    assert(ty_view(t) == TyV::User(UserV::Opaque));
                },
            }
        },
    }
}

} // verus!

verus! {

/// The primitive kind of a view mirrors the primitive kind it was
/// taken from.
pub proof fn lemma_prim_view_kind(p: OwnedPrimitiveType)
    ensures
        (prim_view(p) is Boolean) <==> (p is Boolean),
        (prim_view(p) is Numeric) <==> (p is Numeric),
        (prim_view(p) is Textual) <==> (p is Textual),
        (prim_view(p) is Never) <==> (p is Never),
{
    match p {
        OwnedPrimitiveType::Boolean => {},
        OwnedPrimitiveType::Numeric(n) => {},
        OwnedPrimitiveType::Textual(t) => {},
        OwnedPrimitiveType::Never => {},
    }
}

} // verus!
