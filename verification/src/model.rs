//! The plain syntax model the generator works on, together with the ghost
//! views that the contracts speak about.
//!
//! A struct definition is a name, a shape, an ordered field list and a list of
//! annotations.  An annotation carries its argument list as a flat token
//! sequence; [`crate::args`] parses that sequence into structured items.

use vstd::prelude::*;

verus! {

broadcast use vstd::string::group_string_axioms;

/// The closed set of group names the two annotation languages recognize.
///
/// Field distribution uses `Scheme`, `Dto` and `Entity`; derive configuration
/// additionally uses `All`, whose traits apply to every variant.
#[derive(Clone, Copy, PartialEq, Eq, Structural, Debug)]
pub enum GroupKey {
    All,
    Scheme,
    Dto,
    Entity,
}

/// The shape of the annotated item.  Only a struct with named fields is
/// accepted by the generator.
#[derive(Clone, Copy, PartialEq, Eq, Structural, Debug)]
pub enum StructShape {
    Named,
    Tuple,
    Unit,
    Enumeration,
    Union,
}

/// One token of an annotation's argument list.  `Other` stands for any token
/// outside the argument grammar (a literal, an operator, a nested group);
/// its presence makes the argument list malformed.
#[derive(Debug, PartialEq, Eq)]
pub enum ArgToken {
    Ident(String),
    Comma,
    LParen,
    RParen,
    Other,
}

/// Ghost mirror of [`ArgToken`] over character sequences.
pub enum TokenView {
    Ident(Seq<char>),
    Comma,
    LParen,
    RParen,
    Other,
}

/// One parsed item of an annotation's argument list: either a simple
/// identifier or a grouped form `name(ident, ident, ...)`.
#[derive(Debug, PartialEq, Eq)]
pub enum MetaArg {
    Path(String),
    Group(String, Vec<String>),
}

/// Ghost mirror of [`MetaArg`].
pub enum MetaArgView {
    Path(Seq<char>),
    Group(Seq<char>, Seq<Seq<char>>),
}

/// An annotation: a name and the raw tokens of its argument list.
#[derive(Debug, PartialEq, Eq)]
pub struct Annotation {
    pub name: String,
    pub args: Vec<ArgToken>,
}

/// Ghost mirror of [`Annotation`].
#[verifier::ext_equal]
pub struct AnnotationView {
    pub name: Seq<char>,
    pub args: Seq<TokenView>,
}

/// A struct field: a name, an opaque type descriptor passed through
/// unchanged, and the field's annotations.
#[derive(Debug, PartialEq, Eq)]
pub struct Field {
    pub name: String,
    pub ty: String,
    pub attrs: Vec<Annotation>,
}

/// Ghost mirror of [`Field`].
#[verifier::ext_equal]
pub struct FieldView {
    pub name: Seq<char>,
    pub ty: Seq<char>,
    pub attrs: Seq<AnnotationView>,
}

/// The input struct definition.
#[derive(Debug, PartialEq, Eq)]
pub struct StructDef {
    pub name: String,
    pub shape: StructShape,
    pub fields: Vec<Field>,
    pub attrs: Vec<Annotation>,
}

/// Ghost mirror of [`StructDef`].
#[verifier::ext_equal]
pub struct StructDefView {
    pub name: Seq<char>,
    pub shape: StructShape,
    pub fields: Seq<FieldView>,
    pub attrs: Seq<AnnotationView>,
}

/// One generated variant: its name, its field list and the derive requests to
/// attach to it.
#[derive(Debug, PartialEq, Eq)]
pub struct GeneratedStruct {
    pub name: String,
    pub fields: Vec<Field>,
    pub derives: Vec<String>,
}

/// Ghost mirror of [`GeneratedStruct`].
#[verifier::ext_equal]
pub struct GeneratedStructView {
    pub name: Seq<char>,
    pub fields: Seq<FieldView>,
    pub derives: Seq<Seq<char>>,
}

/// Where a diagnostic points: the struct's name, or the derive-configuration
/// annotation.
#[derive(Clone, Copy, PartialEq, Eq, Structural, Debug)]
pub enum ErrorLocus {
    StructName,
    DeriveAnnotation,
}

/// A fatal diagnostic.  Generation either returns all three variants or one
/// of these; no partial output exists.
#[derive(Debug, PartialEq, Eq)]
pub struct GenError {
    pub message: String,
    pub locus: ErrorLocus,
}

/// Ghost mirror of [`GenError`].
#[verifier::ext_equal]
pub struct GenErrorView {
    pub message: Seq<char>,
    pub locus: ErrorLocus,
}

pub open spec fn tok_view(t: ArgToken) -> TokenView {
    match t {
        ArgToken::Ident(s) => TokenView::Ident(s@),
        ArgToken::Comma => TokenView::Comma,
        ArgToken::LParen => TokenView::LParen,
        ArgToken::RParen => TokenView::RParen,
        ArgToken::Other => TokenView::Other,
    }
}

pub open spec fn toks_view(s: Seq<ArgToken>) -> Seq<TokenView> {
    s.map_values(|t: ArgToken| tok_view(t))
}

pub open spec fn strs_view(s: Seq<String>) -> Seq<Seq<char>> {
    s.map_values(|x: String| x@)
}

pub open spec fn arg_view(a: MetaArg) -> MetaArgView {
    match a {
        MetaArg::Path(n) => MetaArgView::Path(n@),
        MetaArg::Group(n, ts) => MetaArgView::Group(n@, strs_view(ts@)),
    }
}

pub open spec fn args_view(s: Seq<MetaArg>) -> Seq<MetaArgView> {
    s.map_values(|a: MetaArg| arg_view(a))
}

pub open spec fn ann_view(a: Annotation) -> AnnotationView {
    AnnotationView { name: a.name@, args: toks_view(a.args@) }
}

pub open spec fn anns_view(s: Seq<Annotation>) -> Seq<AnnotationView> {
    s.map_values(|a: Annotation| ann_view(a))
}

pub open spec fn field_view(f: Field) -> FieldView {
    FieldView { name: f.name@, ty: f.ty@, attrs: anns_view(f.attrs@) }
}

pub open spec fn fields_view(s: Seq<Field>) -> Seq<FieldView> {
    s.map_values(|f: Field| field_view(f))
}

pub open spec fn sdef_view(s: StructDef) -> StructDefView {
    StructDefView {
        name: s.name@,
        shape: s.shape,
        fields: fields_view(s.fields@),
        attrs: anns_view(s.attrs@),
    }
}

pub open spec fn gen_view(g: GeneratedStruct) -> GeneratedStructView {
    GeneratedStructView {
        name: g.name@,
        fields: fields_view(g.fields@),
        derives: strs_view(g.derives@),
    }
}

pub open spec fn err_view(e: GenError) -> GenErrorView {
    GenErrorView { message: e.message@, locus: e.locus }
}

/// The name of the per-field distribution annotation.
pub open spec fn dist_attr_name() -> Seq<char> {
    "onion_dist"@
}

/// The name of the struct-level derive-configuration annotation.
pub open spec fn derive_attr_name() -> Seq<char> {
    "onion_derive"@
}

/// The spelling of a group key inside an annotation.
pub open spec fn group_name(g: GroupKey) -> Seq<char> {
    match g {
        GroupKey::All => "all"@,
        GroupKey::Scheme => "scheme"@,
        GroupKey::Dto => "dto"@,
        GroupKey::Entity => "entity"@,
    }
}

/// The suffix appended to the input struct's name for a variant.
pub open spec fn variant_suffix(g: GroupKey) -> Seq<char> {
    match g {
        GroupKey::All => Seq::empty(),
        GroupKey::Scheme => "Scheme"@,
        GroupKey::Dto => "Dto"@,
        GroupKey::Entity => "Entity"@,
    }
}

/// The spellings of the group keys and of the `none` sentinel are pairwise
/// distinct.
pub proof fn lemma_group_names_distinct()
    ensures
        "all"@ != "scheme"@,
        "all"@ != "dto"@,
        "all"@ != "entity"@,
        "all"@ != "none"@,
        "scheme"@ != "dto"@,
        "scheme"@ != "entity"@,
        "scheme"@ != "none"@,
        "dto"@ != "entity"@,
        "dto"@ != "none"@,
        "entity"@ != "none"@,
{
    reveal_strlit("all");
    reveal_strlit("scheme");
    reveal_strlit("dto");
    reveal_strlit("entity");
    reveal_strlit("none");
    assert("all"@.len() == 3);
    assert("scheme"@.len() == 6);
    assert("dto"@.len() == 3);
    assert("entity"@.len() == 6);
    assert("none"@.len() == 4);
    assert("all"@[0] == 'a');
    assert("dto"@[0] == 'd');
    assert("scheme"@[0] == 's');
    assert("entity"@[0] == 'e');
}

pub proof fn lemma_toks_view_push(s: Seq<ArgToken>, x: ArgToken)
    ensures
        toks_view(s.push(x)) == toks_view(s).push(tok_view(x)),
{
    assert(toks_view(s.push(x)) =~= toks_view(s).push(tok_view(x)));
}

pub proof fn lemma_anns_view_push(s: Seq<Annotation>, x: Annotation)
    ensures
        anns_view(s.push(x)) == anns_view(s).push(ann_view(x)),
{
    assert(anns_view(s.push(x)) =~= anns_view(s).push(ann_view(x)));
}

pub proof fn lemma_fields_view_push(s: Seq<Field>, x: Field)
    ensures
        fields_view(s.push(x)) == fields_view(s).push(field_view(x)),
{
    assert(fields_view(s.push(x)) =~= fields_view(s).push(field_view(x)));
}

/// A copy of an argument token with the same view.
pub fn clone_token(t: &ArgToken) -> (r: ArgToken)
    ensures
        tok_view(r) == tok_view(*t),
{
    match t {
        ArgToken::Ident(s) => ArgToken::Ident(s.clone()),
        ArgToken::Comma => ArgToken::Comma,
        ArgToken::LParen => ArgToken::LParen,
        ArgToken::RParen => ArgToken::RParen,
        ArgToken::Other => ArgToken::Other,
    }
}

/// A copy of an annotation with the same view.
pub fn clone_annotation(a: &Annotation) -> (r: Annotation)
    ensures
        ann_view(r) == ann_view(*a),
{
    let mut toks: Vec<ArgToken> = Vec::new();
    let mut i: usize = 0;
    while i < a.args.len()
        invariant
            i <= a.args@.len(),
            toks_view(toks@) == toks_view(a.args@.take(i as int)),
        decreases a.args@.len() - i,
    {
        let ghost t0 = toks@;
        toks.push(clone_token(&a.args[i]));
        proof {
            lemma_toks_view_push(t0, toks@.last());
            assert(a.args@.take(i + 1 as int) =~= a.args@.take(i as int).push(a.args@[i as int]));
            lemma_toks_view_push(a.args@.take(i as int), a.args@[i as int]);
        }
        i = i + 1;
    }
    proof {
        assert(a.args@.take(a.args@.len() as int) =~= a.args@);
    }
    let r = Annotation { name: a.name.clone(), args: toks };
    proof {
        assert(ann_view(r) =~= ann_view(*a));
    }
    r
}

/// A copy of a field with the same view.
pub fn clone_field(f: &Field) -> (r: Field)
    ensures
        field_view(r) == field_view(*f),
{
    let mut attrs: Vec<Annotation> = Vec::new();
    let mut i: usize = 0;
    while i < f.attrs.len()
        invariant
            i <= f.attrs@.len(),
            anns_view(attrs@) == anns_view(f.attrs@.take(i as int)),
        decreases f.attrs@.len() - i,
    {
        let ghost a0 = attrs@;
        attrs.push(clone_annotation(&f.attrs[i]));
        proof {
            lemma_anns_view_push(a0, attrs@.last());
            assert(f.attrs@.take(i + 1 as int) =~= f.attrs@.take(i as int).push(
                f.attrs@[i as int],
            ));
            lemma_anns_view_push(f.attrs@.take(i as int), f.attrs@[i as int]);
        }
        i = i + 1;
    }
    proof {
        assert(f.attrs@.take(f.attrs@.len() as int) =~= f.attrs@);
    }
    let r = Field { name: f.name.clone(), ty: f.ty.clone(), attrs };
    proof {
        assert(field_view(r) =~= field_view(*f));
    }
    r
}

/// A copy of a field list with the same view.
pub fn clone_fields(v: &Vec<Field>) -> (r: Vec<Field>)
    ensures
        fields_view(r@) == fields_view(v@),
{
    let mut r: Vec<Field> = Vec::new();
    let mut i: usize = 0;
    while i < v.len()
        invariant
            i <= v@.len(),
            fields_view(r@) == fields_view(v@.take(i as int)),
        decreases v@.len() - i,
    {
        let ghost r0 = r@;
        r.push(clone_field(&v[i]));
        proof {
            lemma_fields_view_push(r0, r@.last());
            assert(v@.take(i + 1 as int) =~= v@.take(i as int).push(v@[i as int]));
            lemma_fields_view_push(v@.take(i as int), v@[i as int]);
        }
        i = i + 1;
    }
    proof {
        assert(v@.take(v@.len() as int) =~= v@);
    }
    r
}

} // verus!
