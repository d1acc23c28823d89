//! The generator itself: attribute lookup, field distribution, derive
//! configuration and the orchestrator that assembles the three variants.

use vstd::prelude::*;
use vstd::string::StringExecFns;
use crate::args::{parse_meta_args, parse_meta_args_spec};
use crate::model::{ann_view, anns_view, arg_view, args_view, derive_attr_name, dist_attr_name,
    err_view, field_view, fields_view, gen_view, group_name, lemma_anns_view_push,
    lemma_fields_view_push, lemma_group_names_distinct, sdef_view, strs_view, variant_suffix, Annotation, AnnotationView,
    ErrorLocus, Field, FieldView, GenError, GenErrorView, GeneratedStruct, GeneratedStructView,
    GroupKey, MetaArg, MetaArgView, StructDef, StructDefView, StructShape, clone_annotation,
    clone_field, clone_fields};
use crate::utils::{acc_get, append_cloned, first_entry, first_entry_from, lookup_traits, str_eq,
    unpack_derives};

verus! {

broadcast use vstd::string::group_string_axioms;

/// The first annotation at or after index `i` whose name is `name`.
pub open spec fn find_attr_from(attrs: Seq<AnnotationView>, name: Seq<char>, i: int) -> Option<
    AnnotationView,
>
    decreases attrs.len() - i,
{
    if i < 0 || i >= attrs.len() {
        None
    } else if attrs[i].name == name {
        Some(attrs[i])
    } else {
        find_attr_from(attrs, name, i + 1)
    }
}

/// The first annotation named `name`, or `None`; later annotations with the
/// same name are ignored.
pub open spec fn find_attr(attrs: Seq<AnnotationView>, name: Seq<char>) -> Option<AnnotationView> {
    find_attr_from(attrs, name, 0)
}

/// The head identifier of an argument item.
pub open spec fn head_name(a: MetaArgView) -> Seq<char> {
    match a {
        MetaArgView::Path(n) => n,
        MetaArgView::Group(n, _) => n,
    }
}

/// Whether a distribution argument list carries the `none` sentinel, which
/// excludes the field from every variant.
pub open spec fn has_none(items: Seq<MetaArgView>) -> bool {
    exists|i: int| 0 <= i < items.len() && head_name(#[trigger] items[i]) == "none"@
}

/// The field's annotations with every distribution annotation removed.
pub open spec fn strip_attrs(attrs: Seq<AnnotationView>) -> Seq<AnnotationView> {
    attrs.filter(|a: AnnotationView| a.name != dist_attr_name())
}

/// The field as it appears in a variant it was explicitly distributed to:
/// unchanged but for the stripped distribution annotations.
pub open spec fn strip_field(f: FieldView) -> FieldView {
    FieldView { name: f.name, ty: f.ty, attrs: strip_attrs(f.attrs) }
}

/// The copies of `f` that its parsed distribution arguments put into group
/// `g`: one stripped copy per argument that names `g`; arguments naming no
/// known group contribute nothing.
pub open spec fn dist_contrib_args(items: Seq<MetaArgView>, g: GroupKey, f: FieldView) -> Seq<
    FieldView,
>
    decreases items.len(),
{
    if items.len() == 0 {
        Seq::empty()
    } else {
        dist_contrib_args(items.drop_last(), g, f) + (
        if items.last() matches MetaArgView::Path(n) && n == group_name(g) {
            seq![strip_field(f)]
        } else {
            Seq::empty()
        })
    }
}

/// What one field contributes to group `g`: itself when it carries no
/// distribution annotation; nothing when the annotation is malformed or
/// carries `none`; otherwise one stripped copy per argument naming `g`.
pub open spec fn field_contribution(f: FieldView, g: GroupKey) -> Seq<FieldView> {
    match find_attr(f.attrs, dist_attr_name()) {
        None => seq![f],
        Some(a) => match parse_meta_args_spec(a.args) {
            None => Seq::empty(),
            Some(items) => if has_none(items) {
                Seq::empty()
            } else {
                dist_contrib_args(items, g, f)
            },
        },
    }
}

/// The field list of variant `g`: each field's contribution, in field order.
pub open spec fn dist_fields(fs: Seq<FieldView>, g: GroupKey) -> Seq<FieldView>
    decreases fs.len(),
{
    if fs.len() == 0 {
        Seq::empty()
    } else {
        dist_fields(fs.drop_last(), g) + field_contribution(fs.last(), g)
    }
}

/// The parsed derive configuration: one trait list per group.
#[verifier::ext_equal]
pub struct DeriveMapView {
    pub all: Seq<Seq<char>>,
    pub scheme: Seq<Seq<char>>,
    pub dto: Seq<Seq<char>>,
    pub entity: Seq<Seq<char>>,
}

pub open spec fn empty_derive_map() -> DeriveMapView {
    DeriveMapView { all: Seq::empty(), scheme: Seq::empty(), dto: Seq::empty(), entity: Seq::empty() }
}

/// The list a derive map holds for group `g`.
pub open spec fn group_list(m: DeriveMapView, g: GroupKey) -> Seq<Seq<char>> {
    match g {
        GroupKey::All => m.all,
        GroupKey::Scheme => m.scheme,
        GroupKey::Dto => m.dto,
        GroupKey::Entity => m.entity,
    }
}

/// The derive map with `ts` appended to group `g`.
pub open spec fn add_traits(m: DeriveMapView, g: GroupKey, ts: Seq<Seq<char>>) -> DeriveMapView {
    match g {
        GroupKey::All => DeriveMapView { all: m.all + ts, ..m },
        GroupKey::Scheme => DeriveMapView { scheme: m.scheme + ts, ..m },
        GroupKey::Dto => DeriveMapView { dto: m.dto + ts, ..m },
        GroupKey::Entity => DeriveMapView { entity: m.entity + ts, ..m },
    }
}

/// The group a derive-configuration key names, `all` included.
pub open spec fn derive_group_of(n: Seq<char>) -> Option<GroupKey> {
    if n == group_name(GroupKey::All) {
        Some(GroupKey::All)
    } else if n == group_name(GroupKey::Scheme) {
        Some(GroupKey::Scheme)
    } else if n == group_name(GroupKey::Dto) {
        Some(GroupKey::Dto)
    } else if n == group_name(GroupKey::Entity) {
        Some(GroupKey::Entity)
    } else {
        None
    }
}

/// The diagnostic for an unknown derive group name.
pub open spec fn unknown_field_message(n: Seq<char>) -> Seq<char> {
    "Unknown field: "@ + n
}

pub open spec fn unknown_group_error(n: Seq<char>) -> GenErrorView {
    GenErrorView { message: unknown_field_message(n), locus: ErrorLocus::DeriveAnnotation }
}

/// The diagnostic for a derive-configuration argument list that does not
/// parse at all.
pub open spec fn malformed_derive_error() -> GenErrorView {
    GenErrorView {
        message: "malformed onion_derive arguments"@,
        locus: ErrorLocus::DeriveAnnotation,
    }
}

/// The diagnostic for an input that is not a struct with named fields.
pub open spec fn shape_error() -> GenErrorView {
    GenErrorView { message: "`OnionPack` works only with structs."@, locus: ErrorLocus::StructName }
}

/// Folds the parsed derive-configuration items into a derive map, stopping
/// fatally at the first grouped item whose key is unknown; bare identifiers
/// are ignored; repeated groups accumulate in order.
pub open spec fn derive_fold(items: Seq<MetaArgView>) -> Result<DeriveMapView, GenErrorView>
    decreases items.len(),
{
    if items.len() == 0 {
        Ok(empty_derive_map())
    } else {
        match derive_fold(items.drop_last()) {
            Err(e) => Err(e),
            Ok(m) => match items.last() {
                MetaArgView::Path(_) => Ok(m),
                MetaArgView::Group(n, ts) => match derive_group_of(n) {
                    Some(g) => Ok(add_traits(m, g, ts)),
                    None => Err(unknown_group_error(n)),
                },
            },
        }
    }
}

/// What the struct's annotations say about derives: the empty map when no
/// derive-configuration annotation is present, an error when its arguments
/// are malformed or name an unknown group, the folded map otherwise.
pub open spec fn parse_derive_spec(attrs: Seq<AnnotationView>) -> Result<
    DeriveMapView,
    GenErrorView,
> {
    match find_attr(attrs, derive_attr_name()) {
        None => Ok(empty_derive_map()),
        Some(a) => match parse_meta_args_spec(a.args) {
            None => Err(malformed_derive_error()),
            Some(items) => derive_fold(items),
        },
    }
}

/// The variant for group `g`: suffixed name, distributed fields, and the
/// `all` traits followed by the group's own traits.
pub open spec fn make_variant(s: StructDefView, g: GroupKey, m: DeriveMapView) -> GeneratedStructView {
    GeneratedStructView {
        name: s.name + variant_suffix(g),
        fields: dist_fields(s.fields, g),
        derives: m.all + group_list(m, g),
    }
}

/// The whole generation: either the three variant descriptors or a single
/// fatal diagnostic; no partial output exists.
pub open spec fn onionpack_spec(s: StructDefView) -> Result<
    (GeneratedStructView, GeneratedStructView, GeneratedStructView),
    GenErrorView,
> {
    if s.shape != StructShape::Named {
        Err(shape_error())
    } else {
        match parse_derive_spec(s.attrs) {
            Err(e) => Err(e),
            Ok(m) => Ok(
                (
                    make_variant(s, GroupKey::Scheme, m),
                    make_variant(s, GroupKey::Dto, m),
                    make_variant(s, GroupKey::Entity, m),
                ),
            ),
        }
    }
}

/// Once the fold has failed on a prefix, the whole fold fails the same way.
pub proof fn lemma_derive_fold_err_persists(items: Seq<MetaArgView>, k: int)
    requires
        0 <= k <= items.len(),
        derive_fold(items.take(k)) is Err,
    ensures
        derive_fold(items) == derive_fold(items.take(k)),
    decreases items.len() - k,
{
    if k == items.len() {
        assert(items.take(k) =~= items);
    } else {
        assert(items.take(k + 1).drop_last() =~= items.take(k));
        lemma_derive_fold_err_persists(items, k + 1);
    }
}

/// Returns the first annotation named `name`, if any.
pub fn find_attribute<'a>(name: &str, attrs: &'a Vec<Annotation>) -> (r: Option<&'a Annotation>)
    ensures
        match r {
            Some(a) => find_attr(anns_view(attrs@), name@) == Some(ann_view(*a)),
            None => find_attr(anns_view(attrs@), name@) is None,
        },
{
    let mut i: usize = 0;
    while i < attrs.len()
        invariant
            i <= attrs@.len(),
            find_attr(anns_view(attrs@), name@) == find_attr_from(
                anns_view(attrs@),
                name@,
                i as int,
            ),
        decreases attrs@.len() - i,
    {
        proof {
            assert(anns_view(attrs@)[i as int] == ann_view(attrs@[i as int]));
        }
        if str_eq(attrs[i].name.as_str(), name) {
            return Some(&attrs[i]);
        }
        i = i + 1;
    }
    None
}

/// A fresh diagnostic with the given location and message.
pub fn generate_error(locus: ErrorLocus, message: &str) -> (e: GenError)
    ensures
        err_view(e) == (GenErrorView { message: message@, locus }),
{
    GenError { message: String::from_str(message), locus }
}

/// Whether any argument item's head identifier is the `none` sentinel.
pub fn args_contain_none(items: &Vec<MetaArg>) -> (r: bool)
    ensures
        r == has_none(args_view(items@)),
{
    let mut i: usize = 0;
    while i < items.len()
        invariant
            i <= items@.len(),
            forall|j: int| 0 <= j < i ==> head_name(#[trigger] args_view(items@)[j]) != "none"@,
        decreases items@.len() - i,
    {
        proof {
            assert(args_view(items@)[i as int] == arg_view(items@[i as int]));
        }
        let nm: &String = match &items[i] {
            MetaArg::Path(n) => n,
            MetaArg::Group(n, _) => n,
        };
        if str_eq(nm.as_str(), "none") {
            proof {
                assert(head_name(args_view(items@)[i as int]) == "none"@);
            }
            return true;
        }
        i = i + 1;
    }
    proof {
        assert(forall|j: int|
            0 <= j < args_view(items@).len() ==> head_name(#[trigger] args_view(items@)[j])
                != "none"@);
    }
    false
}

/// A stripped copy of `f`: same name and type, the distribution annotations
/// removed.
pub fn strip_dist(f: &Field) -> (r: Field)
    ensures
        field_view(r) == strip_field(field_view(*f)),
{
    let ghost av = anns_view(f.attrs@);
    let mut kept: Vec<Annotation> = Vec::new();
    let mut i: usize = 0;
    while i < f.attrs.len()
        invariant
            i <= f.attrs@.len(),
            av == anns_view(f.attrs@),
            anns_view(kept@) == strip_attrs(av.take(i as int)),
        decreases f.attrs@.len() - i,
    {
        proof {
            reveal(Seq::filter);
            assert(av.take(i + 1 as int).drop_last() =~= av.take(i as int));
            assert(av.take(i + 1 as int).last() == ann_view(f.attrs@[i as int]));
        }
        let a = &f.attrs[i];
        if !str_eq(a.name.as_str(), "onion_dist") {
            let ghost k0 = kept@;
            kept.push(clone_annotation(a));
            proof {
                reveal(Seq::filter);
                lemma_anns_view_push(k0, kept@.last());
                assert(anns_view(kept@) =~= strip_attrs(av.take(i + 1 as int)));
            }
        } else {
            proof {
                reveal(Seq::filter);
                assert(anns_view(kept@) =~= strip_attrs(av.take(i + 1 as int)));
            }
        }
        i = i + 1;
    }
    proof {
        assert(av.take(f.attrs@.len() as int) =~= av);
    }
    let r = Field { name: f.name.clone(), ty: f.ty.clone(), attrs: kept };
    proof {
        assert(field_view(r) =~= strip_field(field_view(*f)));
    }
    r
}

/// One argument step of the distribution: the argument at `j` extends group
/// `g`'s contribution by one stripped copy of the field when it is a bare
/// identifier naming `g`, and leaves it unchanged otherwise.
proof fn lemma_contrib_step(items: Seq<MetaArgView>, j: int, g: GroupKey, f: FieldView)
    requires
        0 <= j < items.len(),
    ensures
        dist_contrib_args(items.take(j + 1), g, f) == if items[j] matches MetaArgView::Path(n) && n
            == group_name(g) {
            dist_contrib_args(items.take(j), g, f) + seq![strip_field(f)]
        } else {
            dist_contrib_args(items.take(j), g, f)
        },
{
    assert(items.take(j + 1).drop_last() =~= items.take(j));
    assert(items.take(j + 1).last() == items[j]);
    if !(items[j] matches MetaArgView::Path(n) && n == group_name(g)) {
        assert(dist_contrib_args(items.take(j + 1), g, f) =~= dist_contrib_args(
            items.take(j),
            g,
            f,
        ));
    }
}

/// Distributes the fields over the three variants, in field order: an
/// unannotated field goes to all three as it is; an annotated one goes, with
/// the annotation stripped, once per argument naming a variant; a malformed
/// or `none`-carrying annotation keeps the field out of every variant.
pub fn unpack_fields(fields: &Vec<Field>) -> (acc: Vec<(GroupKey, Vec<Field>)>)
    ensures
        acc@.len() == 3,
        acc@[0].0 == GroupKey::Scheme,
        acc@[1].0 == GroupKey::Dto,
        acc@[2].0 == GroupKey::Entity,
        fields_view(acc@[0].1@) == dist_fields(fields_view(fields@), GroupKey::Scheme),
        fields_view(acc@[1].1@) == dist_fields(fields_view(fields@), GroupKey::Dto),
        fields_view(acc@[2].1@) == dist_fields(fields_view(fields@), GroupKey::Entity),
{
    let ghost fsv = fields_view(fields@);
    let mut scheme: Vec<Field> = Vec::new();
    let mut dto: Vec<Field> = Vec::new();
    let mut entity: Vec<Field> = Vec::new();
    let mut i: usize = 0;
    while i < fields.len()
        invariant
            i <= fields@.len(),
            fsv == fields_view(fields@),
            fields_view(scheme@) == dist_fields(fsv.take(i as int), GroupKey::Scheme),
            fields_view(dto@) == dist_fields(fsv.take(i as int), GroupKey::Dto),
            fields_view(entity@) == dist_fields(fsv.take(i as int), GroupKey::Entity),
        decreases fields@.len() - i,
    {
        proof {
            assert(fsv.take(i + 1 as int).drop_last() =~= fsv.take(i as int));
            assert(fsv.take(i + 1 as int).last() == field_view(fields@[i as int]));
        }
        let field = &fields[i];
        let ghost fv = field_view(fields@[i as int]);
        match find_attribute("onion_dist", &field.attrs) {
            None => {
                let ghost s0 = scheme@;
                let ghost d0 = dto@;
                let ghost e0 = entity@;
                scheme.push(clone_field(field));
                dto.push(clone_field(field));
                entity.push(clone_field(field));
                proof {
                    lemma_fields_view_push(s0, scheme@.last());
                    lemma_fields_view_push(d0, dto@.last());
                    lemma_fields_view_push(e0, entity@.last());
                    assert(field_contribution(fv, GroupKey::Scheme) == seq![fv]);
                    assert(fields_view(scheme@) =~= dist_fields(
                        fsv.take(i + 1 as int),
                        GroupKey::Scheme,
                    ));
                    assert(fields_view(dto@) =~= dist_fields(fsv.take(i + 1 as int), GroupKey::Dto));
                    assert(fields_view(entity@) =~= dist_fields(
                        fsv.take(i + 1 as int),
                        GroupKey::Entity,
                    ));
                }
            },
            Some(attr) => {
                match parse_meta_args(&attr.args) {
                    None => {
                        proof {
                            assert(field_contribution(fv, GroupKey::Scheme) =~= Seq::<
                                FieldView,
                            >::empty());
                            assert(fields_view(scheme@) =~= dist_fields(
                                fsv.take(i + 1 as int),
                                GroupKey::Scheme,
                            ));
                            assert(fields_view(dto@) =~= dist_fields(
                                fsv.take(i + 1 as int),
                                GroupKey::Dto,
                            ));
                            assert(fields_view(entity@) =~= dist_fields(
                                fsv.take(i + 1 as int),
                                GroupKey::Entity,
                            ));
                        }
                    },
                    Some(items) => {
                        if args_contain_none(&items) {
                            proof {
                                assert(field_contribution(fv, GroupKey::Scheme) =~= Seq::<
                                    FieldView,
                                >::empty());
                                assert(fields_view(scheme@) =~= dist_fields(
                                    fsv.take(i + 1 as int),
                                    GroupKey::Scheme,
                                ));
                                assert(fields_view(dto@) =~= dist_fields(
                                    fsv.take(i + 1 as int),
                                    GroupKey::Dto,
                                ));
                                assert(fields_view(entity@) =~= dist_fields(
                                    fsv.take(i + 1 as int),
                                    GroupKey::Entity,
                                ));
                            }
                        } else {
                            let ghost itemsv = args_view(items@);
                            proof {
                                assert(itemsv.take(0int) =~= Seq::<MetaArgView>::empty());
                                assert(fields_view(scheme@) =~= dist_fields(
                                    fsv.take(i as int),
                                    GroupKey::Scheme,
                                ) + dist_contrib_args(itemsv.take(0int), GroupKey::Scheme, fv));
                                assert(fields_view(dto@) =~= dist_fields(
                                    fsv.take(i as int),
                                    GroupKey::Dto,
                                ) + dist_contrib_args(itemsv.take(0int), GroupKey::Dto, fv));
                                assert(fields_view(entity@) =~= dist_fields(
                                    fsv.take(i as int),
                                    GroupKey::Entity,
                                ) + dist_contrib_args(itemsv.take(0int), GroupKey::Entity, fv));
                            }
                            let mut j: usize = 0;
                            while j < items.len()
                                invariant
                                    j <= items@.len(),
                                    itemsv == args_view(items@),
                                    fields_view(scheme@) == dist_fields(
                                        fsv.take(i as int),
                                        GroupKey::Scheme,
                                    ) + dist_contrib_args(
                                        itemsv.take(j as int),
                                        GroupKey::Scheme,
                                        fv,
                                    ),
                                    fields_view(dto@) == dist_fields(
                                        fsv.take(i as int),
                                        GroupKey::Dto,
                                    ) + dist_contrib_args(
                                        itemsv.take(j as int),
                                        GroupKey::Dto,
                                        fv,
                                    ),
                                    fields_view(entity@) == dist_fields(
                                        fsv.take(i as int),
                                        GroupKey::Entity,
                                    ) + dist_contrib_args(
                                        itemsv.take(j as int),
                                        GroupKey::Entity,
                                        fv,
                                    ),
                                    i < fields@.len(),
                                    fsv == fields_view(fields@),
                                    fv == field_view(fields@[i as int]),
                                    fv == field_view(*field),
                                decreases items@.len() - j,
                            {
                                proof {
                                    assert(itemsv.take(j + 1 as int).last() == arg_view(
                                        items@[j as int],
                                    ));
                                }
                                proof {
                                    lemma_contrib_step(itemsv, j as int, GroupKey::Scheme, fv);
                                    lemma_contrib_step(itemsv, j as int, GroupKey::Dto, fv);
                                    lemma_contrib_step(itemsv, j as int, GroupKey::Entity, fv);
                                    lemma_group_names_distinct();
                                }
                                match &items[j] {
                                    MetaArg::Path(nm) => {
                                        let ghost s0 = scheme@;
                                        let ghost d0 = dto@;
                                        let ghost e0 = entity@;
                                        if str_eq(nm.as_str(), "scheme") {
                                            scheme.push(strip_dist(field));
                                            proof {
                                                lemma_fields_view_push(s0, scheme@.last());
                                                assert(fields_view(scheme@) =~= dist_fields(
                                                    fsv.take(i as int),
                                                    GroupKey::Scheme,
                                                ) + dist_contrib_args(
                                                    itemsv.take(j + 1 as int),
                                                    GroupKey::Scheme,
                                                    fv,
                                                ));
                                            }
                                        } else if str_eq(nm.as_str(), "dto") {
                                            dto.push(strip_dist(field));
                                            proof {
                                                lemma_fields_view_push(d0, dto@.last());
                                                assert(fields_view(dto@) =~= dist_fields(
                                                    fsv.take(i as int),
                                                    GroupKey::Dto,
                                                ) + dist_contrib_args(
                                                    itemsv.take(j + 1 as int),
                                                    GroupKey::Dto,
                                                    fv,
                                                ));
                                            }
                                        } else if str_eq(nm.as_str(), "entity") {
                                            entity.push(strip_dist(field));
                                            proof {
                                                lemma_fields_view_push(e0, entity@.last());
                                                assert(fields_view(entity@) =~= dist_fields(
                                                    fsv.take(i as int),
                                                    GroupKey::Entity,
                                                ) + dist_contrib_args(
                                                    itemsv.take(j + 1 as int),
                                                    GroupKey::Entity,
                                                    fv,
                                                ));
                                            }
                                        }
                                    },
                                    MetaArg::Group(_, _) => {},
                                }
                                j = j + 1;
                            }
                            proof {
                                assert(itemsv.take(items@.len() as int) =~= itemsv);
                                assert(field_contribution(fv, GroupKey::Scheme)
                                    == dist_contrib_args(itemsv, GroupKey::Scheme, fv));
                                assert(field_contribution(fv, GroupKey::Dto) == dist_contrib_args(
                                    itemsv,
                                    GroupKey::Dto,
                                    fv,
                                ));
                                assert(field_contribution(fv, GroupKey::Entity)
                                    == dist_contrib_args(itemsv, GroupKey::Entity, fv));
                            }
                        }
                    },
                }
            },
        }
        i = i + 1;
    }
    proof {
        assert(fsv.take(fields@.len() as int) =~= fsv);
    }
    let mut acc: Vec<(GroupKey, Vec<Field>)> = Vec::new();
    acc.push((GroupKey::Scheme, scheme));
    acc.push((GroupKey::Dto, dto));
    acc.push((GroupKey::Entity, entity));
    acc
}

/// Parses the struct's derive-configuration annotation into an accumulator
/// with the four groups in fixed order, or fails fatally on malformed
/// arguments or an unknown group name.
pub fn parse_onion_derive(input: &StructDef) -> (r: Result<
    Vec<(GroupKey, Vec<String>)>,
    GenError,
>)
    ensures
        match r {
            Ok(acc) => parse_derive_spec(anns_view(input.attrs@)) matches Ok(m) && acc@.len() == 4
                && acc@[0].0 == GroupKey::All && strs_view(acc@[0].1@) == m.all && acc@[1].0
                == GroupKey::Scheme && strs_view(acc@[1].1@) == m.scheme && acc@[2].0
                == GroupKey::Dto && strs_view(acc@[2].1@) == m.dto && acc@[3].0 == GroupKey::Entity
                && strs_view(acc@[3].1@) == m.entity,
            Err(e) => parse_derive_spec(anns_view(input.attrs@)) == Err::<
                DeriveMapView,
                GenErrorView,
            >(err_view(e)),
        },
{
    let mut all: Vec<String> = Vec::new();
    let mut scheme: Vec<String> = Vec::new();
    let mut dto: Vec<String> = Vec::new();
    let mut entity: Vec<String> = Vec::new();
    let attr = match find_attribute("onion_derive", &input.attrs) {
        None => {
            let mut acc: Vec<(GroupKey, Vec<String>)> = Vec::new();
            acc.push((GroupKey::All, all));
            acc.push((GroupKey::Scheme, scheme));
            acc.push((GroupKey::Dto, dto));
            acc.push((GroupKey::Entity, entity));
            return Ok(acc);
        },
        Some(attr) => attr,
    };
    let items = match parse_meta_args(&attr.args) {
        None => {
            return Err(generate_error(
                ErrorLocus::DeriveAnnotation,
                "malformed onion_derive arguments",
            ));
        },
        Some(items) => items,
    };
    let ghost itemsv = args_view(items@);
    proof {
        assert(itemsv.take(0int) =~= Seq::<MetaArgView>::empty());
        assert(strs_view(all@) =~= Seq::<Seq<char>>::empty());
        assert(strs_view(scheme@) =~= Seq::<Seq<char>>::empty());
        assert(strs_view(dto@) =~= Seq::<Seq<char>>::empty());
        assert(strs_view(entity@) =~= Seq::<Seq<char>>::empty());
        assert((DeriveMapView {
            all: strs_view(all@),
            scheme: strs_view(scheme@),
            dto: strs_view(dto@),
            entity: strs_view(entity@),
        }) =~= empty_derive_map());
    }
    let mut j: usize = 0;
    while j < items.len()
        invariant
            j <= items@.len(),
            itemsv == args_view(items@),
            find_attr(anns_view(input.attrs@), derive_attr_name()) == Some(ann_view(*attr)),
            parse_meta_args_spec(ann_view(*attr).args) == Some(itemsv),
            derive_fold(itemsv.take(j as int)) == Ok::<DeriveMapView, GenErrorView>(
                DeriveMapView {
                    all: strs_view(all@),
                    scheme: strs_view(scheme@),
                    dto: strs_view(dto@),
                    entity: strs_view(entity@),
                },
            ),
        decreases items@.len() - j,
    {
        proof {
            assert(itemsv.take(j + 1 as int).drop_last() =~= itemsv.take(j as int));
            assert(itemsv.take(j + 1 as int).last() == arg_view(items@[j as int]));
        }
        let ghost m0 = DeriveMapView {
            all: strs_view(all@),
            scheme: strs_view(scheme@),
            dto: strs_view(dto@),
            entity: strs_view(entity@),
        };
        match &items[j] {
            MetaArg::Path(_) => {
                proof {
                    assert(derive_fold(itemsv.take(j + 1 as int)) == Ok::<
                        DeriveMapView,
                        GenErrorView,
                    >(m0));
                }
            },
            MetaArg::Group(nm, ts) => {
                if str_eq(nm.as_str(), "all") {
                    append_cloned(&mut all, ts);
                    proof {
                        lemma_group_names_distinct();
                        assert(derive_fold(itemsv.take(j + 1 as int)) matches Ok(m1) && m1 =~= (
                        DeriveMapView {
                            all: strs_view(all@),
                            scheme: strs_view(scheme@),
                            dto: strs_view(dto@),
                            entity: strs_view(entity@),
                        }));
                    }
                } else if str_eq(nm.as_str(), "scheme") {
                    append_cloned(&mut scheme, ts);
                    proof {
                        lemma_group_names_distinct();
                        assert(derive_fold(itemsv.take(j + 1 as int)) matches Ok(m1) && m1 =~= (
                        DeriveMapView {
                            all: strs_view(all@),
                            scheme: strs_view(scheme@),
                            dto: strs_view(dto@),
                            entity: strs_view(entity@),
                        }));
                    }
                } else if str_eq(nm.as_str(), "dto") {
                    append_cloned(&mut dto, ts);
                    proof {
                        lemma_group_names_distinct();
                        assert(derive_fold(itemsv.take(j + 1 as int)) matches Ok(m1) && m1 =~= (
                        DeriveMapView {
                            all: strs_view(all@),
                            scheme: strs_view(scheme@),
                            dto: strs_view(dto@),
                            entity: strs_view(entity@),
                        }));
                    }
                } else if str_eq(nm.as_str(), "entity") {
                    append_cloned(&mut entity, ts);
                    proof {
                        lemma_group_names_distinct();
                        assert(derive_fold(itemsv.take(j + 1 as int)) matches Ok(m1) && m1 =~= (
                        DeriveMapView {
                            all: strs_view(all@),
                            scheme: strs_view(scheme@),
                            dto: strs_view(dto@),
                            entity: strs_view(entity@),
                        }));
                    }
                } else {
                    let message = String::from_str("Unknown field: ").concat(nm.as_str());
                    let e = GenError { message, locus: ErrorLocus::DeriveAnnotation };
                    proof {
                        assert(derive_group_of(nm@) is None);
                        assert(derive_fold(itemsv.take(j + 1 as int)) == Err::<
                            DeriveMapView,
                            GenErrorView,
                        >(unknown_group_error(nm@)));
                        lemma_derive_fold_err_persists(itemsv, j + 1 as int);
                        assert(err_view(e) =~= unknown_group_error(nm@));
                        assert(find_attr(anns_view(input.attrs@), derive_attr_name()) == Some(
                            ann_view(*attr),
                        ));
                        assert(parse_meta_args_spec(ann_view(*attr).args) == Some(itemsv));
                        assert(derive_fold(itemsv) == Err::<DeriveMapView, GenErrorView>(
                            unknown_group_error(nm@),
                        ));
                        assert(parse_derive_spec(anns_view(input.attrs@)) == Err::<
                            DeriveMapView,
                            GenErrorView,
                        >(err_view(e)));
                    }
                    return Err(e);
                }
            },
        }
        j = j + 1;
    }
    proof {
        assert(itemsv.take(items@.len() as int) =~= itemsv);
    }
    let mut acc: Vec<(GroupKey, Vec<String>)> = Vec::new();
    acc.push((GroupKey::All, all));
    acc.push((GroupKey::Scheme, scheme));
    acc.push((GroupKey::Dto, dto));
    acc.push((GroupKey::Entity, entity));
    Ok(acc)
}

/// Runs the whole generation on a struct definition: validates the shape,
/// distributes the fields, parses and merges the derive configuration, and
/// returns the three variant descriptors, or the single fatal diagnostic.
pub fn onionpack_impl(input: &StructDef) -> (r: Result<
    (GeneratedStruct, GeneratedStruct, GeneratedStruct),
    GenError,
>)
    ensures
        match r {
            Ok(t) => onionpack_spec(sdef_view(*input)) == Ok::<
                (GeneratedStructView, GeneratedStructView, GeneratedStructView),
                GenErrorView,
            >((gen_view(t.0), gen_view(t.1), gen_view(t.2))),
            Err(e) => onionpack_spec(sdef_view(*input)) == Err::<
                (GeneratedStructView, GeneratedStructView, GeneratedStructView),
                GenErrorView,
            >(err_view(e)),
        },
{
    match input.shape {
        StructShape::Named => {},
        _ => {
            let e = generate_error(ErrorLocus::StructName, "`OnionPack` works only with structs.");
            proof {
                assert(err_view(e) =~= shape_error());
            }
            return Err(e);
        },
    }
    let field_acc = unpack_fields(&input.fields);
    proof {
        assert(first_entry(field_acc@, GroupKey::Scheme) == Some(0int));
        assert(first_entry_from(field_acc@, GroupKey::Dto, 1) == Some(1int));
        assert(first_entry(field_acc@, GroupKey::Dto) == Some(1int));
        assert(first_entry_from(field_acc@, GroupKey::Entity, 2) == Some(2int));
        assert(first_entry_from(field_acc@, GroupKey::Entity, 1) == Some(2int));
        assert(first_entry(field_acc@, GroupKey::Entity) == Some(2int));
    }
    let scheme_fields = match acc_get(&field_acc, GroupKey::Scheme) {
        Some(v) => v,
        None => {
            // Unreachable: the accumulator always holds the three groups.
            proof {
                assert(false);
            }
            return Err(generate_error(ErrorLocus::StructName, ""));
        },
    };
    let dto_fields = match acc_get(&field_acc, GroupKey::Dto) {
        Some(v) => v,
        None => {
            // Unreachable: the accumulator always holds the three groups.
            proof {
                assert(false);
            }
            return Err(generate_error(ErrorLocus::StructName, ""));
        },
    };
    let entity_fields = match acc_get(&field_acc, GroupKey::Entity) {
        Some(v) => v,
        None => {
            // Unreachable: the accumulator always holds the three groups.
            proof {
                assert(false);
            }
            return Err(generate_error(ErrorLocus::StructName, ""));
        },
    };
    let derive_acc = match parse_onion_derive(input) {
        Ok(a) => a,
        Err(e) => {
            return Err(e);
        },
    };
    let ghost m = parse_derive_spec(anns_view(input.attrs@))->Ok_0;
    proof {
        assert(first_entry(derive_acc@, GroupKey::All) == Some(0int));
        assert(first_entry_from(derive_acc@, GroupKey::Scheme, 1) == Some(1int));
        assert(first_entry(derive_acc@, GroupKey::Scheme) == Some(1int));
        assert(first_entry_from(derive_acc@, GroupKey::Dto, 2) == Some(2int));
        assert(first_entry_from(derive_acc@, GroupKey::Dto, 1) == Some(2int));
        assert(first_entry(derive_acc@, GroupKey::Dto) == Some(2int));
        assert(first_entry_from(derive_acc@, GroupKey::Entity, 3) == Some(3int));
        assert(first_entry_from(derive_acc@, GroupKey::Entity, 2) == Some(3int));
        assert(first_entry_from(derive_acc@, GroupKey::Entity, 1) == Some(3int));
        assert(first_entry(derive_acc@, GroupKey::Entity) == Some(3int));
    }
    let (scheme_derives, dto_derives, entity_derives) = unpack_derives(&derive_acc);
    let scheme_struct = GeneratedStruct {
        name: input.name.clone().concat("Scheme"),
        fields: clone_fields(scheme_fields),
        derives: scheme_derives,
    };
    let dto_struct = GeneratedStruct {
        name: input.name.clone().concat("Dto"),
        fields: clone_fields(dto_fields),
        derives: dto_derives,
    };
    let entity_struct = GeneratedStruct {
        name: input.name.clone().concat("Entity"),
        fields: clone_fields(entity_fields),
        derives: entity_derives,
    };
    proof {
        assert(gen_view(scheme_struct) =~= make_variant(sdef_view(*input), GroupKey::Scheme, m));
        assert(gen_view(dto_struct) =~= make_variant(sdef_view(*input), GroupKey::Dto, m));
        assert(gen_view(entity_struct) =~= make_variant(sdef_view(*input), GroupKey::Entity, m));
    }
    Ok((scheme_struct, dto_struct, entity_struct))
}

} // verus!
