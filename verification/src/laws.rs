//! The library's laws: what the generator guarantees over all inputs, stated
//! and proved over the same specification functions its contracts use.

use vstd::prelude::*;
use crate::args::parse_meta_args_spec;
use crate::model::{dist_attr_name, derive_attr_name, lemma_group_names_distinct, AnnotationView,
    FieldView, GenErrorView, GeneratedStructView, GroupKey, MetaArgView, StructDefView,
    StructShape};
use crate::onion::{derive_fold, derive_group_of, dist_contrib_args, dist_fields,
    empty_derive_map, field_contribution, find_attr, find_attr_from, has_none, lemma_derive_fold_err_persists,
    onionpack_spec, parse_derive_spec, strip_attrs, strip_field, unknown_group_error,
    DeriveMapView};

verus! {

/// A field whose distribution annotation parses and carries the `none`
/// sentinel.
pub open spec fn marked_none(f: FieldView) -> bool {
    find_attr(f.attrs, dist_attr_name()) matches Some(a) && parse_meta_args_spec(a.args) matches Some(
        items,
    ) && has_none(items)
}

/// Distribution acts field by field: distributing a concatenation
/// concatenates the distributions.
pub proof fn lemma_dist_fields_add(a: Seq<FieldView>, b: Seq<FieldView>, g: GroupKey)
    ensures
        dist_fields(a + b, g) == dist_fields(a, g) + dist_fields(b, g),
    decreases b.len(),
{
    if b.len() == 0 {
        assert(a + b =~= a);
        assert(dist_fields(b, g) =~= Seq::<FieldView>::empty());
        assert(dist_fields(a, g) + dist_fields(b, g) =~= dist_fields(a, g));
    } else {
        lemma_dist_fields_add(a, b.drop_last(), g);
        assert((a + b).drop_last() =~= a + b.drop_last());
        assert((a + b).last() == b.last());
        assert(dist_fields(a + b, g) =~= dist_fields(a, g) + dist_fields(b, g));
    }
}

/// The distribution of a single field is exactly its contribution.
pub proof fn lemma_dist_fields_singleton(f: FieldView, g: GroupKey)
    ensures
        dist_fields(seq![f], g) == field_contribution(f, g),
{
    assert(seq![f].drop_last() =~= Seq::<FieldView>::empty());
    assert(seq![f].last() == f);
    assert(dist_fields(Seq::<FieldView>::empty(), g) =~= Seq::<FieldView>::empty());
    assert(dist_fields(seq![f], g) =~= field_contribution(f, g));
}

/// Fields with no distribution annotation pass through unchanged: the
/// variant's field list is the field list itself.
pub proof fn lemma_dist_unannotated(fs: Seq<FieldView>, g: GroupKey)
    requires
        forall|i: int|
            0 <= i < fs.len() ==> find_attr((#[trigger] fs[i]).attrs, dist_attr_name()) is None,
    ensures
        dist_fields(fs, g) == fs,
    decreases fs.len(),
{
    if fs.len() == 0 {
        assert(dist_fields(fs, g) =~= fs);
    } else {
        assert(forall|i: int| 0 <= i < fs.drop_last().len() ==> #[trigger] fs.drop_last()[i]
            == fs[i]);
        lemma_dist_unannotated(fs.drop_last(), g);
        assert(fs.last() == fs[fs.len() - 1]);
        assert(field_contribution(fs.last(), g) == seq![fs.last()]);
        assert(dist_fields(fs, g) =~= fs);
    }
}

/// A struct with no distribution and no derive-configuration annotations
/// generates three variants that hold exactly the original fields, in the
/// original order, each with an empty derive list.
pub proof fn lemma_plain_struct_passthrough(s: StructDefView)
    requires
        s.shape == StructShape::Named,
        forall|i: int|
            0 <= i < s.fields.len() ==> find_attr(
                (#[trigger] s.fields[i]).attrs,
                dist_attr_name(),
            ) is None,
        find_attr(s.attrs, derive_attr_name()) is None,
    ensures
        onionpack_spec(s) matches Ok(t) && t.0.fields == s.fields && t.1.fields == s.fields
            && t.2.fields == s.fields && t.0.derives == Seq::<Seq<char>>::empty() && t.1.derives
            == Seq::<Seq<char>>::empty() && t.2.derives == Seq::<Seq<char>>::empty(),
{
    lemma_dist_unannotated(s.fields, GroupKey::Scheme);
    lemma_dist_unannotated(s.fields, GroupKey::Dto);
    lemma_dist_unannotated(s.fields, GroupKey::Entity);
    assert(empty_derive_map().all + empty_derive_map().scheme =~= Seq::<Seq<char>>::empty());
    assert(empty_derive_map().all + empty_derive_map().dto =~= Seq::<Seq<char>>::empty());
    assert(empty_derive_map().all + empty_derive_map().entity =~= Seq::<Seq<char>>::empty());
}

/// A field marked `none` contributes to no variant.
pub proof fn lemma_none_field_contributes_nothing(f: FieldView, g: GroupKey)
    requires
        marked_none(f),
    ensures
        field_contribution(f, g) == Seq::<FieldView>::empty(),
{
}

/// A field marked `none` appears in none of the three variants: dropping it
/// from the input leaves every variant's field list unchanged.
pub proof fn lemma_none_field_dropped(fs: Seq<FieldView>, i: int, g: GroupKey)
    requires
        0 <= i < fs.len(),
        marked_none(fs[i]),
    ensures
        dist_fields(fs, g) == dist_fields(fs.remove(i), g),
{
    let pre = fs.take(i);
    let mid = seq![fs[i]];
    let post = fs.skip(i + 1);
    assert(fs =~= (pre + mid) + post);
    lemma_dist_fields_add(pre + mid, post, g);
    lemma_dist_fields_add(pre, mid, g);
    lemma_dist_fields_singleton(fs[i], g);
    lemma_none_field_contributes_nothing(fs[i], g);
    assert(fs.remove(i) =~= pre + post);
    lemma_dist_fields_add(pre, post, g);
    assert(dist_fields(fs, g) =~= dist_fields(fs.remove(i), g));
}

/// A field with no distribution annotation appears in every variant, between
/// what the surrounding fields contribute, exactly as it stands in the input
/// (in particular it carries no distribution annotation there).
pub proof fn lemma_unannotated_field_everywhere(fs: Seq<FieldView>, i: int, g: GroupKey)
    requires
        0 <= i < fs.len(),
        find_attr(fs[i].attrs, dist_attr_name()) is None,
    ensures
        dist_fields(fs, g) == dist_fields(fs.take(i), g) + seq![fs[i]] + dist_fields(
            fs.skip(i + 1),
            g,
        ),
{
    let pre = fs.take(i);
    let mid = seq![fs[i]];
    let post = fs.skip(i + 1);
    assert(fs =~= (pre + mid) + post);
    lemma_dist_fields_add(pre + mid, post, g);
    lemma_dist_fields_add(pre, mid, g);
    lemma_dist_fields_singleton(fs[i], g);
    assert(field_contribution(fs[i], g) == seq![fs[i]]);
}

/// No annotation named like the distribution annotation survives stripping.
pub proof fn lemma_find_attr_none(attrs: Seq<AnnotationView>, name: Seq<char>, i: int)
    requires
        0 <= i <= attrs.len(),
        forall|j: int| i <= j < attrs.len() ==> (#[trigger] attrs[j]).name != name,
    ensures
        find_attr_from(attrs, name, i) is None,
    decreases attrs.len() - i,
{
    if i < attrs.len() {
        lemma_find_attr_none(attrs, name, i + 1);
    }
}

/// Stripping removes every distribution annotation: none can be found in the
/// stripped list.
pub proof fn lemma_strip_removes_dist(attrs: Seq<AnnotationView>)
    ensures
        find_attr(strip_attrs(attrs), dist_attr_name()) is None,
{
    broadcast use vstd::seq_lib::group_filter_ensures;

    assert(forall|j: int|
        0 <= j < strip_attrs(attrs).len() ==> (#[trigger] strip_attrs(attrs)[j]).name
            != dist_attr_name());
    lemma_find_attr_none(strip_attrs(attrs), dist_attr_name(), 0);
}

/// A field marked for `dto` and `entity` goes to exactly those two variants,
/// once each, with its distribution annotations stripped in the copies.
pub proof fn lemma_dto_entity_distribution(f: FieldView, a: AnnotationView)
    requires
        find_attr(f.attrs, dist_attr_name()) == Some(a),
        parse_meta_args_spec(a.args) == Some(
            seq![MetaArgView::Path("dto"@), MetaArgView::Path("entity"@)],
        ),
    ensures
        field_contribution(f, GroupKey::Scheme) == Seq::<FieldView>::empty(),
        field_contribution(f, GroupKey::Dto) == seq![strip_field(f)],
        field_contribution(f, GroupKey::Entity) == seq![strip_field(f)],
        find_attr(strip_field(f).attrs, dist_attr_name()) is None,
{
    lemma_group_names_distinct();
    let items = seq![MetaArgView::Path("dto"@), MetaArgView::Path("entity"@)];
    assert(!has_none(items));
    let short = seq![MetaArgView::Path("dto"@)];
    assert(items.drop_last() =~= short);
    assert(short.drop_last() =~= Seq::<MetaArgView>::empty());
    assert(short.last() == MetaArgView::Path("dto"@));
    assert(items.last() == MetaArgView::Path("entity"@));
    assert(dist_contrib_args(Seq::<MetaArgView>::empty(), GroupKey::Scheme, f) =~= Seq::<
        FieldView,
    >::empty());
    assert(dist_contrib_args(Seq::<MetaArgView>::empty(), GroupKey::Dto, f) =~= Seq::<
        FieldView,
    >::empty());
    assert(dist_contrib_args(Seq::<MetaArgView>::empty(), GroupKey::Entity, f) =~= Seq::<
        FieldView,
    >::empty());
    assert(dist_contrib_args(short, GroupKey::Scheme, f) =~= Seq::<FieldView>::empty());
    assert(dist_contrib_args(short, GroupKey::Dto, f) =~= seq![strip_field(f)]);
    assert(dist_contrib_args(short, GroupKey::Entity, f) =~= Seq::<FieldView>::empty());
    assert(dist_contrib_args(items, GroupKey::Scheme, f) =~= Seq::<FieldView>::empty());
    assert(dist_contrib_args(items, GroupKey::Dto, f) =~= seq![strip_field(f)]);
    assert(dist_contrib_args(items, GroupKey::Entity, f) =~= seq![strip_field(f)]);
    assert(field_contribution(f, GroupKey::Scheme) =~= Seq::<FieldView>::empty());
    assert(field_contribution(f, GroupKey::Dto) =~= seq![strip_field(f)]);
    assert(field_contribution(f, GroupKey::Entity) =~= seq![strip_field(f)]);
    lemma_strip_removes_dist(f.attrs);
}

/// The derive merge law: every variant's derive list is the `all` list
/// followed by that variant's own list, in configuration order, without
/// deduplication.  The specification is a function of the input alone, so
/// rerunning the generation on identical input merges identically.
pub proof fn lemma_derive_merge(
    s: StructDefView,
    t: (GeneratedStructView, GeneratedStructView, GeneratedStructView),
)
    requires
        onionpack_spec(s) == Ok::<
            (GeneratedStructView, GeneratedStructView, GeneratedStructView),
            GenErrorView,
        >(t),
    ensures
        parse_derive_spec(s.attrs) matches Ok(m) && t.0.derives == m.all + m.scheme && t.1.derives
            == m.all + m.dto && t.2.derives == m.all + m.entity,
{
}

/// A fold over derive items with no unknown group names succeeds.
pub proof fn lemma_fold_ok_when_known(items: Seq<MetaArgView>)
    requires
        forall|j: int|
            0 <= j < items.len() ==> !((#[trigger] items[j]) matches MetaArgView::Group(n, _)
                && derive_group_of(n) is None),
    ensures
        derive_fold(items) is Ok,
    decreases items.len(),
{
    if items.len() > 0 {
        assert(forall|j: int| 0 <= j < items.drop_last().len() ==> #[trigger] items.drop_last()[j]
            == items[j]);
        lemma_fold_ok_when_known(items.drop_last());
        assert(items.last() == items[items.len() - 1]);
    }
}

/// An unknown group name in the derive configuration is fatal: the fold
/// yields the diagnostic that carries the first offending name, and no
/// derive map.
pub proof fn lemma_unknown_group_fatal(items: Seq<MetaArgView>, i: int)
    requires
        0 <= i < items.len(),
        items[i] matches MetaArgView::Group(n, _) && derive_group_of(n) is None,
        forall|j: int|
            0 <= j < i ==> !((#[trigger] items[j]) matches MetaArgView::Group(n2, _)
                && derive_group_of(n2) is None),
    ensures
        items[i] matches MetaArgView::Group(n, _) && derive_fold(items) == Err::<
            DeriveMapView,
            GenErrorView,
        >(unknown_group_error(n)),
{
    assert(forall|j: int| 0 <= j < items.take(i).len() ==> #[trigger] items.take(i)[j]
        == items[j]);
    lemma_fold_ok_when_known(items.take(i));
    assert(items.take(i + 1).drop_last() =~= items.take(i));
    assert(items.take(i + 1).last() == items[i]);
    lemma_derive_fold_err_persists(items, i + 1);
}

/// An unknown group name in the struct's derive configuration aborts the
/// whole generation with the diagnostic that carries that name: no variant
/// descriptor is produced.
pub proof fn lemma_unknown_group_aborts_generation(
    s: StructDefView,
    a: AnnotationView,
    items: Seq<MetaArgView>,
    i: int,
)
    requires
        s.shape == StructShape::Named,
        find_attr(s.attrs, derive_attr_name()) == Some(a),
        parse_meta_args_spec(a.args) == Some(items),
        0 <= i < items.len(),
        items[i] matches MetaArgView::Group(n, _) && derive_group_of(n) is None,
        forall|j: int|
            0 <= j < i ==> !((#[trigger] items[j]) matches MetaArgView::Group(n2, _)
                && derive_group_of(n2) is None),
    ensures
        items[i] matches MetaArgView::Group(n, _) && onionpack_spec(s) == Err::<
            (GeneratedStructView, GeneratedStructView, GeneratedStructView),
            GenErrorView,
        >(unknown_group_error(n)),
{
    lemma_unknown_group_fatal(items, i);
}

/// A fatal derive-configuration diagnostic aborts the whole generation: no
/// variant descriptor is produced beside it.
pub proof fn lemma_no_partial_output(s: StructDefView, e: GenErrorView)
    requires
        s.shape == StructShape::Named,
        parse_derive_spec(s.attrs) == Err::<DeriveMapView, GenErrorView>(e),
    ensures
        onionpack_spec(s) == Err::<
            (GeneratedStructView, GeneratedStructView, GeneratedStructView),
            GenErrorView,
        >(e),
{
}

} // verus!
