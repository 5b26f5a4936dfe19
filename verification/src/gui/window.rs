//! The search box above the category list: it searches every category at
//! once, matching each setting's label, description and category name
//! against the query, each on its own, letter case aside.

use vstd::prelude::*;
use crate::settings::schema::{CategoryMeta, CategoryMetaView, Schema, SchemaView, SettingSpec, SpecView};
use crate::text::{contains, occurs_in, trim_chars};

verus! {

/// What `str::to_lowercase` gives for `s`: `s` lowercased by Unicode's
/// rules as the standard library implements them (mostly character by
/// character, with the few context-dependent cases Unicode defines, such
/// as a final sigma).
pub uninterp spec fn lowercase(s: Seq<char>) -> Seq<char>;

/// `str::to_lowercase`.
#[verifier::external_body]
fn to_lowercase(s: &str) -> (r: String)
    ensures
        r@ == lowercase(s@),
{
    s.to_lowercase()
}

/// The name of the first of `cats` whose id is `id`, or `id` itself when
/// there is none.
pub open spec fn category_name(cats: Seq<CategoryMetaView>, id: Seq<char>) -> Seq<char>
    decreases cats.len(),
{
    if cats.len() == 0 {
        id
    } else if cats[0].id == id {
        cats[0].name
    } else {
        category_name(cats.drop_first(), id)
    }
}

/// A setting's searched fields, each lowercased: its label, its
/// description and its category's name.
pub struct LoweredFields {
    pub label: String,
    pub description: String,
    pub category: String,
}

/// The characters of each lowered field.
pub open spec fn fields_view(f: LoweredFields) -> (Seq<char>, Seq<char>, Seq<char>) {
    (f.label@, f.description@, f.category@)
}

/// Whether one of the three fields holds `needle`.
pub open spec fn fields_match(f: (Seq<char>, Seq<char>, Seq<char>), needle: Seq<char>) -> bool {
    occurs_in(f.0, needle) || occurs_in(f.1, needle) || occurs_in(f.2, needle)
}

/// The settings of `specs` whose lowered fields (the entry of `lowered` at
/// the same position) match `needle`, in order, each with the name of its
/// category.
pub open spec fn hits_among(
    specs: Seq<SpecView>,
    lowered: Seq<(Seq<char>, Seq<char>, Seq<char>)>,
    cats: Seq<CategoryMetaView>,
    needle: Seq<char>,
) -> Seq<(Seq<char>, SpecView)>
    decreases specs.len(),
{
    if specs.len() == 0 {
        Seq::empty()
    } else {
        let rest = hits_among(specs.drop_last(), lowered.drop_last(), cats, needle);
        let s = specs.last();
        if fields_match(lowered.last(), needle) {
            rest.push((category_name(cats, s.category), s))
        } else {
            rest
        }
    }
}

/// Each setting's label, description and category name, lowercased.
pub open spec fn lowered_fields(specs: Seq<SpecView>, cats: Seq<CategoryMetaView>) -> Seq<
    (Seq<char>, Seq<char>, Seq<char>),
> {
    specs.map_values(
        |s: SpecView| (lowercase(s.label), lowercase(s.description), lowercase(category_name(cats, s.category))),
    )
}

/// What a search for `query` shows: nothing at all for a blank query (the
/// category pages stay in view); otherwise every setting whose label,
/// description or category name holds the trimmed query, letter case
/// aside, with its category's name.
pub open spec fn search_outcome(schema: SchemaView, query: Seq<char>) -> Option<Seq<(Seq<char>, SpecView)>> {
    let q = trim_chars(query);
    if q.len() == 0 {
        None
    } else {
        Some(hits_among(schema.specs, lowered_fields(schema.specs, schema.categories), schema.categories, lowercase(q)))
    }
}

/// Every setting whose lowered fields match is among the hits, with its
/// category's name.
proof fn lemma_hits_among_complete(
    specs: Seq<SpecView>,
    lowered: Seq<(Seq<char>, Seq<char>, Seq<char>)>,
    cats: Seq<CategoryMetaView>,
    needle: Seq<char>,
    i: int,
)
    requires
        lowered.len() == specs.len(),
        0 <= i < specs.len(),
        fields_match(lowered[i], needle),
    ensures
        hits_among(specs, lowered, cats, needle).contains((category_name(cats, specs[i].category), specs[i])),
    decreases specs.len(),
{
    let rest = hits_among(specs.drop_last(), lowered.drop_last(), cats, needle);
    if i == specs.len() - 1 {
        let h = (category_name(cats, specs[i].category), specs[i]);
        assert(rest.push(h)[rest.len() as int] == h);
    } else {
        assert(lowered.drop_last()[i] == lowered[i]);
        assert(specs.drop_last()[i] == specs[i]);
        lemma_hits_among_complete(specs.drop_last(), lowered.drop_last(), cats, needle, i);
        let h = (category_name(cats, specs[i].category), specs[i]);
        let k = choose|k: int| 0 <= k < rest.len() && rest[k] == h;
        if fields_match(lowered.last(), needle) {
            let s2 = specs.last();
            assert(rest.push((category_name(cats, s2.category), s2))[k] == h);
        }
    }
}

/// Every hit is a setting whose lowered fields match, with its category's
/// name.
proof fn lemma_hits_among_sound(
    specs: Seq<SpecView>,
    lowered: Seq<(Seq<char>, Seq<char>, Seq<char>)>,
    cats: Seq<CategoryMetaView>,
    needle: Seq<char>,
    h: (Seq<char>, SpecView),
)
    requires
        lowered.len() == specs.len(),
        hits_among(specs, lowered, cats, needle).contains(h),
    ensures
        exists|i: int|
            0 <= i < specs.len() && fields_match(lowered[i], needle) && h == (
                category_name(cats, specs[i].category),
                specs[i],
            ),
    decreases specs.len(),
{
    let rest = hits_among(specs.drop_last(), lowered.drop_last(), cats, needle);
    let last = specs.len() - 1;
    if rest.contains(h) {
        lemma_hits_among_sound(specs.drop_last(), lowered.drop_last(), cats, needle, h);
        let i = choose|i: int|
            0 <= i < specs.drop_last().len() && fields_match(lowered.drop_last()[i], needle) && h == (
                category_name(cats, specs.drop_last()[i].category),
                specs.drop_last()[i],
            );
        assert(lowered.drop_last()[i] == lowered[i]);
        assert(specs.drop_last()[i] == specs[i]);
    } else {
        let k = choose|k: int| 0 <= k < hits_among(specs, lowered, cats, needle).len() && hits_among(
            specs,
            lowered,
            cats,
            needle,
        )[k] == h;
        assert(fields_match(lowered[last], needle));
        assert(h == (category_name(cats, specs[last].category), specs[last]));
    }
}

/// A search finds a setting exactly when its label, its description or its
/// category's name, lowercased, holds the lowercased trimmed query: each
/// such setting is among the hits under its category's name, and every hit
/// is such a setting.
pub proof fn lemma_search_matches_each_field(schema: SchemaView, query: Seq<char>)
    requires
        trim_chars(query).len() > 0,
    ensures
        search_outcome(schema, query) is Some,
        forall|i: int|
            0 <= i < schema.specs.len() && (occurs_in(lowercase(schema.specs[i].label), lowercase(trim_chars(query)))
                || occurs_in(lowercase(schema.specs[i].description), lowercase(trim_chars(query))) || occurs_in(
                lowercase(category_name(schema.categories, schema.specs[i].category)),
                lowercase(trim_chars(query)),
            )) ==> #[trigger] search_outcome(schema, query)->0.contains(
                (category_name(schema.categories, schema.specs[i].category), schema.specs[i]),
            ),
        forall|h: (Seq<char>, SpecView)|
            #[trigger] search_outcome(schema, query)->0.contains(h) ==> exists|i: int|
                0 <= i < schema.specs.len() && h == (
                    category_name(schema.categories, schema.specs[i].category),
                    schema.specs[i],
                ) && (occurs_in(lowercase(schema.specs[i].label), lowercase(trim_chars(query))) || occurs_in(
                    lowercase(schema.specs[i].description),
                    lowercase(trim_chars(query)),
                ) || occurs_in(
                    lowercase(category_name(schema.categories, schema.specs[i].category)),
                    lowercase(trim_chars(query)),
                )),
{
    let specs = schema.specs;
    let cats = schema.categories;
    let lowered = lowered_fields(specs, cats);
    let needle = lowercase(trim_chars(query));
    assert forall|i: int|
        0 <= i < specs.len() && (occurs_in(lowercase(specs[i].label), needle) || occurs_in(
            lowercase(specs[i].description),
            needle,
        ) || occurs_in(lowercase(category_name(cats, specs[i].category)), needle)) implies #[trigger] search_outcome(
        schema,
        query,
    )->0.contains((category_name(cats, specs[i].category), specs[i])) by {
        assert(lowered[i] == (
            lowercase(specs[i].label),
            lowercase(specs[i].description),
            lowercase(category_name(cats, specs[i].category)),
        ));
        lemma_hits_among_complete(specs, lowered, cats, needle, i);
    }
    assert forall|h: (Seq<char>, SpecView)| #[trigger] search_outcome(schema, query)->0.contains(h) implies exists|i: int|
        0 <= i < specs.len() && h == (category_name(cats, specs[i].category), specs[i]) && (occurs_in(
            lowercase(specs[i].label),
            needle,
        ) || occurs_in(lowercase(specs[i].description), needle) || occurs_in(
            lowercase(category_name(cats, specs[i].category)),
            needle,
        )) by {
        lemma_hits_among_sound(specs, lowered, cats, needle, h);
        let i = choose|i: int|
            0 <= i < specs.len() && fields_match(lowered[i], needle) && h == (
                category_name(cats, specs[i].category),
                specs[i],
            );
        assert(lowered[i] == (
            lowercase(specs[i].label),
            lowercase(specs[i].description),
            lowercase(category_name(cats, specs[i].category)),
        ));
    }
}

/// The characters of each search hit.
pub open spec fn hits_view(hits: Seq<(&'static str, &SettingSpec)>) -> Seq<(Seq<char>, SpecView)> {
    hits.map_values(|h: (&'static str, &SettingSpec)| (h.0@, h.1@))
}

/// The name of the category `id` names in `cats`, or `id` itself.
fn category_name_in(cats: &[CategoryMeta], id: &'static str) -> (r: &'static str)
    ensures
        r@ == category_name(cats@.map_values(|c: CategoryMeta| c@), id@),
{
    let ghost cv = cats@.map_values(|c: CategoryMeta| c@);
    let mut i: usize = 0;
    assert(cv.skip(0) =~= cv);
    while i < cats.len()
        invariant
            cv == cats@.map_values(|c: CategoryMeta| c@),
            i <= cats@.len(),
            category_name(cv, id@) == category_name(cv.skip(i as int), id@),
        decreases cats.len() - i,
    {
        assert(cv.skip(i as int)[0] == cats@[i as int]@);
        if crate::text::str_eq(cats[i].id, id) {
            return cats[i].name;
        }
        assert(cv.skip(i as int).drop_first() =~= cv.skip(i + 1));
        i += 1;
    }
    assert(cv.skip(cats@.len() as int) =~= Seq::<CategoryMetaView>::empty());
    id
}

/// The settings of `schema` whose lowered fields (the entry of `lowered`
/// at the same position) hold `needle`, each with its category's name.
pub fn select_hits<'a>(schema: &'a Schema, lowered: &[LoweredFields], needle: &str) -> (r: Vec<
    (&'static str, &'a SettingSpec),
>)
    requires
        lowered@.len() == schema@.specs.len(),
    ensures
        hits_view(r@) == hits_among(
            schema@.specs,
            lowered@.map_values(|f: LoweredFields| fields_view(f)),
            schema@.categories,
            needle@,
        ),
{
    let specs = schema.all();
    let cats = schema.categories();
    let ghost sv = schema@.specs;
    let ghost cv = schema@.categories;
    let ghost lv = lowered@.map_values(|f: LoweredFields| fields_view(f));
    let mut hits: Vec<(&'static str, &'a SettingSpec)> = Vec::new();
    let mut i: usize = 0;
    assert(sv.take(0) =~= Seq::<SpecView>::empty());
    assert(hits_view(hits@) =~= Seq::<(Seq<char>, SpecView)>::empty());
    while i < specs.len()
        invariant
            sv == specs@.map_values(|s: SettingSpec| s@),
            cv == cats@.map_values(|c: CategoryMeta| c@),
            sv == schema@.specs,
            cv == schema@.categories,
            lv == lowered@.map_values(|f: LoweredFields| fields_view(f)),
            lv.len() == sv.len(),
            i <= specs@.len(),
            hits_view(hits@) == hits_among(sv.take(i as int), lv.take(i as int), cv, needle@),
        decreases specs.len() - i,
    {
        let spec = &specs[i];
        let f = &lowered[i];
        let ghost before = hits_view(hits@);
        proof {
            assert(sv[i as int] == spec@);
            assert(sv.take(i + 1).drop_last() =~= sv.take(i as int));
            assert(sv.take(i + 1).last() == spec@);
            assert(lv.take(i + 1).drop_last() =~= lv.take(i as int));
            assert(lv.take(i + 1).last() == fields_view(*f));
        }
        let found = crate::text::contains(f.label.as_str(), needle) || crate::text::contains(
            f.description.as_str(),
            needle,
        ) || crate::text::contains(f.category.as_str(), needle);
        if found {
            let name = category_name_in(cats, spec.category);
            hits.push((name, spec));
            assert(hits_view(hits@) =~= before.push((name@, spec@)));
        }
        i += 1;
    }
    assert(sv.take(specs@.len() as int) =~= sv);
    assert(lv.take(specs@.len() as int) =~= lv);
    hits
}

/// Searches every setting of `schema` for `query`.
pub fn search_settings<'a>(schema: &'a Schema, query: &str) -> (r: Option<Vec<(&'static str, &'a SettingSpec)>>)
    ensures
        match r {
            Some(hits) => search_outcome(schema@, query@) == Some(hits_view(hits@)),
            None => search_outcome(schema@, query@) is None,
        },
{
    let q = crate::text::trim(query);
    if q.unicode_len() == 0 {
        return None;
    }
    let needle = to_lowercase(q);
    let specs = schema.all();
    let cats = schema.categories();
    let ghost sv = schema@.specs;
    let ghost cv = schema@.categories;
    let mut lowered: Vec<LoweredFields> = Vec::new();
    let mut i: usize = 0;
    assert(lowered@.map_values(|f: LoweredFields| fields_view(f)) =~= lowered_fields(sv.take(0), cv));
    while i < specs.len()
        invariant
            sv == specs@.map_values(|s: SettingSpec| s@),
            cv == cats@.map_values(|c: CategoryMeta| c@),
            sv == schema@.specs,
            cv == schema@.categories,
            i <= specs@.len(),
            lowered@.len() == i,
            lowered@.map_values(|f: LoweredFields| fields_view(f)) == lowered_fields(sv.take(i as int), cv),
        decreases specs.len() - i,
    {
        let spec = &specs[i];
        let name = category_name_in(cats, spec.category);
        let f = LoweredFields {
            label: to_lowercase(spec.label),
            description: to_lowercase(spec.description),
            category: to_lowercase(name),
        };
        let ghost fv = fields_view(f);
        let ghost before = lowered@;
        lowered.push(f);
        proof {
            assert(sv[i as int] == spec@);
            assert(sv.take(i + 1) =~= sv.take(i as int).push(spec@));
            assert(lowered@.map_values(|f: LoweredFields| fields_view(f)) =~= before.map_values(
                |f: LoweredFields| fields_view(f),
            ).push(fv));
            assert(lowered_fields(sv.take(i + 1), cv) =~= lowered_fields(sv.take(i as int), cv).push(
                (lowercase(spec@.label), lowercase(spec@.description), lowercase(category_name(cv, spec@.category))),
            ));
        }
        i += 1;
    }
    assert(sv.take(specs@.len() as int) =~= sv);
    Some(select_hits(schema, &lowered, needle.as_str()))
}

} // verus!
