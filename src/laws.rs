use vstd::prelude::*;
use crate::generate::{alias_entry, alias_pairs, definition_aliases, generated_by};
use crate::model::{underlying, GeneratedArtifacts, Item, OwnershipWrapper, ResourceGroupDefinition};
use crate::parse::{directives_of, parsed_from, resolved_from, retained_of};

verus! {

/// With aliases on and no custom alias, each field declares exactly one
/// alias, in field order, named by its derived name and bound to its
/// underlying resource type.
pub proof fn lemma_default_aliases(d: ResourceGroupDefinition, derived: Seq<Seq<char>>)
    requires
        d.generate_aliases,
        derived.len() == d.fields@.len(),
        forall|i: int| 0 <= i < d.fields@.len() ==> (#[trigger] d.fields@[i]).alias is None,
    ensures
        definition_aliases(d, derived).len() == d.fields@.len(),
        forall|i: int| 0 <= i < d.fields@.len() ==> #[trigger] definition_aliases(d, derived)[i]
            == (derived[i], underlying(d.fields@[i].ty)),
{
    lemma_default_prefix(d, derived, d.fields@.len() as int);
}

proof fn lemma_default_prefix(d: ResourceGroupDefinition, derived: Seq<Seq<char>>, n: int)
    requires
        0 <= n <= d.fields@.len(),
        d.generate_aliases,
        derived.len() == d.fields@.len(),
        forall|i: int| 0 <= i < d.fields@.len() ==> (#[trigger] d.fields@[i]).alias is None,
    ensures
        alias_pairs(d.fields@, true, derived, n).len() == n,
        forall|i: int| 0 <= i < n ==> #[trigger] alias_pairs(d.fields@, true, derived, n)[i]
            == (derived[i], underlying(d.fields@[i].ty)),
    decreases n,
{
    if n > 0 {
        lemma_default_prefix(d, derived, n - 1);
        assert(d.fields@[n - 1].alias is None);
    }
}

/// The alias bound to a field does not depend on where the field stands:
/// reordering the fields (with their derived names) reorders the aliases
/// the same way.
pub proof fn lemma_aliases_follow_fields(
    d1: ResourceGroupDefinition,
    d2: ResourceGroupDefinition,
    derived1: Seq<Seq<char>>,
    derived2: Seq<Seq<char>>,
    order: Seq<int>,
)
    requires
        d1.generate_aliases,
        d2.generate_aliases,
        derived1.len() == d1.fields@.len(),
        derived2.len() == d2.fields@.len(),
        order.len() == d2.fields@.len(),
        d1.fields@.len() == d2.fields@.len(),
        forall|i: int| 0 <= i < d1.fields@.len() ==> (#[trigger] d1.fields@[i]).alias is None,
        forall|j: int| 0 <= j < order.len() ==> 0 <= #[trigger] order[j] < d1.fields@.len()
            && d2.fields@[j] == d1.fields@[order[j]] && derived2[j] == derived1[order[j]],
    ensures
        forall|j: int| 0 <= j < order.len() ==> #[trigger] definition_aliases(d2, derived2)[j]
            == definition_aliases(d1, derived1)[order[j]],
{
    lemma_default_aliases(d1, derived1);
    assert forall|i: int| 0 <= i < d2.fields@.len() implies (#[trigger] d2.fields@[i]).alias is None by {
        assert(d2.fields@[i] == d1.fields@[order[i]]);
    }
    lemma_default_aliases(d2, derived2);
    assert forall|j: int| 0 <= j < order.len() implies #[trigger] definition_aliases(d2, derived2)[j]
        == definition_aliases(d1, derived1)[order[j]] by {
        assert(definition_aliases(d1, derived1)[order[j]] == (derived1[order[j]], underlying(d1.fields@[order[j]].ty)));
    }
}

/// A field that carries one alias directive adds exactly one alias: named
/// by the directive's value as written and bound to the field's underlying
/// resource type, whatever the mode and whatever name its field name would
/// give. No alias derived from its name stands beside it.
pub proof fn lemma_custom_alias(
    d: ResourceGroupDefinition,
    mode: Option<String>,
    item: Item,
    derived: Seq<Seq<char>>,
    i: int,
)
    requires
        parsed_from(d, mode, item),
        derived.len() == d.fields@.len(),
        0 <= i < item.fields@.len(),
        directives_of(item.fields@[i].attrs@).len() == 1,
    ensures
        alias_pairs(d.fields@, d.generate_aliases, derived, i + 1) == alias_pairs(d.fields@, d.generate_aliases, derived, i).push(
            (directives_of(item.fields@[i].attrs@)[0]@, underlying(d.fields@[i].ty)),
        ),
{
    assert(resolved_from(d.fields@[i], item.fields@[i]));
}

/// In custom-only mode a field without a custom alias adds no alias, and the
/// derived names play no part.
pub proof fn lemma_custom_only(fields: Seq<crate::model::FieldSpec>, derived1: Seq<Seq<char>>, derived2: Seq<Seq<char>>, n: int)
    requires
        0 <= n <= fields.len(),
        derived1.len() == fields.len(),
        derived2.len() == fields.len(),
    ensures
        forall|i: int| 0 <= i < n && (#[trigger] fields[i]).alias is None
            ==> alias_pairs(fields, false, derived1, i + 1) == alias_pairs(fields, false, derived1, i),
        alias_pairs(fields, false, derived1, n) == alias_pairs(fields, false, derived2, n),
    decreases n,
{
    if n > 0 {
        lemma_custom_only(fields, derived1, derived2, n - 1);
        assert(alias_entry(fields[n - 1], false, derived1[n - 1]) == alias_entry(fields[n - 1], false, derived2[n - 1]));
    }
}

/// The extractor fills each field of the record, in the declared order, from
/// the container member of that field's name, and each record field is
/// owned through the wrapper over exactly its declared type.
pub proof fn lemma_round_trip(
    a: GeneratedArtifacts,
    d: ResourceGroupDefinition,
    derived: Seq<Seq<char>>,
    extractor: Seq<char>,
    w: OwnershipWrapper,
)
    requires
        generated_by(a, d, derived, extractor, w),
    ensures
        a.extractor.record == a.record.name,
        a.record.wrapper == w,
        a.extractor.entries@.len() == a.record.fields@.len(),
        a.record.fields@.len() == d.fields@.len(),
        forall|i: int| 0 <= i < a.record.fields@.len() ==> {
            &&& (#[trigger] a.extractor.entries@[i]).field == a.record.fields@[i].name
            &&& a.extractor.entries@[i].member == a.record.fields@[i].name
            &&& a.record.fields@[i].resource == d.fields@[i].ty.text
        },
{
}

/// Every attribute of an input field other than its alias directive stands,
/// unchanged and in order, on the generated field and on the extractor's
/// initialiser of that field.
pub proof fn lemma_attributes_kept(
    a: GeneratedArtifacts,
    d: ResourceGroupDefinition,
    mode: Option<String>,
    item: Item,
    derived: Seq<Seq<char>>,
    extractor: Seq<char>,
    w: OwnershipWrapper,
)
    requires
        parsed_from(d, mode, item),
        generated_by(a, d, derived, extractor, w),
    ensures
        a.record.fields@.len() == item.fields@.len(),
        forall|i: int| 0 <= i < item.fields@.len() ==> {
            &&& (#[trigger] a.record.fields@[i]).attrs@ == retained_of(item.fields@[i].attrs@)
            &&& a.extractor.entries@[i].attrs@ == retained_of(item.fields@[i].attrs@)
        },
{
    assert forall|i: int| 0 <= i < item.fields@.len() implies {
        &&& (#[trigger] a.record.fields@[i]).attrs@ == retained_of(item.fields@[i].attrs@)
        &&& a.extractor.entries@[i].attrs@ == retained_of(item.fields@[i].attrs@)
    } by {
        assert(resolved_from(d.fields@[i], item.fields@[i]));
        assert(a.extractor.entries@[i].attrs@ == d.fields@[i].retained@);
    }
}

/// A record at restricted visibility gives every alias, every field and the
/// extractor that same visibility, and the extractor is re-exported there.
pub proof fn lemma_visibility_propagates(
    a: GeneratedArtifacts,
    d: ResourceGroupDefinition,
    derived: Seq<Seq<char>>,
    extractor: Seq<char>,
    w: OwnershipWrapper,
)
    requires
        d.vis is Restricted,
        generated_by(a, d, derived, extractor, w),
    ensures
        forall|k: int| 0 <= k < a.aliases@.len() ==> (#[trigger] a.aliases@[k]).vis == d.vis,
        forall|i: int| 0 <= i < a.record.fields@.len() ==> (#[trigger] a.record.fields@[i]).vis == d.vis,
        a.record.vis == d.vis,
        a.extractor.vis == d.vis,
        a.extractor.reexport,
{
}

} // verus!
