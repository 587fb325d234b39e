use vstd::prelude::*;
use crate::model::{
    copy_strings, underlying, AliasDecl, Extractor, ExtractorEntry, FieldSpec, GeneratedArtifacts,
    GeneratedField, GroupError, Item, OwnershipWrapper, Record, ResourceGroupDefinition,
};
use crate::naming::{check_ident, class_case_of, is_ident, snake_case_of, to_class_case, to_snake_case};
use crate::parse::{parse_definition, parse_error, parsed_from};

verus! {

/// The alias that a field declares, as a name and a target type: its custom
/// alias where it has one, else the derived name where aliases are on.
pub open spec fn alias_entry(f: FieldSpec, aliases_on: bool, derived: Seq<char>) -> Option<(Seq<char>, Seq<char>)> {
    match f.alias {
        Some(a) => Some((a@, underlying(f.ty))),
        None => if aliases_on {
            Some((derived, underlying(f.ty)))
        } else {
            None
        },
    }
}

/// The aliases that the first `n` fields declare, in field order.
pub open spec fn alias_pairs(fields: Seq<FieldSpec>, aliases_on: bool, derived: Seq<Seq<char>>, n: int) -> Seq<(Seq<char>, Seq<char>)>
    decreases n,
{
    if n <= 0 {
        Seq::empty()
    } else {
        let prev = alias_pairs(fields, aliases_on, derived, n - 1);
        match alias_entry(fields[n - 1], aliases_on, derived[n - 1]) {
            Some(p) => prev.push(p),
            None => prev,
        }
    }
}

/// The aliases of a whole definition.
pub open spec fn definition_aliases(d: ResourceGroupDefinition, derived: Seq<Seq<char>>) -> Seq<(Seq<char>, Seq<char>)> {
    alias_pairs(d.fields@, d.generate_aliases, derived, d.fields@.len() as int)
}

/// Two of the aliases share a name.
pub open spec fn has_collision(pairs: Seq<(Seq<char>, Seq<char>)>) -> bool {
    exists|i: int, j: int| 0 <= i < j < pairs.len() && (#[trigger] pairs[i]).0 == (#[trigger] pairs[j]).0
}

/// The field's alias would be derived from its name, and the derived name is
/// not an identifier.
pub open spec fn bad_derived_name(d: ResourceGroupDefinition, derived: Seq<Seq<char>>, i: int) -> bool {
    d.generate_aliases && d.fields@[i].alias is None && !is_ident(derived[i])
}

/// The index of the first of the first `n` fields with a bad derived name.
pub open spec fn first_bad_derived(d: ResourceGroupDefinition, derived: Seq<Seq<char>>, n: int) -> Option<int>
    decreases n,
{
    if n <= 0 {
        None
    } else {
        match first_bad_derived(d, derived, n - 1) {
            Some(k) => Some(k),
            None => if bad_derived_name(d, derived, n - 1) {
                Some(n - 1)
            } else {
                None
            },
        }
    }
}

proof fn lemma_first_bad_derived_stays(d: ResourceGroupDefinition, derived: Seq<Seq<char>>, n: int, m: int)
    requires
        0 <= n <= m <= d.fields@.len(),
        first_bad_derived(d, derived, n) is Some,
    ensures
        first_bad_derived(d, derived, m) == first_bad_derived(d, derived, n),
    decreases m - n,
{
    if n < m {
        lemma_first_bad_derived_stays(d, derived, n, m - 1);
    }
}

/// Where generation fails, and with which error.
pub open spec fn generate_error(d: ResourceGroupDefinition, derived: Seq<Seq<char>>, extractor: Seq<char>) -> Option<GroupError> {
    if first_bad_derived(d, derived, d.fields@.len() as int) is Some {
        Some(GroupError::MalformedAlias(first_bad_derived(d, derived, d.fields@.len() as int)->Some_0 as usize))
    } else if !is_ident(extractor) {
        Some(GroupError::InvalidInput)
    } else if has_collision(definition_aliases(d, derived)) {
        Some(GroupError::AliasCollision)
    } else {
        None
    }
}

/// The aliases are `pairs`, each at visibility of the definition.
pub open spec fn aliases_are(a: Seq<AliasDecl>, d: ResourceGroupDefinition, pairs: Seq<(Seq<char>, Seq<char>)>) -> bool {
    &&& a.len() == pairs.len()
    &&& forall|k: int| 0 <= k < a.len() ==> {
        &&& (#[trigger] a[k]).vis == d.vis
        &&& a[k].name@ == pairs[k].0
        &&& a[k].target@ == pairs[k].1
    }
}

/// The record is the definition's, with each field at the definition's
/// visibility, its retained attributes, and its declared type under `w`.
pub open spec fn record_is(r: Record, d: ResourceGroupDefinition, w: OwnershipWrapper) -> bool {
    &&& r.attrs@ == d.attrs@
    &&& r.vis == d.vis
    &&& r.name == d.name
    &&& r.generics == d.generics
    &&& r.wrapper == w
    &&& r.fields@.len() == d.fields@.len()
    &&& forall|i: int| 0 <= i < r.fields@.len() ==> {
        &&& (#[trigger] r.fields@[i]).attrs@ == d.fields@[i].retained@
        &&& r.fields@[i].vis == d.vis
        &&& r.fields@[i].name == d.fields@[i].name
        &&& r.fields@[i].resource == d.fields@[i].ty.text
    }
}

/// The extractor is named `name`, builds the definition's record at its
/// visibility, and takes each field from the container member of the same
/// name under the field's retained attributes.
pub open spec fn extractor_is(e: Extractor, d: ResourceGroupDefinition, name: Seq<char>) -> bool {
    &&& e.name@ == name
    &&& e.vis == d.vis
    &&& e.record == d.name
    &&& e.reexport == (d.vis is Restricted)
    &&& e.entries@.len() == d.fields@.len()
    &&& forall|i: int| 0 <= i < e.entries@.len() ==> {
        &&& (#[trigger] e.entries@[i]).attrs@ == d.fields@[i].retained@
        &&& e.entries@[i].field == d.fields@[i].name
        &&& e.entries@[i].member == d.fields@[i].name
    }
}

/// `a` is what the definition generates.
pub open spec fn generated_by(a: GeneratedArtifacts, d: ResourceGroupDefinition, derived: Seq<Seq<char>>, extractor: Seq<char>, w: OwnershipWrapper) -> bool {
    &&& aliases_are(a.aliases@, d, definition_aliases(d, derived))
    &&& record_is(a.record, d, w)
    &&& extractor_is(a.extractor, d, extractor)
}

/// `r` is the outcome of generating from the definition.
pub open spec fn generated_result(r: Result<GeneratedArtifacts, GroupError>, d: ResourceGroupDefinition, derived: Seq<Seq<char>>, extractor: Seq<char>, w: OwnershipWrapper) -> bool {
    match generate_error(d, derived, extractor) {
        Some(e) => r == Err::<GeneratedArtifacts, GroupError>(e),
        None => r is Ok && generated_by(r->Ok_0, d, derived, extractor, w),
    }
}

pub open spec fn views_of(v: Seq<String>) -> Seq<Seq<char>> {
    v.map_values(|s: String| s@)
}

/// Builds the aliases of a definition, given the name derived from each field.
pub fn synthesize_aliases(def: &ResourceGroupDefinition, derived: &Vec<String>) -> (r: Vec<AliasDecl>)
    requires
        derived@.len() == def.fields@.len(),
    ensures
        aliases_are(r@, *def, definition_aliases(*def, views_of(derived@))),
{
    let ghost names = views_of(derived@);
    let mut out: Vec<AliasDecl> = Vec::new();
    let mut i: usize = 0;
    while i < def.fields.len()
        invariant
            i <= def.fields@.len(),
            derived@.len() == def.fields@.len(),
            names == views_of(derived@),
            aliases_are(out@, *def, alias_pairs(def.fields@, def.generate_aliases, names, i as int)),
        decreases def.fields@.len() - i,
    {
        let f = &def.fields[i];
        assert(names[i as int] == derived@[i as int]@);
        match &f.alias {
            Some(a) => {
                out.push(AliasDecl { vis: def.vis.duplicate(), name: a.clone(), target: f.ty.underlying_type() });
            }
            None => {
                if def.generate_aliases {
                    out.push(AliasDecl {
                        vis: def.vis.duplicate(),
                        name: derived[i].clone(),
                        target: f.ty.underlying_type(),
                    });
                }
            }
        }
        i = i + 1;
    }
    out
}

/// Tells whether two of the aliases share a name.
pub fn find_collision(aliases: &Vec<AliasDecl>) -> (r: bool)
    ensures
        r == exists|i: int, j: int| 0 <= i < j < aliases@.len()
            && (#[trigger] aliases@[i]).name@ == (#[trigger] aliases@[j]).name@,
{
    let n = aliases.len();
    let mut j: usize = 0;
    while j < n
        invariant
            n == aliases@.len(),
            j <= n,
            forall|a: int, b: int| 0 <= a < b < j ==> (#[trigger] aliases@[a]).name@ != (#[trigger] aliases@[b]).name@,
        decreases n - j,
    {
        let mut i: usize = 0;
        while i < j
            invariant
                n == aliases@.len(),
                i <= j < n,
                forall|a: int| 0 <= a < i ==> (#[trigger] aliases@[a]).name@ != aliases@[j as int].name@,
            decreases j - i,
        {
            if aliases[i].name == aliases[j].name {
                return true;
            }
            i = i + 1;
        }
        j = j + 1;
    }
    false
}

/// Rewrites the definition's fields: each takes the record's visibility, keeps
/// its retained attributes, and is owned through the wrapper.
pub fn wrap_fields(def: &ResourceGroupDefinition) -> (r: Vec<GeneratedField>)
    ensures
        r@.len() == def.fields@.len(),
        forall|i: int| 0 <= i < r@.len() ==> {
            &&& (#[trigger] r@[i]).attrs@ == def.fields@[i].retained@
            &&& r@[i].vis == def.vis
            &&& r@[i].name == def.fields@[i].name
            &&& r@[i].resource == def.fields@[i].ty.text
        },
{
    let mut out: Vec<GeneratedField> = Vec::new();
    let mut i: usize = 0;
    while i < def.fields.len()
        invariant
            i <= def.fields@.len(),
            out@.len() == i,
            forall|k: int| 0 <= k < i ==> {
                &&& (#[trigger] out@[k]).attrs@ == def.fields@[k].retained@
                &&& out@[k].vis == def.vis
                &&& out@[k].name == def.fields@[k].name
                &&& out@[k].resource == def.fields@[k].ty.text
            },
        decreases def.fields@.len() - i,
    {
        let f = &def.fields[i];
        out.push(GeneratedField {
            attrs: copy_strings(&f.retained),
            vis: def.vis.duplicate(),
            name: f.name.clone(),
            resource: f.ty.text.clone(),
        });
        i = i + 1;
    }
    out
}

/// Builds the extractor named `name` for the definition.
pub fn synthesize_extractor(def: &ResourceGroupDefinition, name: &String) -> (r: Extractor)
    ensures
        extractor_is(r, *def, name@),
{
    let mut entries: Vec<ExtractorEntry> = Vec::new();
    let mut i: usize = 0;
    while i < def.fields.len()
        invariant
            i <= def.fields@.len(),
            entries@.len() == i,
            forall|k: int| 0 <= k < i ==> {
                &&& (#[trigger] entries@[k]).attrs@ == def.fields@[k].retained@
                &&& entries@[k].field == def.fields@[k].name
                &&& entries@[k].member == def.fields@[k].name
            },
        decreases def.fields@.len() - i,
    {
        let f = &def.fields[i];
        entries.push(ExtractorEntry {
            attrs: copy_strings(&f.retained),
            field: f.name.clone(),
            member: f.name.clone(),
        });
        i = i + 1;
    }
    Extractor {
        name: name.clone(),
        vis: def.vis.duplicate(),
        record: def.name.clone(),
        reexport: def.vis.is_restricted(),
        entries,
    }
}

} // verus!

verus! {

/// Generates the aliases, the rewritten record and the extractor of a
/// definition, given the name derived from each field's name, the
/// extractor's name and the ownership wrapper. Fails on the first field whose
/// alias name is not an identifier, then on an extractor name that is not
/// one, then on two aliases that share a name.
pub fn generate(
    def: &ResourceGroupDefinition,
    derived: &Vec<String>,
    extractor_name: &String,
    wrapper: &OwnershipWrapper,
) -> (r: Result<GeneratedArtifacts, GroupError>)
    requires
        derived@.len() == def.fields@.len(),
    ensures
        generated_result(r, *def, views_of(derived@), extractor_name@, *wrapper),
{
    let ghost names = views_of(derived@);
    let mut i: usize = 0;
    while i < def.fields.len()
        invariant
            i <= def.fields@.len(),
            derived@.len() == def.fields@.len(),
            names == views_of(derived@),
            first_bad_derived(*def, names, i as int) is None,
        decreases def.fields@.len() - i,
    {
        assert(names[i as int] == derived@[i as int]@);
        if def.generate_aliases && def.fields[i].alias.is_none() && !check_ident(&derived[i]) {
            assert(first_bad_derived(*def, names, i + 1) == Some(i as int));
            proof { lemma_first_bad_derived_stays(*def, names, i + 1, def.fields@.len() as int); }
            return Err(GroupError::MalformedAlias(i));
        }
        i = i + 1;
    }
    if !check_ident(extractor_name) {
        return Err(GroupError::InvalidInput);
    }
    let aliases = synthesize_aliases(def, derived);
    let ghost pairs = definition_aliases(*def, names);
    if find_collision(&aliases) {
        proof {
            let (a, b) = choose|a: int, b: int| 0 <= a < b < aliases@.len()
                && (#[trigger] aliases@[a]).name@ == (#[trigger] aliases@[b]).name@;
            assert(pairs[a].0 == pairs[b].0);
        }
        return Err(GroupError::AliasCollision);
    }
    proof {
        assert forall|a: int, b: int| 0 <= a < b < pairs.len() implies (#[trigger] pairs[a]).0 != (#[trigger] pairs[b]).0 by {
            assert(aliases@[a].name@ != aliases@[b].name@);
        }
    }
    let record = Record {
        attrs: copy_strings(&def.attrs),
        vis: def.vis.duplicate(),
        name: def.name.clone(),
        generics: def.generics.clone(),
        wrapper: wrapper.duplicate(),
        fields: wrap_fields(def),
    };
    let extractor = synthesize_extractor(def, extractor_name);
    Ok(GeneratedArtifacts { aliases, record, extractor })
}

/// The names derived from the item's field names.
pub open spec fn derived_names(item: Item) -> Seq<Seq<char>> {
    Seq::new(item.fields@.len(), |i: int| class_case_of(item.fields@[i].name->Some_0@))
}

/// Processes one resource group: reads the item under the mode argument,
/// derives each alias name from its field's name in class case and the
/// extractor's name from the record's name in snake case, and generates.
/// Two fields that would declare the same alias name are refused with
/// `AliasCollision`; neither takes precedence.
pub fn resource_group(mode: &Option<String>, item: &Item, wrapper: &OwnershipWrapper) -> (r: Result<GeneratedArtifacts, GroupError>)
    ensures
        parse_error(*mode, *item) is Some ==> r == Err::<GeneratedArtifacts, GroupError>(parse_error(*mode, *item)->Some_0),
        parse_error(*mode, *item) is None ==> exists|d: ResourceGroupDefinition| #[trigger] parsed_from(d, *mode, *item)
            && generated_result(r, d, derived_names(*item), snake_case_of(item.name@), *wrapper),
{
    let def = match parse_definition(mode, item) {
        Ok(d) => d,
        Err(e) => {
            return Err(e);
        }
    };
    let mut derived: Vec<String> = Vec::new();
    let mut i: usize = 0;
    while i < def.fields.len()
        invariant
            i <= def.fields@.len(),
            parsed_from(def, *mode, *item),
            derived@.len() == i,
            forall|k: int| 0 <= k < i ==> (#[trigger] derived@[k])@ == derived_names(*item)[k],
        decreases def.fields@.len() - i,
    {
        assert(def.fields@[i as int].name == item.fields@[i as int].name->Some_0);
        derived.push(to_class_case(&def.fields[i].name));
        i = i + 1;
    }
    assert(views_of(derived@) =~= derived_names(*item));
    let extractor_name = to_snake_case(&def.name);
    let r = generate(&def, &derived, &extractor_name, wrapper);
    assert(parsed_from(def, *mode, *item));
    r
}

} // verus!
