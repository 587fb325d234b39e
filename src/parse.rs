use vstd::prelude::*;
use vstd::string::StringExecFns;
use crate::model::{
    alias_keyword, is_alias_directive, Attribute, FieldSpec, GroupError, Item, ItemField,
    ItemKind, ResourceGroupDefinition,
};
use crate::naming::{check_ident, is_ident};

verus! {

/// The mode argument that turns off the aliases derived from field names.
pub open spec fn custom_only_keyword() -> Seq<char> {
    seq!['n', 'o', '_', 'a', 'l', 'i', 'a', 's', 'e', 's']
}

/// The texts of the attributes that are not alias directives, in order.
pub open spec fn retained_of(attrs: Seq<Attribute>) -> Seq<String>
    decreases attrs.len(),
{
    if attrs.len() == 0 {
        Seq::empty()
    } else if is_alias_directive(attrs.last()) {
        retained_of(attrs.drop_last())
    } else {
        retained_of(attrs.drop_last()).push(attrs.last().text)
    }
}

/// The values of the alias directives, in order.
pub open spec fn directives_of(attrs: Seq<Attribute>) -> Seq<String>
    decreases attrs.len(),
{
    if attrs.len() == 0 {
        Seq::empty()
    } else if is_alias_directive(attrs.last()) {
        directives_of(attrs.drop_last()).push(attrs.last().value->Some_0)
    } else {
        directives_of(attrs.drop_last())
    }
}

/// The field's alias directives are malformed: more than one, or a value
/// that is not an identifier.
pub open spec fn bad_directives(attrs: Seq<Attribute>) -> bool {
    let d = directives_of(attrs);
    d.len() > 1 || (d.len() == 1 && !is_ident(d[0]@))
}

/// `r` is `f` resolved: same name and type, the alias directive taken out of
/// its attributes and recorded as its alias.
pub open spec fn resolved_from(r: FieldSpec, f: ItemField) -> bool {
    &&& f.name is Some
    &&& r.name == f.name->Some_0
    &&& r.ty.text == f.ty.text
    &&& r.ty.args@ == f.ty.args@
    &&& r.retained@ == retained_of(f.attrs@)
    &&& r.alias == (if directives_of(f.attrs@).len() == 1 {
        Some(directives_of(f.attrs@)[0])
    } else {
        None
    })
}

fn is_keyword(s: &String, keyword: &str) -> (r: bool)
    ensures
        r == (s@ == keyword@),
{
    let k = String::from_str(keyword);
    *s == k
}

/// Tells whether an attribute is an alias directive.
pub fn alias_directive(a: &Attribute) -> (r: bool)
    ensures
        r == is_alias_directive(*a),
{
    proof {
        reveal_strlit("alias");
        assert("alias"@ =~= alias_keyword());
    }
    a.value.is_some() && is_keyword(&a.path, "alias")
}

/// Takes the alias directive out of a named field's attributes; `None` where
/// the directives are malformed.
pub fn resolve_field(f: &ItemField) -> (r: Option<FieldSpec>)
    requires
        f.name is Some,
    ensures
        bad_directives(f.attrs@) ==> r is None,
        !bad_directives(f.attrs@) ==> (r is Some && resolved_from(r->Some_0, *f)),
{
    let mut retained: Vec<String> = Vec::new();
    let mut alias: Option<String> = None;
    let mut count: usize = 0;
    let mut i: usize = 0;
    while i < f.attrs.len()
        invariant
            i <= f.attrs@.len(),
            retained@ == retained_of(f.attrs@.take(i as int)),
            count as int == if directives_of(f.attrs@.take(i as int)).len() == 0 { 0int } else { 1int },
            count == 0 ==> alias is None,
            count == 1 ==> directives_of(f.attrs@.take(i as int)).len() == 1
                && alias == Some(directives_of(f.attrs@.take(i as int))[0]),
        decreases f.attrs@.len() - i,
    {
        let a = &f.attrs[i];
        assert(f.attrs@.take(i + 1).drop_last() =~= f.attrs@.take(i as int));
        if alias_directive(a) {
            if count == 1 {
                assert(directives_of(f.attrs@.take(i + 1)).len() == 2);
                proof {
                    lemma_directives_grow(f.attrs@, i + 1, f.attrs@.len() as int);
                    assert(f.attrs@.take(f.attrs@.len() as int) =~= f.attrs@);
                }
                return None;
            }
            let v = a.value.as_ref().unwrap();
            alias = Some(v.clone());
            count = 1;
        } else {
            retained.push(a.text.clone());
        }
        i = i + 1;
    }
    assert(f.attrs@.take(i as int) =~= f.attrs@);
    match alias {
        Some(v) => {
            if !check_ident(&v) {
                return None;
            }
            Some(FieldSpec {
                name: f.name.as_ref().unwrap().clone(),
                ty: f.ty.duplicate(),
                retained,
                alias: Some(v),
            })
        }
        None => Some(FieldSpec {
            name: f.name.as_ref().unwrap().clone(),
            ty: f.ty.duplicate(),
            retained,
            alias: None,
        }),
    }
}

proof fn lemma_directives_grow(attrs: Seq<Attribute>, i: int, j: int)
    requires
        0 <= i <= j <= attrs.len(),
    ensures
        directives_of(attrs.take(i)).len() <= directives_of(attrs.take(j)).len(),
    decreases j - i,
{
    if i < j {
        lemma_directives_grow(attrs, i, j - 1);
        assert(attrs.take(j).drop_last() =~= attrs.take(j - 1));
    }
}

proof fn lemma_first_bad_stays(fields: Seq<ItemField>, n: int, m: int)
    requires
        0 <= n <= m <= fields.len(),
        first_bad_field(fields, n) is Some,
    ensures
        first_bad_field(fields, m) == first_bad_field(fields, n),
    decreases m - n,
{
    if n < m {
        lemma_first_bad_stays(fields, n, m - 1);
    }
}

/// Every field of the item has a name.
pub open spec fn all_named(fields: Seq<ItemField>) -> bool {
    forall|i: int| 0 <= i < fields.len() ==> (#[trigger] fields[i]).name is Some
}

/// The index of the first of the first `n` fields whose alias directives are
/// malformed.
pub open spec fn first_bad_field(fields: Seq<ItemField>, n: int) -> Option<int>
    decreases n,
{
    if n <= 0 {
        None
    } else {
        match first_bad_field(fields, n - 1) {
            Some(k) => Some(k),
            None => if bad_directives(fields[n - 1].attrs@) {
                Some(n - 1)
            } else {
                None
            },
        }
    }
}

/// The outcome of parsing, where it fails.
pub open spec fn parse_error(mode: Option<String>, item: Item) -> Option<GroupError> {
    if (mode is Some && mode->Some_0@ != custom_only_keyword()) || item.kind is Other
        || !all_named(item.fields@) {
        Some(GroupError::InvalidInput)
    } else if first_bad_field(item.fields@, item.fields@.len() as int) is Some {
        Some(GroupError::MalformedAlias(first_bad_field(item.fields@, item.fields@.len() as int)->Some_0 as usize))
    } else {
        None
    }
}

/// `d` is the definition that `item` declares under `mode`.
pub open spec fn parsed_from(d: ResourceGroupDefinition, mode: Option<String>, item: Item) -> bool {
    &&& d.name == item.name
    &&& d.vis == item.vis
    &&& d.attrs@ == item.attrs@
    &&& d.generics == item.generics
    &&& d.generate_aliases == (mode is None)
    &&& d.fields@.len() == item.fields@.len()
    &&& forall|i: int| 0 <= i < d.fields@.len()
        ==> resolved_from(#[trigger] d.fields@[i], item.fields@[i])
}

/// Reads a resource group from the annotated item and the mode argument
/// (absent, or `no_aliases` for custom aliases only).
pub fn parse_definition(mode: &Option<String>, item: &Item) -> (r: Result<ResourceGroupDefinition, GroupError>)
    ensures
        match parse_error(*mode, *item) {
            Some(e) => r == Err::<ResourceGroupDefinition, GroupError>(e),
            None => r is Ok && parsed_from(r->Ok_0, *mode, *item),
        },
{
    proof {
        reveal_strlit("no_aliases");
        assert("no_aliases"@ =~= custom_only_keyword());
    }
    let generate_aliases = match mode {
        None => true,
        Some(m) => {
            if !is_keyword(m, "no_aliases") {
                return Err(GroupError::InvalidInput);
            }
            false
        }
    };
    match item.kind {
        ItemKind::Other => {
            return Err(GroupError::InvalidInput);
        }
        ItemKind::Struct => {}
    }
    let mut i: usize = 0;
    while i < item.fields.len()
        invariant
            i <= item.fields@.len(),
            item.kind is Struct,
            generate_aliases == (mode is None),
            mode is None || mode->Some_0@ == custom_only_keyword(),
            forall|j: int| 0 <= j < i ==> (#[trigger] item.fields@[j]).name is Some,
        decreases item.fields@.len() - i,
    {
        if item.fields[i].name.is_none() {
            return Err(GroupError::InvalidInput);
        }
        i = i + 1;
    }
    let mut fields: Vec<FieldSpec> = Vec::new();
    let mut i: usize = 0;
    while i < item.fields.len()
        invariant
            i <= item.fields@.len(),
            item.kind is Struct,
            generate_aliases == (mode is None),
            mode is None || mode->Some_0@ == custom_only_keyword(),
            all_named(item.fields@),
            fields@.len() == i,
            forall|j: int| 0 <= j < i ==> resolved_from(#[trigger] fields@[j], item.fields@[j]),
            first_bad_field(item.fields@, i as int) is None,
        decreases item.fields@.len() - i,
    {
        assert(item.fields@[i as int].name is Some);
        match resolve_field(&item.fields[i]) {
            Some(f) => {
                fields.push(f);
            }
            None => {
                assert(first_bad_field(item.fields@, i + 1) == Some(i as int));
                proof { lemma_first_bad_stays(item.fields@, i + 1, item.fields@.len() as int); }
                return Err(GroupError::MalformedAlias(i));
            }
        }
        i = i + 1;
    }
    Ok(ResourceGroupDefinition {
        name: item.name.clone(),
        vis: item.vis.duplicate(),
        attrs: crate::model::copy_strings(&item.attrs),
        generics: item.generics.clone(),
        generate_aliases,
        fields,
    })
}

} // verus!
