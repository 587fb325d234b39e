use vstd::prelude::*;

verus! {

/// Visibility of a declaration. `Restricted` holds what stands inside
/// `pub(...)`, such as `crate`, `super` or `in crate::board`.
#[derive(Debug, PartialEq, Eq)]
pub enum Visibility {
    Public,
    Restricted(String),
    Private,
}

impl Visibility {
    pub fn duplicate(&self) -> (r: Visibility)
        ensures
            r == *self,
    {
        match self {
            Visibility::Public => Visibility::Public,
            Visibility::Restricted(s) => Visibility::Restricted(s.clone()),
            Visibility::Private => Visibility::Private,
        }
    }

    pub fn is_restricted(&self) -> (r: bool)
        ensures
            r == (*self is Restricted),
    {
        match self {
            Visibility::Restricted(_) => true,
            _ => false,
        }
    }
}

/// A type as written on a field: its text, and the generic arguments of its
/// last path segment (empty where it has none).
#[derive(Debug)]
pub struct TypeRef {
    pub text: String,
    pub args: Vec<String>,
}

/// The resource type that a declared type stands for: the last generic
/// argument where the type has any, else the type itself.
pub open spec fn underlying(t: TypeRef) -> Seq<char> {
    if t.args@.len() > 0 {
        t.args@.last()@
    } else {
        t.text@
    }
}

impl TypeRef {
    pub fn underlying_type(&self) -> (r: String)
        ensures
            r@ == underlying(*self),
    {
        let n = self.args.len();
        if n > 0 {
            self.args[n - 1].clone()
        } else {
            self.text.clone()
        }
    }
}

/// An attribute on a field, as written (`text`), with its path and, for a
/// `path = value` attribute, the value.
#[derive(Debug)]
pub struct Attribute {
    pub text: String,
    pub path: String,
    pub value: Option<String>,
}

/// The path of the attribute that sets a custom alias.
pub open spec fn alias_keyword() -> Seq<char> {
    seq!['a', 'l', 'i', 'a', 's']
}

/// The attribute is an `alias = Name` directive.
pub open spec fn is_alias_directive(a: Attribute) -> bool {
    a.path@ == alias_keyword() && a.value is Some
}

/// The shape of the annotated item.
#[derive(Debug, PartialEq, Eq, Structural, Clone, Copy)]
pub enum ItemKind {
    Struct,
    Other,
}

/// A field of the annotated item; `name` is `None` for a tuple field.
#[derive(Debug)]
pub struct ItemField {
    pub name: Option<String>,
    pub ty: TypeRef,
    pub attrs: Vec<Attribute>,
}

/// The annotated item as written.
#[derive(Debug)]
pub struct Item {
    pub kind: ItemKind,
    pub name: String,
    pub vis: Visibility,
    pub attrs: Vec<String>,
    pub generics: String,
    pub fields: Vec<ItemField>,
}

/// A field of a resource group after its alias directive is taken out.
#[derive(Debug)]
pub struct FieldSpec {
    pub name: String,
    pub ty: TypeRef,
    pub retained: Vec<String>,
    pub alias: Option<String>,
}

/// A parsed resource group.
#[derive(Debug)]
pub struct ResourceGroupDefinition {
    pub name: String,
    pub vis: Visibility,
    pub attrs: Vec<String>,
    pub generics: String,
    pub generate_aliases: bool,
    pub fields: Vec<FieldSpec>,
}

/// The handle type that owns a peripheral: `path<'scope, T>`, or `path<T>`
/// without a scope.
#[derive(Debug)]
pub struct OwnershipWrapper {
    pub path: String,
    pub scope: Option<String>,
}

/// `type name = target;` at visibility `vis`.
#[derive(Debug)]
pub struct AliasDecl {
    pub vis: Visibility,
    pub name: String,
    pub target: String,
}

/// A field of the rewritten record, of type `wrapper<resource>`.
#[derive(Debug)]
pub struct GeneratedField {
    pub attrs: Vec<String>,
    pub vis: Visibility,
    pub name: String,
    pub resource: String,
}

/// The rewritten record.
#[derive(Debug)]
pub struct Record {
    pub attrs: Vec<String>,
    pub vis: Visibility,
    pub name: String,
    pub generics: String,
    pub wrapper: OwnershipWrapper,
    pub fields: Vec<GeneratedField>,
}

/// One field initialiser of the extractor: `field: container.member`,
/// under the attributes `attrs`.
#[derive(Debug)]
pub struct ExtractorEntry {
    pub attrs: Vec<String>,
    pub field: String,
    pub member: String,
}

/// The extractor, which builds `record` from a container; where `reexport`
/// holds it is also re-exported at its visibility.
#[derive(Debug)]
pub struct Extractor {
    pub name: String,
    pub vis: Visibility,
    pub record: String,
    pub reexport: bool,
    pub entries: Vec<ExtractorEntry>,
}

/// All that one resource group produces.
#[derive(Debug)]
pub struct GeneratedArtifacts {
    pub aliases: Vec<AliasDecl>,
    pub record: Record,
    pub extractor: Extractor,
}

#[derive(Debug, PartialEq, Eq, Structural, Clone, Copy)]
pub enum GroupError {
    /// The item is not a struct with named fields, or the mode is unknown.
    InvalidInput,
    /// The alias of the field at this index is not an identifier, or the
    /// field holds two alias directives.
    MalformedAlias(usize),
    /// Two fields would declare the same alias.
    AliasCollision,
    /// Not exactly one ecosystem was selected.
    EcosystemConfiguration,
}

pub fn copy_strings(v: &Vec<String>) -> (r: Vec<String>)
    ensures
        r@ == v@,
{
    let mut r: Vec<String> = Vec::new();
    let mut i: usize = 0;
    while i < v.len()
        invariant
            i <= v@.len(),
            r@ == v@.take(i as int),
        decreases v@.len() - i,
    {
        r.push(v[i].clone());
        assert(r@ =~= v@.take(i + 1));
        i = i + 1;
    }
    assert(r@ =~= v@);
    r
}

impl TypeRef {
    pub fn duplicate(&self) -> (r: TypeRef)
        ensures
            r.text == self.text,
            r.args@ == self.args@,
    {
        TypeRef { text: self.text.clone(), args: copy_strings(&self.args) }
    }
}

impl OwnershipWrapper {
    pub fn duplicate(&self) -> (r: OwnershipWrapper)
        ensures
            r == *self,
    {
        let scope = match &self.scope {
            Some(s) => Some(s.clone()),
            None => None,
        };
        OwnershipWrapper { path: self.path.clone(), scope }
    }
}

} // verus!
