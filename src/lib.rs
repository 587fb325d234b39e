//! Generation of peripheral resource groups: type aliases, a record of owned
//! peripheral handles, and an extractor that moves those handles out of a
//! peripherals container.

pub mod ecosystem;
pub mod generate;
pub mod laws;
pub mod model;
pub mod naming;
pub mod parse;

pub use ecosystem::{ownership_wrapper, select_ecosystem, Ecosystem};
pub use generate::{generate, resource_group};
pub use model::{
    AliasDecl, Attribute, Extractor, ExtractorEntry, FieldSpec, GeneratedArtifacts, GeneratedField,
    GroupError, Item, ItemField, ItemKind, OwnershipWrapper, Record, ResourceGroupDefinition,
    TypeRef, Visibility,
};
pub use naming::check_ident;
pub use parse::parse_definition;
