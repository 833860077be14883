//! Generating an implementation of the size protocol from the shape of a type
//! and the annotations on it.

pub mod config;
pub mod generate;
pub mod input;
pub mod plan;
pub mod replay;
pub mod text;

pub use config::{extract_ignored_generics, extract_ignored_generics_list, Directives, Rule};
pub use generate::{add_trait_bounds, derive_get_size};
pub use input::{
    Arguments, Attribute, Data, Delimiter, DeriveInput, Fields, GenericParam, Member, NamedField,
    Token, UnnamedField, Variant,
};
pub use plan::{Arm, Bindings, Body, DeriveError, Implementation, Step};
pub use replay::Inspect;
