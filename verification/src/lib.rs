//! Source-text generation for API data objects and their typestate builders.
//!
//! Given a resolved model of an API's objects and operations, this crate
//! produces the text of plain record types and of per-operation builder
//! types whose generic markers track, at compile time, which required
//! properties have been supplied.

pub mod builder;
pub mod docs;
pub mod emit;
pub mod laws;
pub mod layout;
pub mod models;
pub mod naming;
pub mod object;
pub mod record;
pub mod text;
pub mod typestate;
pub mod unify;
pub mod wrap;

pub use builder::{ApiObjectBuilder, Property, StructField, TypeParameters};
pub use models::{Coder, CollectionFormat, HttpMethod, ParameterIn};
pub use object::{ApiObject, ObjectField, OpRequirement, Parameter, PathOps, Response};
