//! Schemas that constrain the elements of JSON arrays, compiled to validators.
//!
//! A schema is compiled once, by [`JSONSchema::compile`], to a tree of
//! validators. The compiled schema then answers two questions of any
//! instance: whether the instance meets it ([`JSONSchema::is_valid`]), and
//! where and how the instance violates it ([`JSONSchema::validate`]).
//!
//! The keyword `items` is the heart of the crate. Its value compiles to one of
//! two forms: an array of schemas to one validator set for each position of
//! an instance array, a single schema to one validator set for every element.
//! What each form accepts and reports is defined in [`keywords::items`] and
//! proved of the code there; what follows from the definitions is proved in
//! [`keywords::items_proofs`] and [`compilation::proofs`].

pub mod compilation;
pub mod concat;
pub mod error;
pub mod json;
pub mod keywords;
pub mod paths;
pub mod primitive_type;
pub mod text;
pub mod validator;

pub use compilation::context::{CompilationContext, Draft};
pub use compilation::JSONSchema;
pub use error::{CompilationError, ValidationError, ValidationErrorKind};
pub use json::{Json, Number};
pub use paths::{InstancePath, PathChunk};
pub use primitive_type::PrimitiveType;
pub use validator::Validator;
