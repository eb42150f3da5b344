//! What can go wrong: a schema that cannot be compiled, and the findings of a
//! validation.

use vstd::prelude::*;
use vstd::string::StringExecFns;
use crate::paths::{route, PathChunk, PathChunkView};
use crate::primitive_type::PrimitiveType;

verus! {

/// Why a schema could not be compiled.
#[derive(Clone, Copy, Debug, PartialEq, Eq, Structural)]
pub enum CompilationError {
    /// A value stands where a schema is expected and is none, or a keyword
    /// holds a value that it cannot hold.
    SchemaError,
}

/// The constraint that an instance violates.
#[derive(Clone, Copy, Debug, PartialEq, Eq, Structural)]
pub enum ValidationErrorKind {
    /// The schema `false` allows no value.
    FalseSchema,
    /// The value is not of the type that the schema asks for.
    Type { kind: PrimitiveType },
}

impl ValidationErrorKind {
    /// The constraint in words.
    pub open spec fn description(self) -> Seq<char> {
        match self {
            ValidationErrorKind::FalseSchema => "false schema does not allow any value"@,
            ValidationErrorKind::Type { kind } => "value is not of type '"@ + kind.name() + "'"@,
        }
    }
}

/// One violation: the constraint, and where in the instance it was violated.
#[derive(Debug, PartialEq, Eq)]
pub struct ValidationError {
    /// The route from the root of the instance to the offending value.
    pub instance_path: Vec<PathChunk>,
    pub kind: ValidationErrorKind,
}

/// The mathematical value of a [`ValidationError`].
pub struct ValidationErrorView {
    pub instance_path: Seq<PathChunkView>,
    pub kind: ValidationErrorKind,
}

impl View for ValidationError {
    type V = ValidationErrorView;

    open spec fn view(&self) -> ValidationErrorView {
        ValidationErrorView { instance_path: route(self.instance_path@), kind: self.kind }
    }
}

/// The findings that a sequence of errors records.
pub open spec fn findings(errors: Seq<ValidationError>) -> Seq<ValidationErrorView> {
    Seq::new(errors.len(), |i: int| errors[i]@)
}

/// The findings of two sequences of errors, one after the other, are those
/// of the first and then those of the second.
pub proof fn lemma_findings_concat(first: Seq<ValidationError>, second: Seq<ValidationError>)
    ensures
        findings(first + second) == findings(first) + findings(second),
{
    assert(findings(first + second) =~= findings(first) + findings(second));
}

impl ValidationError {
    /// The finding that the schema `false` met a value at `instance_path`.
    pub fn false_schema(instance_path: Vec<PathChunk>) -> (error: ValidationError)
        ensures
            error@ == (ValidationErrorView {
                instance_path: route(instance_path@),
                kind: ValidationErrorKind::FalseSchema,
            }),
    {
        ValidationError { instance_path, kind: ValidationErrorKind::FalseSchema }
    }

    /// The finding that the value at `instance_path` is not of type `kind`.
    pub fn single_type_error(instance_path: Vec<PathChunk>, kind: PrimitiveType) -> (error:
        ValidationError)
        ensures
            error@ == (ValidationErrorView {
                instance_path: route(instance_path@),
                kind: ValidationErrorKind::Type { kind },
            }),
    {
        ValidationError { instance_path, kind: ValidationErrorKind::Type { kind } }
    }

    /// The violated constraint in words.
    pub fn to_string(&self) -> (text: String)
        ensures
            text@ == self@.kind.description(),
    {
        match self.kind {
            ValidationErrorKind::FalseSchema => String::from_str(
                "false schema does not allow any value",
            ),
            ValidationErrorKind::Type { kind } => {
                let mut text = String::from_str("value is not of type '");
                let name = kind.to_string();
                text.append(name.as_str());
                text.append("'");
                text
            },
        }
    }
}

} // verus!
