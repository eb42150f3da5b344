//! The `type` keyword, in the form that names one type.

use vstd::prelude::*;
use vstd::string::StringExecFns;
use crate::compilation::context::CompilationContext;
use crate::compilation::JSONSchema;
use crate::error::{
    findings, CompilationError, ValidationError, ValidationErrorKind, ValidationErrorView,
};
use crate::json::{Json, JsonView};
use crate::keywords::{keyword_outcome, outcome, CompilationResult};
use crate::paths::InstancePath;
use crate::primitive_type::PrimitiveType;
use crate::validator::{Validator, ValidatorView};

verus! {

/// The validator that accepts the values of one primitive type.
#[derive(Debug)]
pub struct TypeValidator {
    kind: PrimitiveType,
}

impl View for TypeValidator {
    type V = PrimitiveType;

    closed spec fn view(&self) -> PrimitiveType {
        self.kind
    }
}

/// What the value of a `type` keyword compiles to: the name of a type
/// compiles to the constraint that a value has that type, and nothing else
/// can be compiled.
pub open spec fn compiled(schema: JsonView) -> Option<Result<ValidatorView, CompilationError>> {
    match schema {
        JsonView::String(name) => match PrimitiveType::named(name) {
            Some(kind) => Some(Ok(ValidatorView::Type(kind))),
            None => Some(Err(CompilationError::SchemaError)),
        },
        _ => Some(Err(CompilationError::SchemaError)),
    }
}

/// Compiles the value of a `type` keyword, which stands in the schema
/// object `parent`.
pub fn compile(
    parent: &Vec<(String, Json)>,
    schema: &Json,
    context: &CompilationContext,
) -> (result: Option<CompilationResult>)
    ensures
        keyword_outcome(result) == compiled(schema@),
{
    match schema {
        Json::String(name) => match PrimitiveType::from_name(name) {
            Some(kind) => Some(TypeValidator::compile(kind)),
            None => Some(Err(CompilationError::SchemaError)),
        },
        _ => Some(Err(CompilationError::SchemaError)),
    }
}

impl TypeValidator {
    /// The validator that asks for a value of type `kind`.
    pub fn compile(kind: PrimitiveType) -> (result: CompilationResult)
        ensures
            outcome(result) == Ok::<ValidatorView, CompilationError>(ValidatorView::Type(kind)),
    {
        Ok(Validator::Type(TypeValidator { kind }))
    }

    /// Whether `instance` has the type.
    pub fn is_valid(&self, schema: &JSONSchema, instance: &Json) -> (valid: bool)
        ensures
            valid == self@.holds(instance@),
    {
        self.kind.matches(instance)
    }

    /// One violation, at the path of `instance`, where `instance` has not
    /// the type, and none where it has.
    pub fn validate(
        &self,
        schema: &JSONSchema,
        instance: &Json,
        instance_path: &mut InstancePath,
    ) -> (errors: Vec<ValidationError>)
        ensures
            findings(errors@) == if self@.holds(instance@) {
                Seq::<ValidationErrorView>::empty()
            } else {
                seq![
                    ValidationErrorView {
                        instance_path: old(instance_path)@,
                        kind: ValidationErrorKind::Type { kind: self@ },
                    },
                ]
            },
            final(instance_path)@ == old(instance_path)@,
    {
        let mut errors: Vec<ValidationError> = Vec::new();
        if !self.is_valid(schema, instance) {
            errors.push(ValidationError::single_type_error(instance_path.to_vec(), self.kind));
            assert(findings(errors@) =~= seq![errors@[0]@]);
        } else {
            assert(findings(errors@) =~= Seq::<ValidationErrorView>::empty());
        }
        errors
    }

    /// The validator as a schema would write it.
    pub fn to_string(&self) -> (text: String)
        ensures
            text@ == "type: "@ + self@.name(),
    {
        let mut text = String::from_str("type: ");
        let name = self.kind.to_string();
        text.append(name.as_str());
        text
    }
}

} // verus!
