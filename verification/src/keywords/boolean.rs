//! The schemas `true` and `false`.

use vstd::prelude::*;
use vstd::string::StringExecFns;
use crate::compilation::JSONSchema;
use crate::error::{
    findings, CompilationError, ValidationError, ValidationErrorKind, ValidationErrorView,
};
use crate::json::Json;
use crate::keywords::{outcome, CompilationResult};
use crate::paths::InstancePath;
use crate::validator::{Validator, ValidatorView};

verus! {

/// The validator that accepts every value.
#[derive(Debug)]
pub struct TrueValidator {}

impl TrueValidator {
    /// The validator of the schema `true`.
    pub fn compile() -> (result: CompilationResult)
        ensures
            outcome(result) == Ok::<ValidatorView, CompilationError>(ValidatorView::True),
    {
        Ok(Validator::True(TrueValidator {}))
    }

    /// Yes, whatever `instance` is.
    pub fn is_valid(&self, schema: &JSONSchema, instance: &Json) -> (valid: bool)
        ensures
            valid,
    {
        true
    }

    /// No violation, whatever `instance` is.
    pub fn validate(
        &self,
        schema: &JSONSchema,
        instance: &Json,
        instance_path: &mut InstancePath,
    ) -> (errors: Vec<ValidationError>)
        ensures
            findings(errors@) == Seq::<ValidationErrorView>::empty(),
            final(instance_path)@ == old(instance_path)@,
    {
        let errors: Vec<ValidationError> = Vec::new();
        assert(findings(errors@) =~= Seq::<ValidationErrorView>::empty());
        errors
    }

    /// The validator as a schema would write it.
    pub fn to_string(&self) -> (text: String)
        ensures
            text@ == "true"@,
    {
        String::from_str("true")
    }
}

/// The validator that accepts no value.
#[derive(Debug)]
pub struct FalseValidator {}

impl FalseValidator {
    /// The validator of the schema `false`.
    pub fn compile() -> (result: CompilationResult)
        ensures
            outcome(result) == Ok::<ValidatorView, CompilationError>(ValidatorView::False),
    {
        Ok(Validator::False(FalseValidator {}))
    }

    /// No, whatever `instance` is.
    pub fn is_valid(&self, schema: &JSONSchema, instance: &Json) -> (valid: bool)
        ensures
            !valid,
    {
        false
    }

    /// One violation, at the path of `instance`, whatever `instance` is.
    pub fn validate(
        &self,
        schema: &JSONSchema,
        instance: &Json,
        instance_path: &mut InstancePath,
    ) -> (errors: Vec<ValidationError>)
        ensures
            findings(errors@) == seq![
                ValidationErrorView {
                    instance_path: old(instance_path)@,
                    kind: ValidationErrorKind::FalseSchema,
                },
            ],
            final(instance_path)@ == old(instance_path)@,
    {
        let mut errors: Vec<ValidationError> = Vec::new();
        errors.push(ValidationError::false_schema(instance_path.to_vec()));
        assert(findings(errors@) =~= seq![errors@[0]@]);
        errors
    }

    /// The validator as a schema would write it.
    pub fn to_string(&self) -> (text: String)
        ensures
            text@ == "false"@,
    {
        String::from_str("false")
    }
}

} // verus!
