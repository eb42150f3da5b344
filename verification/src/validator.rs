//! The compiled form of a constraint, and what it means for an instance.

use vstd::prelude::*;
use crate::compilation::JSONSchema;
use crate::concat::{lemma_concat_empty, lemma_concat_from};
use crate::error::{findings, ValidationError, ValidationErrorKind, ValidationErrorView};
use crate::json::{Json, JsonView};
use crate::keywords::boolean::{FalseValidator, TrueValidator};
use crate::keywords::items::{
    list_accepts, list_errors, tuple_accepts, tuple_errors, ItemsArrayValidator,
    ItemsObjectValidator,
};
use crate::keywords::items_proofs::{
    lemma_list_accepts_iff_no_errors, lemma_list_errors_lie_below,
    lemma_tuple_accepts_iff_no_errors, lemma_tuple_errors_lie_below,
};
use crate::keywords::type_::TypeValidator;
use crate::keywords::{formatted, formatted_sets};
use crate::paths::{InstancePath, PathChunkView};
use crate::primitive_type::PrimitiveType;

verus! {

/// The mathematical value of a compiled constraint.
pub enum ValidatorView {
    /// Accepts every value.
    True,
    /// Accepts no value.
    False,
    /// Accepts the values of one primitive type.
    Type(PrimitiveType),
    /// Constrains the elements of an array position by position.
    ItemsArray(Seq<Seq<ValidatorView>>),
    /// Constrains every element of an array in the same way.
    ItemsObject(Seq<ValidatorView>),
}

impl ValidatorView {
    /// Whether `instance` meets the constraint.
    pub open spec fn accepts(self, instance: JsonView) -> bool
        decreases self,
    {
        match self {
            ValidatorView::True => true,
            ValidatorView::False => false,
            ValidatorView::Type(kind) => kind.holds(instance),
            ValidatorView::ItemsArray(items) => tuple_accepts(items, instance),
            ValidatorView::ItemsObject(validators) => list_accepts(validators, instance),
        }
    }

    /// The violations of the constraint by `instance`, which stands at `path`,
    /// in the order in which they are reported.
    pub open spec fn errors(self, instance: JsonView, path: Seq<PathChunkView>) -> Seq<
        ValidationErrorView,
    >
        decreases self, 0nat,
    {
        match self {
            ValidatorView::True => Seq::empty(),
            ValidatorView::False => seq![
                ValidationErrorView { instance_path: path, kind: ValidationErrorKind::FalseSchema },
            ],
            ValidatorView::Type(kind) => if kind.holds(instance) {
                Seq::empty()
            } else {
                seq![
                    ValidationErrorView {
                        instance_path: path,
                        kind: ValidationErrorKind::Type { kind },
                    },
                ]
            },
            ValidatorView::ItemsArray(items) => tuple_errors(items, instance, path),
            ValidatorView::ItemsObject(validators) => list_errors(validators, instance, path),
        }
    }

    /// The constraint as a schema would write it.
    pub open spec fn description(self) -> Seq<char>
        decreases self,
    {
        match self {
            ValidatorView::True => "true"@,
            ValidatorView::False => "false"@,
            ValidatorView::Type(kind) => "type: "@ + kind.name(),
            ValidatorView::ItemsArray(items) => "items: ["@ + formatted_sets(items) + "]"@,
            ValidatorView::ItemsObject(validators) => "items: "@ + formatted(validators),
        }
    }
}

/// A compiled constraint: one of the keywords that this crate knows.
#[derive(Debug)]
pub enum Validator {
    True(TrueValidator),
    False(FalseValidator),
    Type(TypeValidator),
    ItemsArray(ItemsArrayValidator),
    ItemsObject(ItemsObjectValidator),
}

impl View for Validator {
    type V = ValidatorView;

    open spec fn view(&self) -> ValidatorView
        decreases self,
    {
        match self {
            Validator::True(_) => ValidatorView::True,
            Validator::False(_) => ValidatorView::False,
            Validator::Type(validator) => ValidatorView::Type(validator@),
            Validator::ItemsArray(validator) => ValidatorView::ItemsArray(validator@),
            Validator::ItemsObject(validator) => ValidatorView::ItemsObject(validator@),
        }
    }
}

/// The constraints that a validator set holds, in its order.
pub open spec fn validators_view(validators: Seq<Validator>) -> Seq<ValidatorView>
    decreases validators,
{
    Seq::new(
        validators.len(),
        |j: int|
            if 0 <= j < validators.len() {
                validators[j]@
            } else {
                ValidatorView::True
            },
    )
}

impl Validator {
    /// Whether `instance` meets the constraint.
    pub fn is_valid(&self, schema: &JSONSchema, instance: &Json) -> (valid: bool)
        ensures
            valid == self@.accepts(instance@),
        decreases self,
    {
        match self {
            Validator::True(validator) => validator.is_valid(schema, instance),
            Validator::False(validator) => validator.is_valid(schema, instance),
            Validator::Type(validator) => validator.is_valid(schema, instance),
            Validator::ItemsArray(validator) => validator.is_valid(schema, instance),
            Validator::ItemsObject(validator) => validator.is_valid(schema, instance),
        }
    }

    /// The violations of the constraint by `instance`, which stands at
    /// `instance_path`. The path is the same after the call as before it.
    pub fn validate(
        &self,
        schema: &JSONSchema,
        instance: &Json,
        instance_path: &mut InstancePath,
    ) -> (errors: Vec<ValidationError>)
        ensures
            findings(errors@) == self@.errors(instance@, old(instance_path)@),
            final(instance_path)@ == old(instance_path)@,
        decreases self,
    {
        match self {
            Validator::True(validator) => validator.validate(schema, instance, instance_path),
            Validator::False(validator) => validator.validate(schema, instance, instance_path),
            Validator::Type(validator) => validator.validate(schema, instance, instance_path),
            Validator::ItemsArray(validator) => validator.validate(schema, instance, instance_path),
            Validator::ItemsObject(validator) => validator.validate(
                schema,
                instance,
                instance_path,
            ),
        }
    }

    /// The constraint as a schema would write it.
    pub fn to_string(&self) -> (text: String)
        ensures
            text@ == self@.description(),
        decreases self,
    {
        match self {
            Validator::True(validator) => validator.to_string(),
            Validator::False(validator) => validator.to_string(),
            Validator::Type(validator) => validator.to_string(),
            Validator::ItemsArray(validator) => validator.to_string(),
            Validator::ItemsObject(validator) => validator.to_string(),
        }
    }
}

/// Whether every validator of a set accepts `instance`.
pub open spec fn all_accept(validators: Seq<ValidatorView>, instance: JsonView) -> bool
    decreases validators,
{
    forall|j: int| 0 <= j < validators.len() ==> (#[trigger] validators[j]).accepts(instance)
}

/// What each validator of a set finds in `instance`.
pub open spec fn each_errors(
    validators: Seq<ValidatorView>,
    instance: JsonView,
    path: Seq<PathChunkView>,
) -> Seq<Seq<ValidationErrorView>>
    decreases validators, 0nat,
{
    Seq::new(
        validators.len(),
        |j: int|
            if 0 <= j < validators.len() {
                validators[j].errors(instance, path)
            } else {
                Seq::empty()
            },
    )
}

/// The violations that the validators of a set find in `instance`, one
/// validator after the other.
pub open spec fn all_errors(
    validators: Seq<ValidatorView>,
    instance: JsonView,
    path: Seq<PathChunkView>,
) -> Seq<ValidationErrorView>
    decreases validators, 1nat,
{
    each_errors(validators, instance, path).flatten()
}

/// A validator accepts an instance exactly when it finds no violation in it.
pub proof fn lemma_accepts_iff_no_errors(
    validator: ValidatorView,
    instance: JsonView,
    path: Seq<PathChunkView>,
)
    ensures
        validator.accepts(instance) <==> validator.errors(instance, path).len() == 0,
    decreases validator,
{
    match validator {
        ValidatorView::ItemsArray(items) => lemma_tuple_accepts_iff_no_errors(
            items,
            instance,
            path,
        ),
        ValidatorView::ItemsObject(validators) => lemma_list_accepts_iff_no_errors(
            validators,
            instance,
            path,
        ),
        _ => {},
    }
}

/// A validator set accepts an instance exactly when none of its validators
/// finds a violation in it.
pub proof fn lemma_all_accept_iff_no_errors(
    validators: Seq<ValidatorView>,
    instance: JsonView,
    path: Seq<PathChunkView>,
)
    ensures
        all_accept(validators, instance) <==> all_errors(validators, instance, path).len() == 0,
    decreases validators,
{
    let parts = each_errors(validators, instance, path);
    lemma_concat_empty(parts);
    assert forall|j: int| 0 <= j < validators.len() implies ((#[trigger] validators[j]).accepts(
        instance,
    ) <==> parts[j].len() == 0) by {
        lemma_accepts_iff_no_errors(validators[j], instance, path);
    }
    if all_accept(validators, instance) {
        assert forall|j: int| 0 <= j < parts.len() implies (#[trigger] parts[j]).len() == 0 by {
            assert(validators[j].accepts(instance));
        }
    } else {
        let j = choose|j: int|
            0 <= j < validators.len() && !(#[trigger] validators[j]).accepts(instance);
        assert(parts[j].len() != 0);
    }
}

/// Every violation that a validator reports lies at the path of the instance
/// or below it.
pub proof fn lemma_errors_lie_below(
    validator: ValidatorView,
    instance: JsonView,
    path: Seq<PathChunkView>,
    error: ValidationErrorView,
)
    requires
        validator.errors(instance, path).contains(error),
    ensures
        path.is_prefix_of(error.instance_path),
    decreases validator,
{
    match validator {
        ValidatorView::ItemsArray(items) => lemma_tuple_errors_lie_below(
            items,
            instance,
            path,
            error,
        ),
        ValidatorView::ItemsObject(validators) => lemma_list_errors_lie_below(
            validators,
            instance,
            path,
            error,
        ),
        _ => {},
    }
}

/// Every violation that a validator set reports lies at the path of the
/// instance or below it.
pub proof fn lemma_all_errors_lie_below(
    validators: Seq<ValidatorView>,
    instance: JsonView,
    path: Seq<PathChunkView>,
    error: ValidationErrorView,
)
    requires
        all_errors(validators, instance, path).contains(error),
    ensures
        path.is_prefix_of(error.instance_path),
    decreases validators,
{
    let parts = each_errors(validators, instance, path);
    let at = lemma_concat_from(parts, error);
    assert(validators[at.0].errors(instance, path).contains(error));
    lemma_errors_lie_below(validators[at.0], instance, path, error);
}

} // verus!
