//! The `items` keyword: constraints on the elements of an array.

use vstd::prelude::*;
use vstd::string::StringExecFns;
use crate::compilation::context::CompilationContext;
use crate::compilation::{compile_validators, compiled_validators, JSONSchema};
use crate::concat::{lemma_concat_all, lemma_concat_none, lemma_concat_step};
use crate::error::{
    findings, lemma_findings_concat, CompilationError, ValidationError, ValidationErrorView,
};
use crate::json::{values, Json, JsonView};
use crate::keywords::boolean::TrueValidator;
use crate::keywords::{
    format_validators, format_vec_of_validators, formatted, formatted_sets, keyword_outcome,
    outcome, sets_view, CompilationResult, Validators,
};
use crate::paths::{InstancePath, PathChunk, PathChunkView};
use crate::validator::{
    all_accept, all_errors, each_errors, validators_view, Validator, ValidatorView,
};

verus! {

/// The number of positions that the tuple form checks: those that both the
/// schema and the instance have.
pub open spec fn paired(items: Seq<Seq<ValidatorView>>, elements: Seq<JsonView>) -> nat {
    if items.len() <= elements.len() {
        items.len()
    } else {
        elements.len()
    }
}

/// Whether the tuple form accepts `instance`: each element that has a
/// validator set of its own position is accepted by it.
pub open spec fn tuple_accepts(items: Seq<Seq<ValidatorView>>, instance: JsonView) -> bool
    decreases items,
{
    instance matches JsonView::Array(elements) ==> forall|i: int|
        0 <= i < items.len() && i < elements.len() ==> all_accept(#[trigger] items[i], elements[i])
}

/// What the tuple form finds at each position that it checks.
pub open spec fn position_errors(
    items: Seq<Seq<ValidatorView>>,
    elements: Seq<JsonView>,
    path: Seq<PathChunkView>,
) -> Seq<Seq<ValidationErrorView>>
    decreases items, 0nat,
{
    Seq::new(
        paired(items, elements),
        |i: int|
            if 0 <= i < items.len() && i < elements.len() {
                all_errors(items[i], elements[i], path.push(PathChunkView::Index(i)))
            } else {
                Seq::empty()
            },
    )
}

/// The violations that the tuple form finds in `instance`: those of the first
/// position, then those of the second, and so on.
pub open spec fn tuple_errors(
    items: Seq<Seq<ValidatorView>>,
    instance: JsonView,
    path: Seq<PathChunkView>,
) -> Seq<ValidationErrorView>
    decreases items, 1nat,
{
    match instance {
        JsonView::Array(elements) => position_errors(items, elements, path).flatten(),
        _ => Seq::empty(),
    }
}

/// Whether the list form accepts `instance`: every validator accepts every
/// element.
pub open spec fn list_accepts(validators: Seq<ValidatorView>, instance: JsonView) -> bool
    decreases validators,
{
    instance matches JsonView::Array(elements) ==> forall|j: int, i: int|
        0 <= j < validators.len() && 0 <= i < elements.len() ==> (#[trigger] validators[j]).accepts(
            #[trigger] elements[i],
        )
}

/// What one validator finds in each element.
pub open spec fn element_errors(
    validator: ValidatorView,
    elements: Seq<JsonView>,
    path: Seq<PathChunkView>,
) -> Seq<Seq<ValidationErrorView>>
    decreases validator, 1nat,
{
    Seq::new(
        elements.len(),
        |i: int|
            if 0 <= i < elements.len() {
                validator.errors(elements[i], path.push(PathChunkView::Index(i)))
            } else {
                Seq::empty()
            },
    )
}

/// What each validator of a set finds in the elements, from the first
/// element to the last.
pub open spec fn validator_errors(
    validators: Seq<ValidatorView>,
    elements: Seq<JsonView>,
    path: Seq<PathChunkView>,
) -> Seq<Seq<ValidationErrorView>>
    decreases validators, 0nat,
{
    Seq::new(
        validators.len(),
        |j: int|
            if 0 <= j < validators.len() {
                element_errors(validators[j], elements, path).flatten()
            } else {
                Seq::empty()
            },
    )
}

/// The violations that the list form finds in `instance`: those that the
/// first validator finds in all elements, then those of the second, and so on.
pub open spec fn list_errors(
    validators: Seq<ValidatorView>,
    instance: JsonView,
    path: Seq<PathChunkView>,
) -> Seq<ValidationErrorView>
    decreases validators, 1nat,
{
    match instance {
        JsonView::Array(elements) => validator_errors(validators, elements, path).flatten(),
        _ => Seq::empty(),
    }
}

/// What the first `n` schemas of a tuple compile to: one validator set for
/// each, in their order, or the error of the first schema that fails.
pub open spec fn compiled_positions(schemas: Seq<JsonView>, n: nat) -> Result<
    Seq<Seq<ValidatorView>>,
    CompilationError,
>
    decreases schemas, n,
{
    if n == 0 || n > schemas.len() {
        Ok(Seq::empty())
    } else {
        match compiled_positions(schemas, (n - 1) as nat) {
            Err(error) => Err(error),
            Ok(items) => match compiled_validators(schemas[n - 1]) {
                Ok(validators) => Ok(items.push(validators)),
                Err(error) => Err(error),
            },
        }
    }
}

/// What an array of schemas compiles to: the tuple form.
pub open spec fn compiled_tuple(schemas: Seq<JsonView>) -> Result<ValidatorView, CompilationError>
    decreases schemas, schemas.len() + 1,
{
    match compiled_positions(schemas, schemas.len()) {
        Ok(items) => Ok(ValidatorView::ItemsArray(items)),
        Err(error) => Err(error),
    }
}

/// What one schema for all elements compiles to: the list form.
pub open spec fn compiled_list(schema: JsonView) -> Result<ValidatorView, CompilationError>
    decreases schema, 1nat,
{
    match compiled_validators(schema) {
        Ok(validators) => Ok(ValidatorView::ItemsObject(validators)),
        Err(error) => Err(error),
    }
}

/// What the value of an `items` keyword compiles to. An array gives the
/// tuple form, an object and `false` the list form, `true` the validator
/// that accepts everything; to any other value the keyword does not apply.
pub open spec fn compiled(schema: JsonView) -> Option<Result<ValidatorView, CompilationError>>
    decreases schema, 2nat,
{
    match schema {
        JsonView::Array(schemas) => Some(compiled_tuple(schemas)),
        JsonView::Object(_) => Some(compiled_list(schema)),
        JsonView::Bool(value) => if value {
            Some(Ok(ValidatorView::True))
        } else {
            Some(compiled_list(schema))
        },
        _ => None,
    }
}

/// Once a schema of a tuple has failed, the schemas after it change nothing.
pub proof fn lemma_compiled_positions_fail(schemas: Seq<JsonView>, k: nat, n: nat)
    requires
        k <= n <= schemas.len(),
        compiled_positions(schemas, k) is Err,
    ensures
        compiled_positions(schemas, n) == compiled_positions(schemas, k),
    decreases n,
{
    if n > k {
        lemma_compiled_positions_fail(schemas, k, (n - 1) as nat);
    }
}

/// The tuple form: one validator set for each position of an array.
#[derive(Debug)]
pub struct ItemsArrayValidator {
    items: Vec<Validators>,
}

impl View for ItemsArrayValidator {
    type V = Seq<Seq<ValidatorView>>;

    closed spec fn view(&self) -> Seq<Seq<ValidatorView>>
        decreases self,
    {
        sets_view(self.items@)
    }
}

impl ItemsArrayValidator {
    /// Compiles each schema of a tuple to the validator set of its position.
    pub fn compile(schemas: &Vec<Json>, context: &CompilationContext) -> (result:
        CompilationResult)
        ensures
            outcome(result) == compiled_tuple(values(schemas@)),
        decreases schemas, schemas.len() + 1,
    {
        let mut items: Vec<Validators> = Vec::with_capacity(schemas.len());
        assert(sets_view(items@) =~= Seq::<Seq<ValidatorView>>::empty());
        let mut i: usize = 0;
        while i < schemas.len()
            invariant
                i <= schemas.len(),
                compiled_positions(values(schemas@), i as nat) == Ok::<
                    Seq<Seq<ValidatorView>>,
                    CompilationError,
                >(sets_view(items@)),
            decreases schemas.len() - i,
        {
            let ghost before = items@;
            match compile_validators(&schemas[i], context) {
                Ok(validators) => {
                    items.push(validators);
                    assert(sets_view(items@) =~= sets_view(before).push(
                        validators_view(validators@),
                    ));
                },
                Err(error) => {
                    proof {
                        lemma_compiled_positions_fail(
                            values(schemas@),
                            (i + 1) as nat,
                            schemas.len() as nat,
                        );
                    }
                    return Err(error);
                },
            }
            i += 1;
        }
        Ok(Validator::ItemsArray(ItemsArrayValidator { items }))
    }

    /// Whether `instance` is no array, or each of its elements that has a
    /// validator set of its own position is accepted by it.
    pub fn is_valid(&self, schema: &JSONSchema, instance: &Json) -> (valid: bool)
        ensures
            valid == tuple_accepts(self@, instance@),
        decreases self,
    {
        if let Json::Array(elements) = instance {
            let pairs = if self.items.len() <= elements.len() {
                self.items.len()
            } else {
                elements.len()
            };
            let mut i: usize = 0;
            while i < pairs
                invariant
                    i <= pairs,
                    pairs == paired(self@, values(elements@)),
                    instance@ == JsonView::Array(values(elements@)),
                    forall|k: int|
                        0 <= k < i ==> all_accept(#[trigger] self@[k], values(elements@)[k]),
                decreases pairs - i,
            {
                let validators = &self.items[i];
                let element = &elements[i];
                let mut j: usize = 0;
                while j < validators.len()
                    invariant
                        j <= validators.len(),
                        i < pairs,
                        pairs == paired(self@, values(elements@)),
                        validators == self.items[i as int],
                        element == elements[i as int],
                        instance@ == JsonView::Array(values(elements@)),
                        forall|k: int|
                            0 <= k < j ==> (#[trigger] self@[i as int][k]).accepts(element@),
                    decreases validators.len() - j,
                {
                    if !validators[j].is_valid(schema, element) {
                        assert(!self@[i as int][j as int].accepts(values(elements@)[i as int]));
                        return false;
                    }
                    j += 1;
                }
                i += 1;
            }
            true
        } else {
            true
        }
    }

    /// The tuple form as a schema would write it: the validator sets of the
    /// positions between brackets.
    pub fn to_string(&self) -> (text: String)
        ensures
            text@ == "items: ["@ + formatted_sets(self@) + "]"@,
        decreases self,
    {
        let mut text = String::from_str("items: [");
        let inner = format_vec_of_validators(&self.items);
        text.append(inner.as_str());
        text.append("]");
        text
    }

    /// The violations that the validator sets find in the elements of their
    /// own positions, position by position; none where `instance` is no
    /// array. The path is the same after the call as before it.
    pub fn validate(
        &self,
        schema: &JSONSchema,
        instance: &Json,
        instance_path: &mut InstancePath,
    ) -> (errors: Vec<ValidationError>)
        ensures
            findings(errors@) == tuple_errors(self@, instance@, old(instance_path)@),
            final(instance_path)@ == old(instance_path)@,
        decreases self,
    {
        let mut errors: Vec<ValidationError> = Vec::new();
        assert(findings(errors@) =~= Seq::<ValidationErrorView>::empty());
        if let Json::Array(elements) = instance {
            let ghost path = instance_path@;
            let ghost parts = position_errors(self@, values(elements@), path);
            let pairs = if self.items.len() <= elements.len() {
                self.items.len()
            } else {
                elements.len()
            };
            proof {
                lemma_concat_none(parts);
            }
            let mut idx: usize = 0;
            while idx < pairs
                invariant
                    idx <= pairs,
                    pairs == paired(self@, values(elements@)),
                    instance@ == JsonView::Array(values(elements@)),
                    instance_path@ == path,
                    parts == position_errors(self@, values(elements@), path),
                    findings(errors@) == parts.take(idx as int).flatten(),
                decreases pairs - idx,
            {
                let validators = &self.items[idx];
                let item = &elements[idx];
                let ghost inner = each_errors(
                    self@[idx as int],
                    item@,
                    path.push(PathChunkView::Index(idx as int)),
                );
                let ghost before = findings(errors@);
                proof {
                    lemma_concat_none(inner);
                }
                let mut j: usize = 0;
                while j < validators.len()
                    invariant
                        j <= validators.len(),
                        idx < pairs,
                        pairs == paired(self@, values(elements@)),
                        validators == self.items[idx as int],
                        item == elements[idx as int],
                        instance_path@ == path,
                        inner == each_errors(
                            self@[idx as int],
                            item@,
                            path.push(PathChunkView::Index(idx as int)),
                        ),
                        findings(errors@) == before + inner.take(j as int).flatten(),
                    decreases validators.len() - j,
                {
                    let ghost so_far = errors@;
                    instance_path.push(PathChunk::Index(idx));
                    let mut found = validators[j].validate(schema, item, instance_path);
                    instance_path.pop();
                    proof {
                        lemma_findings_concat(so_far, found@);
                        lemma_concat_step(inner, j as int);
                        assert(path.push(PathChunkView::Index(idx as int)).drop_last() =~= path);
                    }
                    errors.append(&mut found);
                    j += 1;
                }
                proof {
                    lemma_concat_all(inner);
                    lemma_concat_step(parts, idx as int);
                }
                idx += 1;
            }
            proof {
                lemma_concat_all(parts);
            }
        }
        errors
    }
}

/// The shared form: one validator set for every element of an array.
#[derive(Debug)]
pub struct ItemsObjectValidator {
    validators: Validators,
}

impl View for ItemsObjectValidator {
    type V = Seq<ValidatorView>;

    closed spec fn view(&self) -> Seq<ValidatorView>
        decreases self,
    {
        validators_view(self.validators@)
    }
}

impl ItemsObjectValidator {
    /// Compiles one schema to the validator set of every element.
    pub fn compile(schema: &Json, context: &CompilationContext) -> (result: CompilationResult)
        ensures
            outcome(result) == compiled_list(schema@),
        decreases schema, 1nat,
    {
        match compile_validators(schema, context) {
            Ok(validators) => Ok(Validator::ItemsObject(ItemsObjectValidator { validators })),
            Err(error) => Err(error),
        }
    }

    /// Whether `instance` is no array, or every validator accepts every
    /// element of it.
    pub fn is_valid(&self, schema: &JSONSchema, instance: &Json) -> (valid: bool)
        ensures
            valid == list_accepts(self@, instance@),
        decreases self,
    {
        if let Json::Array(elements) = instance {
            let mut j: usize = 0;
            while j < self.validators.len()
                invariant
                    j <= self.validators.len(),
                    instance@ == JsonView::Array(values(elements@)),
                    forall|k: int, i: int|
                        0 <= k < j && 0 <= i < elements.len() ==> (#[trigger] self@[k]).accepts(
                            #[trigger] values(elements@)[i],
                        ),
                decreases self.validators.len() - j,
            {
                let validator = &self.validators[j];
                let mut i: usize = 0;
                while i < elements.len()
                    invariant
                        i <= elements.len(),
                        j < self.validators.len(),
                        validator == self.validators[j as int],
                        instance@ == JsonView::Array(values(elements@)),
                        forall|k: int|
                            0 <= k < i ==> self@[j as int].accepts(#[trigger] values(elements@)[k]),
                    decreases elements.len() - i,
                {
                    if !validator.is_valid(schema, &elements[i]) {
                        assert(instance@->Array_0 == values(elements@));
                        assert(!self@[j as int].accepts(values(elements@)[i as int]));
                        return false;
                    }
                    i += 1;
                }
                j += 1;
            }
            true
        } else {
            true
        }
    }

    /// The list form as a schema would write it.
    pub fn to_string(&self) -> (text: String)
        ensures
            text@ == "items: "@ + formatted(self@),
        decreases self,
    {
        let mut text = String::from_str("items: ");
        let inner = format_validators(&self.validators);
        text.append(inner.as_str());
        text
    }

    /// The violations that each validator finds in the elements, validator
    /// by validator and, for each, element by element; none where `instance`
    /// is no array. The path is the same after the call as before it.
    pub fn validate(
        &self,
        schema: &JSONSchema,
        instance: &Json,
        instance_path: &mut InstancePath,
    ) -> (errors: Vec<ValidationError>)
        ensures
            findings(errors@) == list_errors(self@, instance@, old(instance_path)@),
            final(instance_path)@ == old(instance_path)@,
        decreases self,
    {
        let mut errors: Vec<ValidationError> = Vec::new();
        assert(findings(errors@) =~= Seq::<ValidationErrorView>::empty());
        if let Json::Array(elements) = instance {
            let ghost path = instance_path@;
            let ghost parts = validator_errors(self@, values(elements@), path);
            proof {
                lemma_concat_none(parts);
            }
            let mut j: usize = 0;
            while j < self.validators.len()
                invariant
                    j <= self.validators.len(),
                    instance@ == JsonView::Array(values(elements@)),
                    instance_path@ == path,
                    parts == validator_errors(self@, values(elements@), path),
                    findings(errors@) == parts.take(j as int).flatten(),
                decreases self.validators.len() - j,
            {
                let validator = &self.validators[j];
                let ghost inner = element_errors(self@[j as int], values(elements@), path);
                let ghost before = findings(errors@);
                proof {
                    lemma_concat_none(inner);
                }
                let mut idx: usize = 0;
                while idx < elements.len()
                    invariant
                        idx <= elements.len(),
                        j < self.validators.len(),
                        validator == self.validators[j as int],
                        instance_path@ == path,
                        inner == element_errors(self@[j as int], values(elements@), path),
                        findings(errors@) == before + inner.take(idx as int).flatten(),
                    decreases elements.len() - idx,
                {
                    let ghost so_far = errors@;
                    instance_path.push(PathChunk::Index(idx));
                    let mut found = validator.validate(schema, &elements[idx], instance_path);
                    instance_path.pop();
                    proof {
                        lemma_findings_concat(so_far, found@);
                        lemma_concat_step(inner, idx as int);
                        assert(path.push(PathChunkView::Index(idx as int)).drop_last() =~= path);
                    }
                    errors.append(&mut found);
                    idx += 1;
                }
                proof {
                    lemma_concat_all(inner);
                    lemma_concat_step(parts, j as int);
                }
                j += 1;
            }
            proof {
                lemma_concat_all(parts);
            }
        }
        errors
    }
}

/// Compiles the value of an `items` keyword, which stands in the schema
/// object `parent`.
pub fn compile(
    parent: &Vec<(String, Json)>,
    schema: &Json,
    context: &CompilationContext,
) -> (result: Option<CompilationResult>)
    ensures
        keyword_outcome(result) == compiled(schema@),
    decreases schema, 2nat,
{
    match schema {
        Json::Array(items) => Some(ItemsArrayValidator::compile(items, context)),
        Json::Object(_) => Some(ItemsObjectValidator::compile(schema, context)),
        Json::Bool(value) => {
            if *value {
                Some(TrueValidator::compile())
            } else {
                Some(ItemsObjectValidator::compile(schema, context))
            }
        },
        _ => None,
    }
}

} // verus!
