//! From a schema to the validators that enforce it.

use vstd::prelude::*;
use crate::compilation::context::{CompilationContext, Draft};
use crate::concat::{lemma_concat_all, lemma_concat_none, lemma_concat_step};
use crate::error::{
    findings, lemma_findings_concat, CompilationError, ValidationError, ValidationErrorView,
};
use crate::json::{named_values, Json, JsonView};
use crate::keywords::boolean::FalseValidator;
use crate::keywords::{items, set_outcome, type_, Validators};
use crate::paths::{InstancePath, PathChunkView};
use crate::text::is_word;
use crate::validator::{
    all_accept, all_errors, each_errors, lemma_all_accept_iff_no_errors, validators_view,
    Validator, ValidatorView,
};

pub mod context;
pub mod proofs;

verus! {

/// What the keyword `keyword` with the value `value` compiles to: nothing
/// where this crate does not know the keyword or the keyword does not apply.
pub open spec fn compiled_keyword(keyword: Seq<char>, value: JsonView) -> Option<
    Result<ValidatorView, CompilationError>,
>
    decreases value, 3nat,
{
    if keyword == "items"@ {
        items::compiled(value)
    } else if keyword == "type"@ {
        type_::compiled(value)
    } else {
        None
    }
}

/// What the first `n` members of a schema object compile to: the validators
/// of their keywords in the order of the members, or the error of the first
/// member that fails.
pub open spec fn compiled_members(members: Seq<(Seq<char>, JsonView)>, n: nat) -> Result<
    Seq<ValidatorView>,
    CompilationError,
>
    decreases members, n,
{
    if n == 0 || n > members.len() {
        Ok(Seq::empty())
    } else {
        match compiled_members(members, (n - 1) as nat) {
            Err(error) => Err(error),
            Ok(validators) => match compiled_keyword(members[n - 1].0, members[n - 1].1) {
                None => Ok(validators),
                Some(Ok(validator)) => Ok(validators.push(validator)),
                Some(Err(error)) => Err(error),
            },
        }
    }
}

/// What a schema compiles to. `true` constrains nothing, `false` allows
/// nothing, an object holds one constraint for each keyword, and no other
/// value is a schema.
pub open spec fn compiled_validators(schema: JsonView) -> Result<
    Seq<ValidatorView>,
    CompilationError,
>
    decreases schema, 0nat,
{
    match schema {
        JsonView::Bool(value) => if value {
            Ok(Seq::empty())
        } else {
            Ok(seq![ValidatorView::False])
        },
        JsonView::Object(members) => compiled_members(members, members.len()),
        _ => Err(CompilationError::SchemaError),
    }
}

/// Once a member has failed, the members after it change nothing.
pub proof fn lemma_compiled_members_fail(members: Seq<(Seq<char>, JsonView)>, k: nat, n: nat)
    requires
        k <= n <= members.len(),
        compiled_members(members, k) is Err,
    ensures
        compiled_members(members, n) == compiled_members(members, k),
    decreases n,
{
    if n > k {
        lemma_compiled_members_fail(members, k, (n - 1) as nat);
    }
}

/// Compiles a schema to its validator set. Of an object every member is
/// looked at, in the order of the members, and each keyword that applies
/// gives one validator; a member whose name is no keyword of this crate is
/// passed over.
pub fn compile_validators(schema: &Json, context: &CompilationContext) -> (result: Result<
    Validators,
    CompilationError,
>)
    ensures
        set_outcome(result) == compiled_validators(schema@),
    decreases schema, 0nat,
{
    match schema {
        Json::Bool(value) => {
            let mut validators: Validators = Vec::new();
            if !*value {
                match FalseValidator::compile() {
                    Ok(validator) => validators.push(validator),
                    Err(error) => return Err(error),
                }
                assert(validators_view(validators@) =~= seq![ValidatorView::False]);
            } else {
                assert(validators_view(validators@) =~= Seq::<ValidatorView>::empty());
            }
            Ok(validators)
        },
        Json::Object(object) => {
            let mut validators: Validators = Vec::with_capacity(object.len());
            let ghost members = named_values(object@);
            assert(validators_view(validators@) =~= Seq::<ValidatorView>::empty());
            let mut k: usize = 0;
            while k < object.len()
                invariant
                    k <= object.len(),
                    schema == Json::Object(*object),
                    members == named_values(object@),
                    compiled_members(members, k as nat) == Ok::<
                        Seq<ValidatorView>,
                        CompilationError,
                    >(validators_view(validators@)),
                decreases object.len() - k,
            {
                let keyword = &object[k].0;
                let subschema = &object[k].1;
                let ghost before = validators@;
                let outcome = if is_word(keyword, "items") {
                    items::compile(object, subschema, context)
                } else if is_word(keyword, "type") {
                    type_::compile(object, subschema, context)
                } else {
                    None
                };
                if let Some(compiled) = outcome {
                    match compiled {
                        Ok(validator) => {
                            validators.push(validator);
                            assert(validators_view(validators@) =~= validators_view(before).push(
                                validator@,
                            ));
                        },
                        Err(error) => {
                            proof {
                                lemma_compiled_members_fail(
                                    members,
                                    (k + 1) as nat,
                                    members.len(),
                                );
                            }
                            return Err(error);
                        },
                    }
                }
                k += 1;
            }
            Ok(validators)
        },
        _ => Err(CompilationError::SchemaError),
    }
}

/// A compiled schema: the validators of the document, which an instance
/// must all meet.
#[derive(Debug)]
pub struct JSONSchema {
    draft: Draft,
    validators: Validators,
}

impl View for JSONSchema {
    type V = Seq<ValidatorView>;

    closed spec fn view(&self) -> Seq<ValidatorView> {
        validators_view(self.validators@)
    }
}

impl JSONSchema {
    /// Compiles a schema document, read as one of `draft` or, where none is
    /// named, of the latest edition.
    pub fn compile(schema: &Json, draft: Option<Draft>) -> (result: Result<
        JSONSchema,
        CompilationError,
    >)
        ensures
            match result {
                Ok(compiled) => compiled_validators(schema@) == Ok::<
                    Seq<ValidatorView>,
                    CompilationError,
                >(compiled@),
                Err(error) => compiled_validators(schema@) == Err::<
                    Seq<ValidatorView>,
                    CompilationError,
                >(error),
            },
            result matches Ok(compiled) ==> compiled.draft() == match draft {
                Some(named) => named,
                None => Draft::Draft7,
            },
    {
        let draft = match draft {
            Some(draft) => draft,
            None => Draft::Draft7,
        };
        let context = CompilationContext::new(draft);
        match compile_validators(schema, &context) {
            Ok(validators) => Ok(JSONSchema { draft, validators }),
            Err(error) => Err(error),
        }
    }

    /// The edition that the document was read as.
    pub closed spec fn spec_draft(&self) -> Draft {
        self.draft
    }

    /// The edition that the document was read as.
    #[verifier::when_used_as_spec(spec_draft)]
    pub fn draft(&self) -> (draft: Draft)
        ensures
            draft == self.spec_draft(),
    {
        self.draft
    }

    /// Whether `instance` meets every constraint of the schema. The answer
    /// is known as soon as one validator rejects.
    pub fn is_valid(&self, instance: &Json) -> (valid: bool)
        ensures
            valid == all_accept(self@, instance@),
    {
        let mut j: usize = 0;
        while j < self.validators.len()
            invariant
                j <= self.validators.len(),
                forall|k: int| 0 <= k < j ==> (#[trigger] self@[k]).accepts(instance@),
            decreases self.validators.len() - j,
        {
            if !self.validators[j].is_valid(self, instance) {
                assert(!self@[j as int].accepts(instance@));
                return false;
            }
            j += 1;
        }
        true
    }

    /// Every violation of the schema by `instance`, each with its route from
    /// the root of the instance; `Ok` where there is none, which is where
    /// `is_valid` says yes.
    pub fn validate(&self, instance: &Json) -> (result: Result<(), Vec<ValidationError>>)
        ensures
            result is Ok <==> all_accept(self@, instance@),
            match result {
                Ok(_) => all_errors(self@, instance@, Seq::empty()).len() == 0,
                Err(errors) => errors@.len() > 0 && findings(errors@) == all_errors(
                    self@,
                    instance@,
                    Seq::empty(),
                ),
            },
    {
        let mut instance_path = InstancePath::new();
        let mut errors: Vec<ValidationError> = Vec::new();
        let ghost parts = each_errors(self@, instance@, Seq::empty());
        assert(findings(errors@) =~= Seq::<ValidationErrorView>::empty());
        proof {
            lemma_concat_none(parts);
        }
        let mut j: usize = 0;
        while j < self.validators.len()
            invariant
                j <= self.validators.len(),
                instance_path@ == Seq::<PathChunkView>::empty(),
                parts == each_errors(self@, instance@, Seq::empty()),
                findings(errors@) == parts.take(j as int).flatten(),
            decreases self.validators.len() - j,
        {
            let ghost so_far = errors@;
            let mut found = self.validators[j].validate(self, instance, &mut instance_path);
            proof {
                lemma_findings_concat(so_far, found@);
                lemma_concat_step(parts, j as int);
            }
            errors.append(&mut found);
            j += 1;
        }
        proof {
            lemma_concat_all(parts);
            lemma_all_accept_iff_no_errors(self@, instance@, Seq::empty());
        }
        if errors.len() == 0 {
            Ok(())
        } else {
            Err(errors)
        }
    }
}

} // verus!
