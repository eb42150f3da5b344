//! The keywords that a schema can hold, one module each.

use vstd::prelude::*;
use vstd::string::StringExecFns;
use crate::error::CompilationError;
use crate::text::{join_next, joined, lemma_joined_step};
use crate::validator::{validators_view, Validator, ValidatorView};

pub mod boolean;
pub mod items;
pub mod items_proofs;
pub mod type_;

verus! {

/// A validator set: every validator of it must accept an instance.
pub type Validators = Vec<Validator>;

/// What the compilation of one keyword gives.
pub type CompilationResult = Result<Validator, CompilationError>;

/// The validator sets of a tuple, in the order of the positions.
pub open spec fn sets_view(items: Seq<Validators>) -> Seq<Seq<ValidatorView>>
    decreases items,
{
    Seq::new(
        items.len(),
        |i: int|
            if 0 <= i < items.len() {
                validators_view(items[i]@)
            } else {
                Seq::empty()
            },
    )
}

/// The constraint that a compilation gave, or its error.
pub open spec fn outcome(result: CompilationResult) -> Result<ValidatorView, CompilationError> {
    match result {
        Ok(validator) => Ok(validator@),
        Err(error) => Err(error),
    }
}

/// The constraint that the compilation of a keyword gave, or its error;
/// nothing where the keyword did not apply.
pub open spec fn keyword_outcome(result: Option<CompilationResult>) -> Option<
    Result<ValidatorView, CompilationError>,
> {
    match result {
        Some(result) => Some(outcome(result)),
        None => None,
    }
}

/// The constraints that the compilation of a schema gave, or its error.
pub open spec fn set_outcome(result: Result<Validators, CompilationError>) -> Result<
    Seq<ValidatorView>,
    CompilationError,
> {
    match result {
        Ok(validators) => Ok(validators_view(validators@)),
        Err(error) => Err(error),
    }
}

/// The description of each validator of a set.
pub open spec fn descriptions(validators: Seq<ValidatorView>) -> Seq<Seq<char>>
    decreases validators, 0nat,
{
    Seq::new(
        validators.len(),
        |j: int|
            if 0 <= j < validators.len() {
                validators[j].description()
            } else {
                Seq::empty()
            },
    )
}

/// A validator set as a schema would write it: `true` and `false` as they
/// are where they stand alone, and otherwise the descriptions of the
/// validators between braces, with a comma and a space between each two.
pub open spec fn formatted(validators: Seq<ValidatorView>) -> Seq<char>
    decreases validators, 1nat,
{
    if validators.len() == 0 {
        "{}"@
    } else if validators.len() == 1 && (validators[0] is True || validators[0] is False) {
        validators[0].description()
    } else {
        "{"@ + joined(descriptions(validators), ", "@) + "}"@
    }
}

/// Each validator set of a tuple as a schema would write it.
pub open spec fn each_formatted(items: Seq<Seq<ValidatorView>>) -> Seq<Seq<char>>
    decreases items, 0nat,
{
    Seq::new(
        items.len(),
        |i: int|
            if 0 <= i < items.len() {
                formatted(items[i])
            } else {
                Seq::empty()
            },
    )
}

/// The validator sets of a tuple as a schema would write them, with a comma
/// and a space between each two.
pub open spec fn formatted_sets(items: Seq<Seq<ValidatorView>>) -> Seq<char>
    decreases items, 1nat,
{
    joined(each_formatted(items), ", "@)
}

/// Writes a validator set as a schema would.
pub fn format_validators(validators: &Vec<Validator>) -> (text: String)
    ensures
        text@ == formatted(validators_view(validators@)),
    decreases validators,
{
    if validators.len() == 0 {
        return String::from_str("{}");
    }
    if validators.len() == 1 {
        match &validators[0] {
            Validator::True(_) => {
                return validators[0].to_string();
            },
            Validator::False(_) => {
                return validators[0].to_string();
            },
            _ => {},
        }
    }
    let ghost parts = descriptions(validators_view(validators@));
    let mut inner = String::new();
    let mut j: usize = 0;
    while j < validators.len()
        invariant
            j <= validators.len(),
            parts == descriptions(validators_view(validators@)),
            inner@ == joined(parts.take(j as int), ", "@),
        decreases validators.len() - j,
    {
        let part = validators[j].to_string();
        proof {
            lemma_joined_step(parts, ", "@, j as int);
            assert(joined(parts.take(0), ", "@) =~= Seq::<char>::empty());
        }
        join_next(&mut inner, j == 0, ", ", part.as_str());
        assert(j == 0 ==> inner@ =~= parts[0]);
        j += 1;
    }
    assert(parts.take(validators.len() as int) =~= parts);
    let mut text = String::from_str("{");
    text.append(inner.as_str());
    text.append("}");
    text
}

/// Writes the validator sets of a tuple as a schema would.
pub fn format_vec_of_validators(items: &Vec<Validators>) -> (text: String)
    ensures
        text@ == formatted_sets(sets_view(items@)),
    decreases items,
{
    let ghost parts = each_formatted(sets_view(items@));
    let mut text = String::new();
    let mut i: usize = 0;
    while i < items.len()
        invariant
            i <= items.len(),
            parts == each_formatted(sets_view(items@)),
            text@ == joined(parts.take(i as int), ", "@),
        decreases items.len() - i,
    {
        let part = format_validators(&items[i]);
        proof {
            lemma_joined_step(parts, ", "@, i as int);
            assert(joined(parts.take(0), ", "@) =~= Seq::<char>::empty());
        }
        join_next(&mut text, i == 0, ", ", part.as_str());
        assert(i == 0 ==> text@ =~= parts[0]);
        i += 1;
    }
    assert(parts.take(items.len() as int) =~= parts);
    text
}

} // verus!
