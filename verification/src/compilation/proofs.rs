//! What holds of the compilation of a schema and of the validator sets that
//! it gives.

use vstd::prelude::*;
use vstd::seq_lib::lemma_flatten_concat;
use crate::compilation::{compiled_keyword, compiled_members, compiled_validators};
use crate::error::CompilationError;
use crate::json::JsonView;
use crate::paths::PathChunkView;
use crate::validator::{all_accept, all_errors, each_errors, ValidatorView};

verus! {

/// Two validator sets in one accept what both accept.
pub proof fn lemma_all_accept_concat(
    first: Seq<ValidatorView>,
    second: Seq<ValidatorView>,
    instance: JsonView,
)
    ensures
        all_accept(first + second, instance) <==> all_accept(first, instance) && all_accept(
            second,
            instance,
        ),
{
    let both = first + second;
    if all_accept(both, instance) {
        assert forall|j: int| 0 <= j < first.len() implies (#[trigger] first[j]).accepts(
            instance,
        ) by {
            assert(both[j].accepts(instance));
        }
        assert forall|j: int| 0 <= j < second.len() implies (#[trigger] second[j]).accepts(
            instance,
        ) by {
            assert(both[first.len() + j].accepts(instance));
        }
    }
    if all_accept(first, instance) && all_accept(second, instance) {
        assert forall|j: int| 0 <= j < both.len() implies (#[trigger] both[j]).accepts(
            instance,
        ) by {
            if j < first.len() {
                assert(first[j].accepts(instance));
            } else {
                assert(second[j - first.len()].accepts(instance));
            }
        }
    }
}

/// Two validator sets in one report what the first reports and then what
/// the second reports.
pub proof fn lemma_all_errors_concat(
    first: Seq<ValidatorView>,
    second: Seq<ValidatorView>,
    instance: JsonView,
    path: Seq<PathChunkView>,
)
    ensures
        all_errors(first + second, instance, path) == all_errors(first, instance, path)
            + all_errors(second, instance, path),
{
    assert(each_errors(first + second, instance, path) =~= each_errors(first, instance, path)
        + each_errors(second, instance, path));
    lemma_flatten_concat(
        each_errors(first, instance, path),
        each_errors(second, instance, path),
    );
}

/// What two runs of members compile to, one after the other: the validators
/// of both, or the error of the first member that fails.
pub open spec fn in_turn(
    first: Result<Seq<ValidatorView>, CompilationError>,
    second: Result<Seq<ValidatorView>, CompilationError>,
) -> Result<Seq<ValidatorView>, CompilationError> {
    match first {
        Err(error) => Err(error),
        Ok(before) => match second {
            Err(error) => Err(error),
            Ok(after) => Ok(before + after),
        },
    }
}

/// The members after the first `n` have no part in what the first `n`
/// compile to.
pub proof fn lemma_compiled_members_prefix(
    first: Seq<(Seq<char>, JsonView)>,
    second: Seq<(Seq<char>, JsonView)>,
    n: nat,
)
    requires
        n <= first.len(),
    ensures
        compiled_members(first + second, n) == compiled_members(first, n),
    decreases n,
{
    if n > 0 {
        lemma_compiled_members_prefix(first, second, (n - 1) as nat);
        assert((first + second)[n - 1] == first[n - 1]);
    }
}

/// The members of an object compile one run after the other.
pub proof fn lemma_compiled_members_concat(
    first: Seq<(Seq<char>, JsonView)>,
    second: Seq<(Seq<char>, JsonView)>,
    n: nat,
)
    requires
        n <= second.len(),
    ensures
        compiled_members(first + second, first.len() + n) == in_turn(
            compiled_members(first, first.len()),
            compiled_members(second, n),
        ),
    decreases n,
{
    let whole = compiled_members(first + second, first.len() + n);
    let before = compiled_members(first, first.len());
    if n == 0 {
        lemma_compiled_members_prefix(first, second, first.len());
        if let Ok(validators) = before {
            assert(validators + Seq::<ValidatorView>::empty() =~= validators);
        }
    } else {
        lemma_compiled_members_concat(first, second, (n - 1) as nat);
        assert((first + second)[first.len() + n - 1] == second[n - 1]);
        if let Ok(validators) = before {
            if let Ok(after) = compiled_members(second, (n - 1) as nat) {
                assert forall|validator: ValidatorView|
                    (validators + after).push(validator) == validators + #[trigger] after.push(
                        validator,
                    ) by {
                    assert((validators + after).push(validator) =~= validators + after.push(
                        validator,
                    ));
                }
            }
        }
    }
}

/// A schema object says the same with a member `items` whose value is `true`
/// as without it: where one compiles, the other does, both accept the same
/// instances and both report the same of every instance; where one fails,
/// the other fails in the same way.
pub proof fn lemma_items_true_is_no_constraint(
    members: Seq<(Seq<char>, JsonView)>,
    at: int,
    instance: JsonView,
    path: Seq<PathChunkView>,
)
    requires
        0 <= at <= members.len(),
    ensures
        match (
            compiled_validators(JsonView::Object(members)),
            compiled_validators(
                JsonView::Object(members.insert(at, ("items"@, JsonView::Bool(true)))),
            ),
        ) {
            (Ok(without), Ok(with)) => {
                &&& all_accept(with, instance) == all_accept(without, instance)
                &&& all_errors(with, instance, path) == all_errors(without, instance, path)
            },
            (Err(without), Err(with)) => with == without,
            _ => false,
        },
{
    let member = ("items"@, JsonView::Bool(true));
    let before = members.take(at);
    let after = members.skip(at);
    let one = seq![member];
    assert(members =~= before + after);
    assert(members.insert(at, member) =~= (before + one) + after);
    lemma_compiled_members_concat(before, after, after.len());
    lemma_compiled_members_concat(before, one, 1);
    lemma_compiled_members_concat(before + one, after, after.len());
    assert(compiled_members(one, 0) == Ok::<Seq<ValidatorView>, CompilationError>(Seq::empty()));
    assert(compiled_keyword(one[0].0, one[0].1) == Some(
        Ok::<ValidatorView, CompilationError>(ValidatorView::True),
    ));
    assert(compiled_members(one, 1) == Ok::<Seq<ValidatorView>, CompilationError>(
        Seq::<ValidatorView>::empty().push(ValidatorView::True),
    ));
    let only = Seq::<ValidatorView>::empty().push(ValidatorView::True);
    if let Ok(first) = compiled_members(before, before.len()) {
        if let Ok(second) = compiled_members(after, after.len()) {
            lemma_all_accept_concat(first + only, second, instance);
            lemma_all_accept_concat(first, only, instance);
            lemma_all_accept_concat(first, second, instance);
            lemma_all_errors_concat(first + only, second, instance, path);
            lemma_all_errors_concat(first, only, instance, path);
            lemma_all_errors_concat(first, second, instance, path);
            assert(only[0].accepts(instance));
            assert(each_errors(only, instance, path) =~= seq![Seq::empty()]);
            assert(all_errors(only, instance, path) =~= Seq::empty()) by {
                reveal_with_fuel(Seq::flatten, 2);
            }
            assert(all_errors(first, instance, path) + Seq::empty() =~= all_errors(
                first,
                instance,
                path,
            ));
        }
    }
}

} // verus!
