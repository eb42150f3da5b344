//! What holds of the `items` keyword for every schema and every instance.

use vstd::prelude::*;
use crate::concat::{
    by_columns, by_rows, column, lemma_concat_all, lemma_concat_empty, lemma_concat_from,
    lemma_concat_holds, lemma_concat_step, lemma_grid_either_way, lemma_same_items, row,
};
use crate::error::{CompilationError, ValidationErrorView};
use crate::json::JsonView;
use crate::keywords::items::{
    compiled, element_errors, list_accepts, list_errors, paired, position_errors, tuple_accepts,
    tuple_errors, validator_errors,
};
use crate::paths::PathChunkView;
use crate::validator::{
    all_accept, all_errors, each_errors, lemma_accepts_iff_no_errors,
    lemma_all_accept_iff_no_errors, lemma_all_errors_lie_below, lemma_errors_lie_below,
    ValidatorView,
};

verus! {

/// The tuple form accepts an instance exactly when it finds no violation in
/// it.
pub proof fn lemma_tuple_accepts_iff_no_errors(
    items: Seq<Seq<ValidatorView>>,
    instance: JsonView,
    path: Seq<PathChunkView>,
)
    ensures
        tuple_accepts(items, instance) <==> tuple_errors(items, instance, path).len() == 0,
    decreases items,
{
    if let JsonView::Array(elements) = instance {
        let parts = position_errors(items, elements, path);
        lemma_concat_empty(parts);
        assert forall|i: int| 0 <= i < parts.len() implies (all_accept(
            #[trigger] items[i],
            elements[i],
        ) <==> parts[i].len() == 0) by {
            lemma_all_accept_iff_no_errors(
                items[i],
                elements[i],
                path.push(PathChunkView::Index(i)),
            );
        }
        if tuple_accepts(items, instance) {
            assert forall|i: int| 0 <= i < parts.len() implies (#[trigger] parts[i]).len() == 0 by {
                assert(all_accept(items[i], elements[i]));
            }
        } else {
            let i = choose|i: int|
                0 <= i < items.len() && i < elements.len() && !all_accept(
                    #[trigger] items[i],
                    elements[i],
                );
            assert(parts[i].len() != 0);
        }
    }
}

/// The list form accepts an instance exactly when it finds no violation in
/// it.
pub proof fn lemma_list_accepts_iff_no_errors(
    validators: Seq<ValidatorView>,
    instance: JsonView,
    path: Seq<PathChunkView>,
)
    ensures
        list_accepts(validators, instance) <==> list_errors(validators, instance, path).len() == 0,
    decreases validators,
{
    if let JsonView::Array(elements) = instance {
        let parts = validator_errors(validators, elements, path);
        lemma_concat_empty(parts);
        assert forall|j: int, i: int|
            0 <= j < validators.len() && 0 <= i < elements.len() implies ((
            #[trigger] validators[j]).accepts(#[trigger] elements[i]) <==> element_errors(
            validators[j],
            elements,
            path,
        )[i].len() == 0) by {
            lemma_accepts_iff_no_errors(
                validators[j],
                elements[i],
                path.push(PathChunkView::Index(i)),
            );
        }
        assert forall|j: int| 0 <= j < validators.len() implies ((#[trigger] parts[j]).len() == 0
            <==> forall|i: int|
            0 <= i < elements.len() ==> validators[j].accepts(#[trigger] elements[i])) by {
            let inner = element_errors(validators[j], elements, path);
            lemma_concat_empty(inner);
            if parts[j].len() == 0 {
                assert forall|i: int| 0 <= i < elements.len() implies validators[j].accepts(
                    #[trigger] elements[i],
                ) by {
                    assert(inner[i].len() == 0);
                }
            } else {
                let i = choose|i: int| 0 <= i < inner.len() && (#[trigger] inner[i]).len() != 0;
                assert(!validators[j].accepts(elements[i]));
            }
        }
        if list_accepts(validators, instance) {
            assert forall|j: int| 0 <= j < parts.len() implies (#[trigger] parts[j]).len() == 0 by {
                assert forall|i: int| 0 <= i < elements.len() implies validators[j].accepts(
                    #[trigger] elements[i],
                ) by {}
            }
        } else {
            let (j, i) = choose|j: int, i: int|
                0 <= j < validators.len() && 0 <= i < elements.len() && !(
                #[trigger] validators[j]).accepts(#[trigger] elements[i]);
            assert(parts[j].len() != 0);
        }
    }
}

/// Every violation that the tuple form reports lies at the path of the
/// instance or below it.
pub proof fn lemma_tuple_errors_lie_below(
    items: Seq<Seq<ValidatorView>>,
    instance: JsonView,
    path: Seq<PathChunkView>,
    error: ValidationErrorView,
)
    requires
        tuple_errors(items, instance, path).contains(error),
    ensures
        path.is_prefix_of(error.instance_path),
    decreases items,
{
    if let JsonView::Array(elements) = instance {
        let parts = position_errors(items, elements, path);
        let at = lemma_concat_from(parts, error);
        let below = path.push(PathChunkView::Index(at.0));
        assert(all_errors(items[at.0], elements[at.0], below).contains(error));
        lemma_all_errors_lie_below(items[at.0], elements[at.0], below, error);
        lemma_prefix_of_longer(path, PathChunkView::Index(at.0), error.instance_path);
    }
}

/// Every violation that the list form reports lies at the path of the
/// instance or below it.
pub proof fn lemma_list_errors_lie_below(
    validators: Seq<ValidatorView>,
    instance: JsonView,
    path: Seq<PathChunkView>,
    error: ValidationErrorView,
)
    requires
        list_errors(validators, instance, path).contains(error),
    ensures
        path.is_prefix_of(error.instance_path),
    decreases validators,
{
    if let JsonView::Array(elements) = instance {
        let parts = validator_errors(validators, elements, path);
        let at = lemma_concat_from(parts, error);
        let inner = element_errors(validators[at.0], elements, path);
        let within = lemma_concat_from(inner, error);
        let below = path.push(PathChunkView::Index(within.0));
        assert(validators[at.0].errors(elements[within.0], below).contains(error));
        lemma_errors_lie_below(validators[at.0], elements[within.0], below, error);
        lemma_prefix_of_longer(path, PathChunkView::Index(within.0), error.instance_path);
    }
}

/// An instance that is no array passes both forms, and neither reports
/// anything of it.
pub proof fn lemma_non_arrays_pass(
    items: Seq<Seq<ValidatorView>>,
    validators: Seq<ValidatorView>,
    instance: JsonView,
    path: Seq<PathChunkView>,
)
    requires
        !(instance is Array),
    ensures
        ValidatorView::ItemsArray(items).accepts(instance),
        ValidatorView::ItemsArray(items).errors(instance, path) == Seq::<
            ValidationErrorView,
        >::empty(),
        ValidatorView::ItemsObject(validators).accepts(instance),
        ValidatorView::ItemsObject(validators).errors(instance, path) == Seq::<
            ValidationErrorView,
        >::empty(),
{
}

/// The tuple form looks only at the positions that both the schema and the
/// instance have: another value at any position after them changes neither
/// its verdict nor what it reports.
pub proof fn lemma_tuple_ignores_unpaired(
    items: Seq<Seq<ValidatorView>>,
    elements: Seq<JsonView>,
    k: int,
    value: JsonView,
    path: Seq<PathChunkView>,
)
    requires
        paired(items, elements) <= k < elements.len(),
    ensures
        tuple_accepts(items, JsonView::Array(elements.update(k, value))) == tuple_accepts(
            items,
            JsonView::Array(elements),
        ),
        tuple_errors(items, JsonView::Array(elements.update(k, value)), path) == tuple_errors(
            items,
            JsonView::Array(elements),
            path,
        ),
{
    let changed = elements.update(k, value);
    assert(position_errors(items, changed, path) =~= position_errors(items, elements, path));
    assert(tuple_accepts(items, JsonView::Array(changed)) == tuple_accepts(
        items,
        JsonView::Array(elements),
    )) by {
        assert forall|i: int| 0 <= i < items.len() && i < elements.len() implies changed[i]
            == elements[i] by {}
    }
}

/// The list form accepts an array exactly when its validator set accepts
/// each element by itself.
pub proof fn lemma_list_accepts_elementwise(
    validators: Seq<ValidatorView>,
    elements: Seq<JsonView>,
)
    ensures
        list_accepts(validators, JsonView::Array(elements)) <==> forall|i: int|
            0 <= i < elements.len() ==> all_accept(validators, #[trigger] elements[i]),
{
    let instance = JsonView::Array(elements);
    assert(instance->Array_0 == elements);
    if list_accepts(validators, JsonView::Array(elements)) {
        assert forall|i: int| 0 <= i < elements.len() implies all_accept(
            validators,
            #[trigger] elements[i],
        ) by {
            assert forall|j: int| 0 <= j < validators.len() implies (
            #[trigger] validators[j]).accepts(elements[i]) by {}
        }
    }
    if forall|i: int| 0 <= i < elements.len() ==> all_accept(validators, #[trigger] elements[i]) {
        assert forall|j: int, i: int|
            0 <= j < validators.len() && 0 <= i < elements.len() implies (
        #[trigger] validators[j]).accepts(#[trigger] elements[i]) by {
            assert(all_accept(validators, elements[i]));
        }
    }
}

/// Of each element that its validator set rejects, the list form reports a
/// violation at the position of that element or below it. The result is
/// such a violation.
pub proof fn lemma_list_reports_rejected_element(
    validators: Seq<ValidatorView>,
    elements: Seq<JsonView>,
    path: Seq<PathChunkView>,
    i: int,
) -> (error: ValidationErrorView)
    requires
        0 <= i < elements.len(),
        !all_accept(validators, elements[i]),
    ensures
        list_errors(validators, JsonView::Array(elements), path).contains(error),
        path.push(PathChunkView::Index(i)).is_prefix_of(error.instance_path),
{
    let j = choose|j: int|
        0 <= j < validators.len() && !(#[trigger] validators[j]).accepts(elements[i]);
    let below = path.push(PathChunkView::Index(i));
    let found = validators[j].errors(elements[i], below);
    lemma_accepts_iff_no_errors(validators[j], elements[i], below);
    let error = found[0];
    assert(found.contains(error));
    lemma_errors_lie_below(validators[j], elements[i], below, error);
    let inner = element_errors(validators[j], elements, path);
    lemma_concat_holds(inner, i, 0);
    let parts = validator_errors(validators, elements, path);
    let m = choose|m: int| 0 <= m < parts[j].len() && parts[j][m] == error;
    lemma_concat_holds(parts, j, m);
    error
}

/// Of each position whose validator set rejects the element there, the
/// tuple form reports a violation at that position or below it. The result
/// is such a violation.
pub proof fn lemma_tuple_reports_rejected_position(
    items: Seq<Seq<ValidatorView>>,
    elements: Seq<JsonView>,
    path: Seq<PathChunkView>,
    i: int,
) -> (error: ValidationErrorView)
    requires
        0 <= i < paired(items, elements),
        !all_accept(items[i], elements[i]),
    ensures
        tuple_errors(items, JsonView::Array(elements), path).contains(error),
        path.push(PathChunkView::Index(i)).is_prefix_of(error.instance_path),
{
    let below = path.push(PathChunkView::Index(i));
    let found = all_errors(items[i], elements[i], below);
    lemma_all_accept_iff_no_errors(items[i], elements[i], below);
    let error = found[0];
    assert(found.contains(error));
    lemma_all_errors_lie_below(items[i], elements[i], below, error);
    let parts = position_errors(items, elements, path);
    lemma_concat_holds(parts, i, 0);
    error
}

/// What a validator set finds in each element, from the first validator to
/// the last.
pub open spec fn each_element_errors(
    validators: Seq<ValidatorView>,
    elements: Seq<JsonView>,
    path: Seq<PathChunkView>,
) -> Seq<Seq<ValidationErrorView>> {
    Seq::new(
        elements.len(),
        |i: int| all_errors(validators, elements[i], path.push(PathChunkView::Index(i))),
    )
}

/// The violations that the list form finds in `instance` when it goes
/// through the elements first and, for each, through the validators.
pub open spec fn list_errors_by_element(
    validators: Seq<ValidatorView>,
    instance: JsonView,
    path: Seq<PathChunkView>,
) -> Seq<ValidationErrorView> {
    match instance {
        JsonView::Array(elements) => each_element_errors(validators, elements, path).flatten(),
        _ => Seq::empty(),
    }
}

/// What the validator at `j` finds in the element at `i`; nothing where
/// there is no such validator or no such element.
pub open spec fn found_at(
    validators: Seq<ValidatorView>,
    elements: Seq<JsonView>,
    path: Seq<PathChunkView>,
) -> spec_fn(int, int) -> Seq<ValidationErrorView> {
    |j: int, i: int|
        if 0 <= j < validators.len() && 0 <= i < elements.len() {
            validators[j].errors(elements[i], path.push(PathChunkView::Index(i)))
        } else {
            Seq::empty()
        }
}

/// The list form reports the same violations, each as often, whether it
/// goes through the validators first or through the elements first: only
/// their order differs.
pub proof fn lemma_list_errors_in_either_order(
    validators: Seq<ValidatorView>,
    instance: JsonView,
    path: Seq<PathChunkView>,
)
    ensures
        list_errors(validators, instance, path).to_multiset() == list_errors_by_element(
            validators,
            instance,
            path,
        ).to_multiset(),
        list_errors(validators, instance, path).to_set() == list_errors_by_element(
            validators,
            instance,
            path,
        ).to_set(),
{
    if let JsonView::Array(elements) = instance {
        let cell = found_at(validators, elements, path);
        let rows = by_rows(cell, validators.len(), elements.len());
        let columns = by_columns(cell, validators.len(), elements.len());
        let parts = validator_errors(validators, elements, path);
        assert forall|j: int| 0 <= j < validators.len() implies #[trigger] parts[j] == rows[j] by {
            assert(element_errors(validators[j], elements, path) =~= row(cell, j, elements.len()));
        }
        assert(parts =~= rows);
        let others = each_element_errors(validators, elements, path);
        assert forall|i: int| 0 <= i < elements.len() implies #[trigger] others[i]
            == columns[i] by {
            assert(each_errors(validators, elements[i], path.push(PathChunkView::Index(i)))
                =~= column(cell, i, validators.len()));
        }
        assert(others =~= columns);
        lemma_grid_either_way(cell, validators.len(), elements.len());
    }
    lemma_same_items(
        list_errors(validators, instance, path),
        list_errors_by_element(validators, instance, path),
    );
}

/// The value `true` of the keyword compiles to the validator that accepts
/// every instance and reports nothing.
pub proof fn lemma_true_constrains_nothing(instance: JsonView, path: Seq<PathChunkView>)
    ensures
        compiled(JsonView::Bool(true)) == Some(
            Ok::<ValidatorView, CompilationError>(ValidatorView::True),
        ),
        ValidatorView::True.accepts(instance),
        ValidatorView::True.errors(instance, path) == Seq::<ValidationErrorView>::empty(),
{
}

/// The value `false` of the keyword compiles to the list form of the schema
/// `false`, which accepts of all arrays the empty one only.
pub proof fn lemma_false_allows_no_element(elements: Seq<JsonView>)
    ensures
        compiled(JsonView::Bool(false)) == Some(
            Ok::<ValidatorView, CompilationError>(
                ValidatorView::ItemsObject(seq![ValidatorView::False]),
            ),
        ),
        ValidatorView::ItemsObject(seq![ValidatorView::False]).accepts(JsonView::Array(elements))
            <==> elements.len() == 0,
{
    let validators = seq![ValidatorView::False];
    let instance = JsonView::Array(elements);
    assert(instance->Array_0 == elements);
    if elements.len() > 0 {
        assert(!validators[0].accepts(elements[0]));
    }
}

/// A path that a longer path is a prefix of is itself a prefix of what the
/// longer one is a prefix of.
pub proof fn lemma_prefix_of_longer(
    path: Seq<PathChunkView>,
    chunk: PathChunkView,
    whole: Seq<PathChunkView>,
)
    requires
        path.push(chunk).is_prefix_of(whole),
    ensures
        path.is_prefix_of(whole),
{
    let longer = path.push(chunk);
    assert forall|i: int| 0 <= i < path.len() implies path[i] == whole[i] by {
        assert(longer[i] == whole.subrange(0, longer.len() as int)[i]);
    }
    assert(path =~= whole.subrange(0, path.len() as int));
}

} // verus!
