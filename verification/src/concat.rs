//! Facts about the concatenation of a sequence of sequences.

use vstd::prelude::*;

verus! {

/// Nothing is concatenated from no parts.
pub proof fn lemma_concat_none<A>(parts: Seq<Seq<A>>)
    ensures
        parts.take(0).flatten() == Seq::<A>::empty(),
{
}

/// One more part adds its items at the end.
pub proof fn lemma_concat_step<A>(parts: Seq<Seq<A>>, n: int)
    requires
        0 <= n < parts.len(),
    ensures
        parts.take(n + 1).flatten() == parts.take(n).flatten() + parts[n],
{
    assert(parts.take(n + 1) =~= parts.take(n).push(parts[n]));
    parts.take(n).lemma_flatten_push(parts[n]);
}

/// The first parts are all parts when none is left out.
pub proof fn lemma_concat_all<A>(parts: Seq<Seq<A>>)
    ensures
        parts.take(parts.len() as int) == parts,
{
    assert(parts.take(parts.len() as int) =~= parts);
}

/// The first `n` parts concatenate to nothing exactly when each of them is
/// empty.
pub proof fn lemma_concat_empty_upto<A>(parts: Seq<Seq<A>>, n: int)
    requires
        0 <= n <= parts.len(),
    ensures
        parts.take(n).flatten().len() == 0 <==> forall|i: int|
            0 <= i < n ==> (#[trigger] parts[i]).len() == 0,
    decreases n,
{
    if n > 0 {
        lemma_concat_empty_upto(parts, n - 1);
        lemma_concat_step(parts, n - 1);
    }
}

/// The parts concatenate to nothing exactly when each of them is empty.
pub proof fn lemma_concat_empty<A>(parts: Seq<Seq<A>>)
    ensures
        parts.flatten().len() == 0 <==> forall|i: int|
            0 <= i < parts.len() ==> (#[trigger] parts[i]).len() == 0,
{
    lemma_concat_empty_upto(parts, parts.len() as int);
    lemma_concat_all(parts);
}

/// An item of one of the first `n` parts is an item of their concatenation.
pub proof fn lemma_concat_holds_upto<A>(parts: Seq<Seq<A>>, n: int, i: int, k: int)
    requires
        0 <= i < n <= parts.len(),
        0 <= k < parts[i].len(),
    ensures
        parts.take(n).flatten().contains(parts[i][k]),
    decreases n,
{
    lemma_concat_step(parts, n - 1);
    let before = parts.take(n - 1).flatten();
    if i < n - 1 {
        lemma_concat_holds_upto(parts, n - 1, i, k);
        let m = choose|m: int| 0 <= m < before.len() && before[m] == parts[i][k];
        assert((before + parts[n - 1])[m] == parts[i][k]);
    } else {
        assert((before + parts[n - 1])[before.len() + k] == parts[i][k]);
    }
}

/// An item of a part is an item of the concatenation.
pub proof fn lemma_concat_holds<A>(parts: Seq<Seq<A>>, i: int, k: int)
    requires
        0 <= i < parts.len(),
        0 <= k < parts[i].len(),
    ensures
        parts.flatten().contains(parts[i][k]),
{
    lemma_concat_holds_upto(parts, parts.len() as int, i, k);
    lemma_concat_all(parts);
}

/// An item of the concatenation of the first `n` parts is an item of one of
/// them: the result names the part and the place in it.
pub proof fn lemma_concat_from_upto<A>(parts: Seq<Seq<A>>, n: int, item: A) -> (at: (int, int))
    requires
        0 <= n <= parts.len(),
        parts.take(n).flatten().contains(item),
    ensures
        0 <= at.0 < n,
        0 <= at.1 < parts[at.0].len(),
        parts[at.0][at.1] == item,
    decreases n,
{
    if n == 0 {
        (0, 0)
    } else {
        lemma_concat_step(parts, n - 1);
        let before = parts.take(n - 1).flatten();
        let whole = before + parts[n - 1];
        let m = choose|m: int| 0 <= m < whole.len() && whole[m] == item;
        if m < before.len() {
            assert(before[m] == item);
            lemma_concat_from_upto(parts, n - 1, item)
        } else {
            (n - 1, m - before.len())
        }
    }
}

/// An item of the concatenation is an item of a part: the result names the
/// part and the place in it.
pub proof fn lemma_concat_from<A>(parts: Seq<Seq<A>>, item: A) -> (at: (int, int))
    requires
        parts.flatten().contains(item),
    ensures
        0 <= at.0 < parts.len(),
        0 <= at.1 < parts[at.0].len(),
        parts[at.0][at.1] == item,
{
    lemma_concat_all(parts);
    lemma_concat_from_upto(parts, parts.len() as int, item)
}

/// The cells of one row of a grid, from the first column to the last.
pub open spec fn row<A>(cell: spec_fn(int, int) -> Seq<A>, r: int, columns: nat) -> Seq<Seq<A>> {
    Seq::new(columns, |c: int| cell(r, c))
}

/// The cells of one column of a grid, from the first row to the last.
pub open spec fn column<A>(cell: spec_fn(int, int) -> Seq<A>, c: int, rows: nat) -> Seq<Seq<A>> {
    Seq::new(rows, |r: int| cell(r, c))
}

/// The rows of a grid, each concatenated.
pub open spec fn by_rows<A>(cell: spec_fn(int, int) -> Seq<A>, rows: nat, columns: nat) -> Seq<
    Seq<A>,
> {
    Seq::new(rows, |r: int| row(cell, r, columns).flatten())
}

/// The columns of a grid, each concatenated.
pub open spec fn by_columns<A>(cell: spec_fn(int, int) -> Seq<A>, rows: nat, columns: nat) -> Seq<
    Seq<A>,
> {
    Seq::new(columns, |c: int| column(cell, c, rows).flatten())
}

/// One more row adds its cells to each column.
proof fn lemma_columns_with_row<A>(cell: spec_fn(int, int) -> Seq<A>, rows: nat, columns: nat)
    ensures
        by_columns(cell, rows + 1, columns).flatten().to_multiset() == by_columns(
            cell,
            rows,
            columns,
        ).flatten().to_multiset().add(row(cell, rows as int, columns).flatten().to_multiset()),
    decreases columns,
{
    let taller = by_columns(cell, rows + 1, columns);
    let shorter = by_columns(cell, rows, columns);
    let added = row(cell, rows as int, columns);
    if columns == 0 {
        assert(taller.flatten() =~= Seq::<A>::empty());
        assert(shorter.flatten() =~= Seq::<A>::empty());
        assert(added.flatten() =~= Seq::<A>::empty());
        assert(Seq::<A>::empty().to_multiset().add(Seq::<A>::empty().to_multiset())
            =~= Seq::<A>::empty().to_multiset()) by {
            vstd::seq_lib::lemma_multiset_commutative(Seq::<A>::empty(), Seq::<A>::empty());
            assert(Seq::<A>::empty() + Seq::<A>::empty() =~= Seq::<A>::empty());
        }
    } else {
        let last = (columns - 1) as nat;
        lemma_columns_with_row(cell, rows, last);
        // The last column, with and without the new row.
        let tall_column = column(cell, last as int, rows + 1);
        let short_column = column(cell, last as int, rows);
        lemma_concat_step(tall_column, rows as int);
        lemma_concat_all(tall_column);
        assert(tall_column.take(rows as int) =~= short_column);
        let corner = cell(rows as int, last as int);
        assert(tall_column.flatten() == short_column.flatten() + corner);
        // The columns before the last.
        lemma_concat_step(taller, last as int);
        lemma_concat_all(taller);
        assert(taller.take(last as int) =~= by_columns(cell, rows + 1, last));
        lemma_concat_step(shorter, last as int);
        lemma_concat_all(shorter);
        assert(shorter.take(last as int) =~= by_columns(cell, rows, last));
        // The new row.
        lemma_concat_step(added, last as int);
        lemma_concat_all(added);
        assert(added.take(last as int) =~= row(cell, rows as int, last));
        let tall_before = by_columns(cell, rows + 1, last).flatten();
        let short_before = by_columns(cell, rows, last).flatten();
        let added_before = row(cell, rows as int, last).flatten();
        vstd::seq_lib::lemma_multiset_commutative(tall_before, tall_column.flatten());
        vstd::seq_lib::lemma_multiset_commutative(short_column.flatten(), corner);
        vstd::seq_lib::lemma_multiset_commutative(short_before, short_column.flatten());
        vstd::seq_lib::lemma_multiset_commutative(added_before, corner);
        assert(taller.flatten().to_multiset() =~= shorter.flatten().to_multiset().add(
            added.flatten().to_multiset(),
        ));
    }
}

/// A grid read row by row holds the same items, each as often, as the grid
/// read column by column.
pub proof fn lemma_grid_either_way<A>(cell: spec_fn(int, int) -> Seq<A>, rows: nat, columns: nat)
    ensures
        by_rows(cell, rows, columns).flatten().to_multiset() == by_columns(
            cell,
            rows,
            columns,
        ).flatten().to_multiset(),
    decreases rows,
{
    if rows == 0 {
        assert(by_rows(cell, rows, columns).flatten() =~= Seq::<A>::empty());
        let empty_columns = by_columns(cell, rows, columns);
        assert forall|c: int| 0 <= c < empty_columns.len() implies (
        #[trigger] empty_columns[c]).len() == 0 by {
            assert(column(cell, c, rows).flatten() =~= Seq::<A>::empty());
        }
        lemma_concat_empty(empty_columns);
        assert(empty_columns.flatten() =~= Seq::<A>::empty());
    } else {
        let above = (rows - 1) as nat;
        lemma_grid_either_way(cell, above, columns);
        lemma_columns_with_row(cell, above, columns);
        let all_rows = by_rows(cell, rows, columns);
        lemma_concat_step(all_rows, above as int);
        lemma_concat_all(all_rows);
        assert(all_rows.take(above as int) =~= by_rows(cell, above, columns));
        vstd::seq_lib::lemma_multiset_commutative(
            by_rows(cell, above, columns).flatten(),
            row(cell, above as int, columns).flatten(),
        );
    }
}

/// Two sequences that hold the same items, each as often, hold the same set
/// of items.
pub proof fn lemma_same_items<A>(first: Seq<A>, second: Seq<A>)
    requires
        first.to_multiset() == second.to_multiset(),
    ensures
        first.to_set() == second.to_set(),
{
    assert forall|item: A| first.contains(item) <==> second.contains(item) by {
        vstd::seq_lib::to_multiset_contains(first, item);
        vstd::seq_lib::to_multiset_contains(second, item);
    }
    assert(first.to_set() =~= second.to_set());
}

} // verus!
