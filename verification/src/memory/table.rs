//! Tables: lists of rows in which every key occurs at most once.

use crate::order::{
    arrange, arranged, arranged_by_agreeing, arranged_is_in_order, arranged_is_permutation,
    arranged_is_stable,
    is_permutation, positions, text_order_is_strict, Sortable, TextsDown, TextsUp,
};
use crate::text::{text_less, text_order_is_total};
use vstd::prelude::*;

verus! {

/// What a list of rows holds.
pub open spec fn views<R: View>(rows: Seq<R>) -> Seq<R::V> {
    rows.map_values(|r: R| r@)
}

/// The position of the first row that `pick` picks, or the length if there is none.
pub open spec fn first<V>(rows: Seq<V>, pick: spec_fn(V) -> bool) -> int
    decreases rows.len(),
{
    if rows.len() == 0 || pick(rows[0]) {
        0
    } else {
        1 + first(rows.skip(1), pick)
    }
}

/// The first row that `pick` picks.
pub open spec fn found<V>(rows: Seq<V>, pick: spec_fn(V) -> bool) -> Option<V> {
    if first(rows, pick) < rows.len() {
        Some(rows[first(rows, pick)])
    } else {
        None
    }
}

/// Picks the rows with the key `k`.
pub open spec fn by_key<V, K>(key: spec_fn(V) -> K, k: K) -> spec_fn(V) -> bool {
    |v: V| key(v) == k
}

/// Picks the rows that `pick` does not pick.
pub open spec fn others<V>(pick: spec_fn(V) -> bool) -> spec_fn(V) -> bool {
    |v: V| !pick(v)
}

/// Whether no two rows have one key.
pub open spec fn distinct_by<V, K>(rows: Seq<V>, key: spec_fn(V) -> K) -> bool {
    forall|i: int, j: int|
        0 <= i < j < rows.len() ==> key(#[trigger] rows[i]) != key(#[trigger] rows[j])
}

/// The row with the key `k`.
pub open spec fn row_with<V, K>(rows: Seq<V>, key: spec_fn(V) -> K, k: K) -> Option<V> {
    found(rows, by_key(key, k))
}

/// The rows after `row` took the place of the one with its key, or was appended.
pub open spec fn stored<V, K>(rows: Seq<V>, key: spec_fn(V) -> K, row: V) -> Seq<V> {
    let at = first(rows, by_key(key, key(row)));
    if at < rows.len() {
        rows.update(at, row)
    } else {
        rows.push(row)
    }
}

/// A choice among rows.
pub trait Choice<R: View> {
    /// Whether a row is picked.
    spec fn picks(&self, row: R::V) -> bool;

    /// Whether a row is picked.
    fn pick(&self, row: &R) -> (r: bool)
        ensures
            r == self.picks(row@),
    ;
}

/// What a choice picks.
pub open spec fn picked<R: View, C: Choice<R>>(choice: C) -> spec_fn(R::V) -> bool {
    |v: R::V| choice.picks(v)
}

/// The position of the first row that is picked, or the number of rows if there is none.
pub fn find_first<R: View, C: Choice<R>>(rows: &Vec<R>, choice: &C) -> (r: usize)
    ensures
        r == first(views(rows@), picked::<R, C>(*choice)),
        r <= rows@.len(),
{
    let ghost all = views(rows@);
    let ghost pick = picked::<R, C>(*choice);
    assert(all.skip(0) =~= all);
    let mut i: usize = 0;
    while i < rows.len()
        invariant
            i <= rows.len(),
            all == views(rows@),
            pick == picked::<R, C>(*choice),
            first(all, pick) == i + first(all.skip(i as int), pick),
        decreases rows.len() - i,
    {
        assert(all.skip(i as int)[0] == rows@[i as int]@);
        if choice.pick(&rows[i]) {
            return i;
        }
        assert(all.skip(i as int).skip(1) =~= all.skip(i + 1));
        i = i + 1;
    }
    i
}

/// The rows that are not picked, in their order.
pub fn drop_picked<R: View, C: Choice<R>>(rows: Vec<R>, choice: &C) -> (r: Vec<R>)
    ensures
        views(r@) == views(rows@).filter(others(picked::<R, C>(*choice))),
        r@.len() <= rows@.len(),
{
    let ghost all = rows@;
    let ghost keep = others(picked::<R, C>(*choice));
    let mut out: Vec<R> = Vec::new();
    proof {
        reveal(Seq::filter);
        assert(views(all).take(0) =~= Seq::empty());
        assert(views(out@) =~= Seq::empty());
    }
    for row in it: rows
        invariant
            it.seq() == all,
            keep == others(picked::<R, C>(*choice)),
            views(out@) == views(all).take(it.index() as int).filter(keep),
    {
        proof {
            reveal(Seq::filter);
            let done = views(all).take(it.index() + 1);
            assert(done.drop_last() =~= views(all).take(it.index() as int));
            assert(done.last() == row@);
        }
        let ghost before = out@;
        if !choice.pick(&row) {
            out.push(row);
            assert(views(out@) =~= views(before).push(row@));
        }
    }
    assert(views(all).take(all.len() as int) =~= views(all));
    proof {
        views(all).lemma_filter_len(keep);
    }
    out
}

/// The positions of the rows that are picked, in their order.
pub open spec fn places<V>(rows: Seq<V>, pick: spec_fn(V) -> bool) -> Seq<int>
    decreases rows.len(),
{
    if rows.len() == 0 {
        Seq::empty()
    } else {
        let before = places(rows.drop_last(), pick);
        if pick(rows.last()) {
            before.push(rows.len() - 1)
        } else {
            before
        }
    }
}

/// The positions of the rows that are picked, in their order.
pub fn find_all<R: View, C: Choice<R>>(rows: &Vec<R>, choice: &C) -> (r: Vec<usize>)
    ensures
        r@.map_values(|i: usize| i as int) == places(views(rows@), picked::<R, C>(*choice)),
        forall|k: int| 0 <= k < r@.len() ==> (#[trigger] r@[k]) < rows@.len(),
{
    let ghost all = views(rows@);
    let ghost pick = picked::<R, C>(*choice);
    let mut out: Vec<usize> = Vec::new();
    assert(all.take(0) =~= Seq::empty());
    assert(out@.map_values(|i: usize| i as int) =~= Seq::empty());
    let mut i: usize = 0;
    while i < rows.len()
        invariant
            i <= rows.len(),
            all == views(rows@),
            pick == picked::<R, C>(*choice),
            out@.map_values(|i: usize| i as int) == places(all.take(i as int), pick),
            forall|k: int| 0 <= k < out@.len() ==> (#[trigger] out@[k]) < rows@.len(),
        decreases rows.len() - i,
    {
        assert(all.take(i + 1).drop_last() =~= all.take(i as int));
        assert(all.take(i + 1).last() == rows@[i as int]@);
        let ghost before = out@;
        if choice.pick(&rows[i]) {
            out.push(i);
            assert(out@.map_values(|i: usize| i as int) =~= before.map_values(
                |i: usize| i as int,
            ).push(i as int));
        }
        i = i + 1;
    }
    assert(all.take(i as int) =~= all);
    out
}

/// The rows that are picked are those at their places.
pub proof fn places_hold_picked<V>(rows: Seq<V>, pick: spec_fn(V) -> bool)
    ensures
        rows.filter(pick) == places(rows, pick).map_values(|i: int| rows[i]),
        forall|k: int|
            0 <= k < places(rows, pick).len() ==> 0 <= #[trigger] places(rows, pick)[k]
                < rows.len(),
    decreases rows.len(),
{
    reveal(Seq::filter);
    if rows.len() > 0 {
        let front = rows.drop_last();
        places_hold_picked(front, pick);
        assert(places(front, pick).map_values(|i: int| front[i]) =~= places(front, pick).map_values(
            |i: int| rows[i],
        ));
        assert(rows.filter(pick) =~= places(rows, pick).map_values(|i: int| rows[i]));
    } else {
        assert(rows.filter(pick) =~= places(rows, pick).map_values(|i: int| rows[i]));
    }
}

/// `first` is the position of a picked row before which none is picked, or the length.
pub proof fn first_finds<V>(rows: Seq<V>, pick: spec_fn(V) -> bool)
    ensures
        0 <= first(rows, pick) <= rows.len(),
        first(rows, pick) < rows.len() ==> pick(rows[first(rows, pick)]),
        forall|i: int| 0 <= i < first(rows, pick) ==> !pick(#[trigger] rows[i]),
    decreases rows.len(),
{
    if rows.len() > 0 && !pick(rows[0]) {
        first_finds(rows.skip(1), pick);
        assert forall|i: int| 0 <= i < first(rows, pick) implies !pick(#[trigger] rows[i]) by {
            if i > 0 {
                assert(rows[i] == rows.skip(1)[i - 1]);
            }
        }
    }
}

/// With distinct keys, each row is found by its key.
pub proof fn row_is_found<V, K>(rows: Seq<V>, key: spec_fn(V) -> K, at: int)
    requires
        distinct_by(rows, key),
        0 <= at < rows.len(),
    ensures
        first(rows, by_key(key, key(rows[at]))) == at,
        row_with(rows, key, key(rows[at])) == Some(rows[at]),
{
    first_finds(rows, by_key(key, key(rows[at])));
}

/// A key that no row has finds nothing, and what is found has the key.
pub proof fn found_has_key<V, K>(rows: Seq<V>, key: spec_fn(V) -> K, k: K)
    ensures
        (forall|i: int| 0 <= i < rows.len() ==> key(#[trigger] rows[i]) != k) ==> row_with(
            rows,
            key,
            k,
        ) is None,
        row_with(rows, key, k) matches Some(row) ==> key(row) == k && rows.contains(row),
{
    first_finds(rows, by_key(key, k));
}

/// Storing a row keeps the keys distinct, is found by its key, and changes no other row.
pub proof fn stored_is_found<V, K>(rows: Seq<V>, key: spec_fn(V) -> K, row: V, k: K)
    requires
        distinct_by(rows, key),
    ensures
        distinct_by(stored(rows, key, row), key),
        row_with(stored(rows, key, row), key, k) == if k == key(row) {
            Some(row)
        } else {
            row_with(rows, key, k)
        },
{
    let pick = by_key(key, key(row));
    first_finds(rows, pick);
    first_finds(rows, by_key(key, k));
    let at = first(rows, pick);
    let now = stored(rows, key, row);
    assert forall|i: int, j: int| 0 <= i < j < now.len() implies key(#[trigger] now[i]) != key(
        #[trigger] now[j],
    ) by {
        if at < rows.len() {
            assert(key(now[i]) == key(rows[i]));
            assert(key(now[j]) == key(rows[j]));
        } else {
            assert(now[i] == rows[i]);
            if j < rows.len() {
                assert(now[j] == rows[j]);
            }
        }
    }
    if k == key(row) {
        let place = if at < rows.len() { at } else { rows.len() as int };
        assert(now[place] == row);
        row_is_found(now, key, place);
    } else {
        let there = first(rows, by_key(key, k));
        if there < rows.len() {
            assert(now[there] == rows[there]);
            row_is_found(now, key, there);
        } else {
            assert forall|i: int| 0 <= i < now.len() implies key(#[trigger] now[i]) != k by {
                if i < rows.len() && i != at {
                    assert(now[i] == rows[i]);
                }
            }
            found_has_key(now, key, k);
        }
    }
}

/// Dropping rows keeps the keys of the others distinct; each of them is found as before, and the
/// dropped ones are not.
pub proof fn kept_is_found<V, K>(
    rows: Seq<V>,
    key: spec_fn(V) -> K,
    keep: spec_fn(V) -> bool,
    k: K,
)
    requires
        distinct_by(rows, key),
    ensures
        distinct_by(rows.filter(keep), key),
        row_with(rows.filter(keep), key, k) == match row_with(rows, key, k) {
            Some(row) if keep(row) => Some(row),
            _ => None,
        },
{
    let now = rows.filter(keep);
    lemma_filter_distinct(rows, key, keep);
    broadcast use vstd::seq_lib::group_filter_ensures;

    first_finds(rows, by_key(key, k));
    match row_with(rows, key, k) {
        Some(row) if keep(row) => {
            let at = first(rows, by_key(key, k));
            assert(now.contains(rows[at]));
            let place = choose|p: int| 0 <= p < now.len() && now[p] == rows[at];
            row_is_found(now, key, place);
        },
        _ => {
            assert forall|i: int| 0 <= i < now.len() implies key(#[trigger] now[i]) != k by {
                if key(now[i]) == k {
                    rows.lemma_filter_contains_rev(keep, now[i]);
                    let there = choose|p: int| 0 <= p < rows.len() && rows[p] == now[i];
                    row_is_found(rows, key, there);
                }
            }
            found_has_key(now, key, k);
        },
    }
}

/// Dropping rows keeps the keys of the others distinct.
proof fn lemma_filter_distinct<V, K>(
    rows: Seq<V>,
    key: spec_fn(V) -> K,
    keep: spec_fn(V) -> bool,
)
    requires
        distinct_by(rows, key),
    ensures
        distinct_by(rows.filter(keep), key),
    decreases rows.len(),
{
    reveal(Seq::filter);
    if rows.len() > 0 {
        let front = rows.drop_last();
        lemma_filter_distinct(front, key, keep);
        let kept = front.filter(keep);
        assert forall|i: int| 0 <= i < kept.len() implies key(#[trigger] kept[i]) != key(
            rows.last(),
        ) by {
            front.lemma_filter_contains_rev(keep, kept[i]);
            let p = choose|p: int| 0 <= p < front.len() && front[p] == kept[i];
            assert(rows[p] == front[p]);
        }
    }
}

/// Dropping the same rows again drops nothing.
pub proof fn kept_twice<V>(rows: Seq<V>, keep: spec_fn(V) -> bool)
    ensures
        rows.filter(keep).filter(keep) == rows.filter(keep),
    decreases rows.len(),
{
    reveal(Seq::filter);
    if rows.len() > 0 {
        kept_twice(rows.drop_last(), keep);
        if keep(rows.last()) {
            let kept = rows.drop_last().filter(keep);
            assert(kept.push(rows.last()).drop_last() =~= kept);
        }
    }
}

/// A text by which rows are sorted.
pub trait Label<R: View> {
    /// The text of a row.
    spec fn label(&self, row: R::V) -> Seq<char>;

    /// The text of a row.
    fn read(&self, row: &R) -> (r: String)
        ensures
            r@ == self.label(row@),
    ;
}

/// The text of each row.
pub open spec fn labels<R: View, L: Label<R>>(label: L) -> spec_fn(R::V) -> Seq<char> {
    |v: R::V| label.label(v)
}

/// Whether one of two rows has to come first, by their texts.
pub open spec fn comes_first(a: Seq<char>, b: Seq<char>, descending: bool) -> bool {
    if descending {
        text_less(b, a)
    } else {
        text_less(a, b)
    }
}

/// The rows that are picked, sorted by their texts; rows with the same text stay in their order.
pub open spec fn selection<V>(
    rows: Seq<V>,
    pick: spec_fn(V) -> bool,
    text: spec_fn(V) -> Seq<char>,
    descending: bool,
) -> Seq<V> {
    let chosen = rows.filter(pick);
    arranged(
        chosen.len(),
        |i: int, j: int| comes_first(text(chosen[i]), text(chosen[j]), descending),
    ).map_values(|k: int| chosen[k])
}

/// The positions of the rows that are picked, sorted by their texts.
pub fn select<R: View, C: Choice<R>, L: Label<R>>(
    rows: &Vec<R>,
    choice: &C,
    label: &L,
    descending: bool,
) -> (r: Vec<usize>)
    ensures
        forall|k: int| 0 <= k < r@.len() ==> (#[trigger] r@[k]) < rows@.len(),
        r@.map_values(|p: usize| rows@[p as int]@) == selection(
            views(rows@),
            picked::<R, C>(*choice),
            labels::<R, L>(*label),
            descending,
        ),
{
    let ghost all = views(rows@);
    let ghost pick = picked::<R, C>(*choice);
    let ghost text = labels::<R, L>(*label);
    let ghost chosen = all.filter(pick);
    let ghost at = places(all, pick);
    let mine: Vec<usize> = find_all(rows, choice);
    proof {
        places_hold_picked(all, pick);
    }
    let mut names: Vec<String> = Vec::new();
    let mut i: usize = 0;
    while i < mine.len()
        invariant
            i <= mine.len(),
            all == views(rows@),
            text == labels::<R, L>(*label),
            mine@.map_values(|i: usize| i as int) == at,
            forall|k: int| 0 <= k < mine@.len() ==> (#[trigger] mine@[k]) < rows@.len(),
            chosen == at.map_values(|i: int| all[i]),
            names@.len() == i,
            forall|k: int| 0 <= k < i ==> (#[trigger] names@[k])@ == text(chosen[k]),
        decreases mine.len() - i,
    {
        assert(at[i as int] == mine@[i as int]);
        assert(chosen[i as int] == rows@[mine@[i as int] as int]@);
        names.push(label.read(&rows[mine[i]]));
        i = i + 1;
    }
    let ghost wanted = |i: int, j: int| comes_first(text(chosen[i]), text(chosen[j]), descending);
    let ghost sorted = arranged(chosen.len(), wanted);
    assert(chosen.len() == mine@.len()) by {
        assert(at.len() == mine@.len());
    }
    let order: Vec<usize> = if descending {
        let things = TextsDown(&names);
        proof {
            arranged_by_agreeing(chosen.len(), |i: int, j: int| things.precedes(i, j), wanted);
        }
        arrange(&things)
    } else {
        let things = TextsUp(&names);
        proof {
            arranged_by_agreeing(chosen.len(), |i: int, j: int| things.precedes(i, j), wanted);
        }
        arrange(&things)
    };
    proof {
        arranged_is_permutation(chosen.len(), wanted);
        assert(positions(order@) == sorted);
        assert(order@.len() == chosen.len());
    }
    let mut out: Vec<usize> = Vec::new();
    let mut k: usize = 0;
    while k < order.len()
        invariant
            k <= order.len(),
            order@.len() == mine@.len(),
            all == views(rows@),
            positions(order@) == sorted,
            forall|i: int| 0 <= i < order@.len() ==> (#[trigger] order@[i]) < mine@.len(),
            mine@.map_values(|i: usize| i as int) == at,
            forall|i: int| 0 <= i < mine@.len() ==> (#[trigger] mine@[i]) < rows@.len(),
            chosen == at.map_values(|i: int| all[i]),
            out@.len() == k,
            forall|i: int| 0 <= i < k ==> (#[trigger] out@[i]) < rows@.len(),
            forall|i: int| 0 <= i < k ==> all[(#[trigger] out@[i]) as int] == chosen[sorted[i]],
        decreases order.len() - k,
    {
        assert(positions(order@)[k as int] == order@[k as int]);
        let place: usize = mine[order[k]];
        assert(at[order@[k as int] as int] == place);
        out.push(place);
        k = k + 1;
    }
    assert(out@.map_values(|p: usize| rows@[p as int]@) =~= sorted.map_values(|k: int| chosen[k]));
    out
}

/// A permutation holds every position.
proof fn lemma_permutation_hits(order: Seq<int>, n: nat, place: int)
    requires
        is_permutation(order, n),
        0 <= place < n,
    ensures
        exists|i: int| 0 <= i < order.len() && order[i] == place,
{
    let all = vstd::set_lib::set_int_range(0, n as int);
    vstd::set_lib::lemma_int_range(0, n as int);
    order.unique_seq_to_set();
    assert(order.to_set().subset_of(all));
    vstd::set_lib::lemma_subset_equality(order.to_set(), all);
    assert(all.contains(place));
    assert(order.to_set().contains(place));
}

/// A selection holds exactly the rows that are picked, as often as they occur.
pub proof fn selection_holds_picked<V>(
    rows: Seq<V>,
    pick: spec_fn(V) -> bool,
    text: spec_fn(V) -> Seq<char>,
    descending: bool,
    row: V,
)
    ensures
        selection(rows, pick, text, descending).len() == rows.filter(pick).len(),
        selection(rows, pick, text, descending).contains(row) <==> rows.contains(row) && pick(row),
{
    broadcast use vstd::seq_lib::group_filter_ensures;

    let chosen = rows.filter(pick);
    let wanted = |i: int, j: int| comes_first(text(chosen[i]), text(chosen[j]), descending);
    let order = arranged(chosen.len(), wanted);
    let out = selection(rows, pick, text, descending);
    arranged_is_permutation(chosen.len(), wanted);
    if out.contains(row) {
        let i = choose|i: int| 0 <= i < out.len() && out[i] == row;
        assert(chosen[order[i]] == row);
        rows.lemma_filter_contains_rev(pick, row);
    }
    if rows.contains(row) && pick(row) {
        let at = choose|p: int| 0 <= p < rows.len() && rows[p] == row;
        assert(chosen.contains(rows[at]));
        let place = choose|p: int| 0 <= p < chosen.len() && chosen[p] == row;
        lemma_permutation_hits(order, chosen.len(), place);
        let i = choose|i: int| 0 <= i < order.len() && order[i] == place;
        assert(out[i] == row);
    }
}

/// In a selection no row has to come before an earlier one; with distinct keys no row repeats.
pub proof fn selection_is_sorted<V, K>(
    rows: Seq<V>,
    pick: spec_fn(V) -> bool,
    text: spec_fn(V) -> Seq<char>,
    descending: bool,
    key: spec_fn(V) -> K,
)
    ensures
        forall|i: int, j: int|
            0 <= i < j < selection(rows, pick, text, descending).len() ==> !comes_first(
                text(#[trigger] selection(rows, pick, text, descending)[j]),
                text(#[trigger] selection(rows, pick, text, descending)[i]),
                descending,
            ),
        distinct_by(rows, key) ==> distinct_by(selection(rows, pick, text, descending), key),
{
    let chosen = rows.filter(pick);
    let wanted = |i: int, j: int| comes_first(text(chosen[i]), text(chosen[j]), descending);
    let order = arranged(chosen.len(), wanted);
    let out = selection(rows, pick, text, descending);
    arranged_is_permutation(chosen.len(), wanted);
    let name = |i: int| text(chosen[i]);
    text_order_is_strict(name);
    if descending {
        assert((|i: int, j: int| text_less(name(j), name(i))) =~= wanted);
    } else {
        assert((|i: int, j: int| text_less(name(i), name(j))) =~= wanted);
    }
    arranged_is_in_order(chosen.len(), wanted);
    assert forall|i: int, j: int| 0 <= i < j < out.len() implies !comes_first(
        text(#[trigger] out[j]),
        text(#[trigger] out[i]),
        descending,
    ) by {
        assert(!wanted(order[j], order[i]));
    }
    if distinct_by(rows, key) {
        lemma_filter_distinct(rows, key, pick);
        assert forall|i: int, j: int| 0 <= i < j < out.len() implies key(#[trigger] out[i]) != key(
            #[trigger] out[j],
        ) by {
            assert(order[i] != order[j]);
            if order[i] < order[j] {
                assert(key(chosen[order[i]]) != key(chosen[order[j]]));
            } else {
                assert(key(chosen[order[j]]) != key(chosen[order[i]]));
            }
        }
    }
}

/// In a selection rows with the same text stand in the order that they have among the rows that
/// are picked.
pub proof fn selection_is_stable<V>(
    rows: Seq<V>,
    pick: spec_fn(V) -> bool,
    text: spec_fn(V) -> Seq<char>,
    descending: bool,
)
    ensures
        exists|at: Seq<int>|
            {
                let out = selection(rows, pick, text, descending);
                &&& #[trigger] is_permutation(at, rows.filter(pick).len())
                &&& out.len() == at.len()
                &&& forall|k: int|
                    0 <= k < out.len() ==> #[trigger] out[k] == rows.filter(pick)[at[k]]
                &&& forall|a: int, b: int|
                    0 <= a < b < out.len() && text(#[trigger] out[a]) == text(#[trigger] out[b])
                        ==> at[a] < at[b]
            },
{
    let chosen = rows.filter(pick);
    let wanted = |i: int, j: int| comes_first(text(chosen[i]), text(chosen[j]), descending);
    let order = arranged(chosen.len(), wanted);
    let out = selection(rows, pick, text, descending);
    arranged_is_permutation(chosen.len(), wanted);
    arranged_is_stable(chosen.len(), wanted);
    assert forall|a: int, b: int|
        0 <= a < b < out.len() && text(#[trigger] out[a]) == text(
            #[trigger] out[b],
        ) implies order[a] < order[b] by {
        assert(order[a] < order[b] || wanted(order[a], order[b]));
        text_order_is_total(text(out[a]), text(out[b]));
    }
    assert(is_permutation(order, chosen.len()));
}

} // verus!
