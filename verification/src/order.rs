//! Sorting: the order in which things come out, as the positions that they have before.

use crate::text::{text_before, text_less, text_order_is_total, text_order_is_transitive};
use vstd::prelude::*;

verus! {

/// `order` with position `i` put in: behind everything that it does not precede.
pub open spec fn placed(order: Seq<int>, i: int, precedes: spec_fn(int, int) -> bool) -> Seq<int>
    decreases order.len(),
{
    if order.len() == 0 || !precedes(i, order.last()) {
        order.push(i)
    } else {
        placed(order.drop_last(), i, precedes).push(order.last())
    }
}

/// The positions below `n` in the order that `precedes` asks for. Of two positions of which
/// neither precedes the other, the lower one comes first.
pub open spec fn arranged(n: nat, precedes: spec_fn(int, int) -> bool) -> Seq<int>
    decreases n,
{
    if n == 0 {
        Seq::empty()
    } else {
        placed(arranged((n - 1) as nat, precedes), n - 1, precedes)
    }
}

/// A list of positions.
pub open spec fn positions(order: Seq<usize>) -> Seq<int> {
    order.map_values(|i: usize| i as int)
}

/// Things that are sorted by their positions.
pub trait Sortable {
    /// How many there are.
    spec fn size(&self) -> nat;

    /// Whether the one at `i` has to come before the one at `j`.
    spec fn precedes(&self, i: int, j: int) -> bool;

    /// How many there are.
    fn count(&self) -> (r: usize)
        ensures
            r == self.size(),
    ;

    /// Whether the one at `i` has to come before the one at `j`.
    fn goes_before(&self, i: usize, j: usize) -> (r: bool)
        requires
            i < self.size(),
            j < self.size(),
        ensures
            r == self.precedes(i as int, j as int),
    ;
}

/// The positions of `things`, sorted.
pub fn arrange<S: Sortable>(things: &S) -> (r: Vec<usize>)
    ensures
        positions(r@) == arranged(things.size(), |i: int, j: int| things.precedes(i, j)),
        forall|k: int| 0 <= k < r@.len() ==> (#[trigger] r@[k]) < things.size(),
{
    let ghost precedes = |i: int, j: int| things.precedes(i, j);
    let n: usize = things.count();
    let mut order: Vec<usize> = Vec::new();
    assert(positions(order@) =~= Seq::empty());
    let mut i: usize = 0;
    while i < n
        invariant
            i <= n,
            n == things.size(),
            precedes == (|i: int, j: int| things.precedes(i, j)),
            positions(order@) == arranged(i as nat, precedes),
            forall|k: int| 0 <= k < order@.len() ==> (#[trigger] order@[k]) < i,
        decreases n - i,
    {
        let ghost before = positions(order@);
        let mut at: usize = order.len();
        assert(before.take(at as int) =~= before);
        assert(placed(before, i as int, precedes) =~= placed(before.take(at as int), i as int, precedes)
            + before.skip(at as int));
        while at > 0 && things.goes_before(i, order[at - 1])
            invariant
                at <= order.len(),
                i < n,
                n == things.size(),
                before == positions(order@),
                precedes == (|i: int, j: int| things.precedes(i, j)),
                forall|k: int| 0 <= k < order@.len() ==> (#[trigger] order@[k]) < i,
                placed(before, i as int, precedes) == placed(
                    before.take(at as int),
                    i as int,
                    precedes,
                ) + before.skip(at as int),
            decreases at,
        {
            let ghost front = before.take(at as int);
            assert(front.last() == order@[at - 1]);
            assert(precedes(i as int, front.last()));
            assert(front.drop_last() =~= before.take(at - 1));
            assert(placed(front.drop_last(), i as int, precedes).push(front.last()) + before.skip(
                at as int,
            ) =~= placed(front.drop_last(), i as int, precedes) + before.skip(at - 1));
            at = at - 1;
        }
        let ghost front = before.take(at as int);
        assert(placed(front, i as int, precedes) == front.push(i as int)) by {
            if at > 0 {
                assert(front.last() == order@[at - 1]);
            }
        }
        order.insert(at, i);
        assert(positions(order@) =~= front.push(i as int) + before.skip(at as int));
        i = i + 1;
    }
    order
}

/// Whether every position below `n` occurs in `order` once, and nothing else does.
pub open spec fn is_permutation(order: Seq<int>, n: nat) -> bool {
    &&& order.len() == n
    &&& order.no_duplicates()
    &&& forall|k: int| 0 <= k < order.len() ==> 0 <= #[trigger] order[k] < n
}

/// Whether `precedes` is a strict order in which things may tie.
pub open spec fn is_strict_order(precedes: spec_fn(int, int) -> bool) -> bool {
    &&& forall|i: int, j: int| #[trigger] precedes(i, j) ==> !precedes(j, i)
    &&& forall|i: int, j: int, k: int|
        !#[trigger] precedes(i, j) && !#[trigger] precedes(j, k) ==> !precedes(i, k)
}

/// Whether no position in `order` has to come before an earlier one.
pub open spec fn is_in_order(order: Seq<int>, precedes: spec_fn(int, int) -> bool) -> bool {
    forall|a: int, b: int|
        0 <= a < b < order.len() ==> !precedes(#[trigger] order[b], #[trigger] order[a])
}

/// Putting in a position adds that position and keeps the others in their order.
proof fn lemma_placed(order: Seq<int>, i: int, precedes: spec_fn(int, int) -> bool)
    ensures
        exists|at: int|
            0 <= at <= order.len() && #[trigger] placed(order, i, precedes) =~= order.take(at).push(i)
                + order.skip(at) && (at > 0 ==> !precedes(i, order[at - 1])) && (forall|k: int|
                at <= k < order.len() ==> precedes(i, #[trigger] order[k])),
    decreases order.len(),
{
    if order.len() == 0 || !precedes(i, order.last()) {
        let at = order.len() as int;
        assert(order.push(i) =~= order.take(at).push(i) + order.skip(at));
        assert(placed(order, i, precedes) =~= order.take(at).push(i) + order.skip(at));
    } else {
        let front = order.drop_last();
        lemma_placed(front, i, precedes);
        let at = choose|at: int|
            0 <= at <= front.len() && #[trigger] placed(front, i, precedes) =~= front.take(at).push(i)
                + front.skip(at) && (at > 0 ==> !precedes(i, front[at - 1])) && (forall|k: int|
                at <= k < front.len() ==> precedes(i, #[trigger] front[k]));
        assert(front.take(at) =~= order.take(at));
        assert(front.skip(at).push(order.last()) =~= order.skip(at));
        assert(placed(order, i, precedes) =~= order.take(at).push(i) + order.skip(at));
        assert forall|k: int| at <= k < order.len() implies precedes(i, #[trigger] order[k]) by {
            if k < front.len() {
                assert(order[k] == front[k]);
            }
        }
        assert(at > 0 ==> order[at - 1] == front[at - 1]);
    }
}

/// Sorting loses nothing and repeats nothing.
pub proof fn arranged_is_permutation(n: nat, precedes: spec_fn(int, int) -> bool)
    ensures
        is_permutation(arranged(n, precedes), n),
    decreases n,
{
    if n > 0 {
        let order = arranged((n - 1) as nat, precedes);
        let i = n - 1;
        arranged_is_permutation((n - 1) as nat, precedes);
        lemma_placed(order, i, precedes);
        let at = choose|at: int|
            0 <= at <= order.len() && #[trigger] placed(order, i, precedes) =~= order.take(at).push(i)
                + order.skip(at) && (at > 0 ==> !precedes(i, order[at - 1])) && (forall|k: int|
                at <= k < order.len() ==> precedes(i, #[trigger] order[k]));
        let now = placed(order, i, precedes);
        assert forall|a: int| 0 <= a < now.len() implies 0 <= #[trigger] now[a] < n && now[a] == (
        if a < at {
            order[a]
        } else if a == at {
            i
        } else {
            order[a - 1]
        }) by {}
    }
}

/// Sorting sorts, if `precedes` is a strict order.
pub proof fn arranged_is_in_order(n: nat, precedes: spec_fn(int, int) -> bool)
    requires
        is_strict_order(precedes),
    ensures
        is_in_order(arranged(n, precedes), precedes),
    decreases n,
{
    if n > 0 {
        let order = arranged((n - 1) as nat, precedes);
        let i = n - 1;
        arranged_is_in_order((n - 1) as nat, precedes);
        lemma_placed(order, i, precedes);
        let at = choose|at: int|
            0 <= at <= order.len() && #[trigger] placed(order, i, precedes) =~= order.take(at).push(i)
                + order.skip(at) && (at > 0 ==> !precedes(i, order[at - 1])) && (forall|k: int|
                at <= k < order.len() ==> precedes(i, #[trigger] order[k]));
        let now = placed(order, i, precedes);
        assert forall|a: int, b: int| 0 <= a < b < now.len() implies !precedes(
            #[trigger] now[b],
            #[trigger] now[a],
        ) by {
            assert forall|k: int| 0 <= k < now.len() implies #[trigger] now[k] == (if k < at {
                order[k]
            } else if k == at {
                i
            } else {
                order[k - 1]
            }) by {}
            if b == at {
                assert(now[a] == order[a]);
                if a < at - 1 {
                    assert(!precedes(order[at - 1], order[a]));
                    assert(!precedes(i, order[at - 1]));
                }
            } else if a == at {
                assert(now[b] == order[b - 1]);
                assert(precedes(i, order[b - 1]));
            } else {
                let x = if a < at { a } else { a - 1 };
                let y = if b < at { b } else { b - 1 };
                assert(now[a] == order[x]);
                assert(now[b] == order[y]);
            }
        }
    }
}

/// Two orders that agree below `n` arrange the positions below `n` alike.
pub proof fn arranged_by_agreeing(
    n: nat,
    first: spec_fn(int, int) -> bool,
    second: spec_fn(int, int) -> bool,
)
    requires
        forall|i: int, j: int|
            0 <= i < n && 0 <= j < n ==> #[trigger] first(i, j) == second(i, j),
    ensures
        arranged(n, first) == arranged(n, second),
    decreases n,
{
    if n > 0 {
        arranged_by_agreeing((n - 1) as nat, first, second);
        arranged_is_permutation((n - 1) as nat, first);
        lemma_placed_alike(arranged((n - 1) as nat, first), n - 1, first, second);
    }
}

/// Putting in a position goes by how it relates to the others only.
proof fn lemma_placed_alike(
    order: Seq<int>,
    i: int,
    first: spec_fn(int, int) -> bool,
    second: spec_fn(int, int) -> bool,
)
    requires
        forall|k: int|
            0 <= k < order.len() ==> first(i, #[trigger] order[k]) == second(i, order[k]),
    ensures
        placed(order, i, first) == placed(order, i, second),
    decreases order.len(),
{
    if order.len() > 0 {
        assert(order.last() == order[order.len() - 1]);
        lemma_placed_alike(order.drop_last(), i, first, second);
    }
}

/// Texts, in the order of their code points.
pub struct TextsUp<'a>(pub &'a Vec<String>);

/// Texts, in the opposite order of their code points.
pub struct TextsDown<'a>(pub &'a Vec<String>);

/// Scores, the highest first.
pub struct ScoresDown<'a>(pub &'a Vec<i64>);

impl<'a> Sortable for TextsUp<'a> {
    open spec fn size(&self) -> nat {
        self.0@.len()
    }

    open spec fn precedes(&self, i: int, j: int) -> bool {
        text_less(self.0@[i]@, self.0@[j]@)
    }

    fn count(&self) -> usize {
        self.0.len()
    }

    fn goes_before(&self, i: usize, j: usize) -> bool {
        text_before(self.0[i].as_str(), self.0[j].as_str())
    }
}

impl<'a> Sortable for TextsDown<'a> {
    open spec fn size(&self) -> nat {
        self.0@.len()
    }

    open spec fn precedes(&self, i: int, j: int) -> bool {
        text_less(self.0@[j]@, self.0@[i]@)
    }

    fn count(&self) -> usize {
        self.0.len()
    }

    fn goes_before(&self, i: usize, j: usize) -> bool {
        text_before(self.0[j].as_str(), self.0[i].as_str())
    }
}

impl<'a> Sortable for ScoresDown<'a> {
    open spec fn size(&self) -> nat {
        self.0@.len()
    }

    open spec fn precedes(&self, i: int, j: int) -> bool {
        self.0@[i] > self.0@[j]
    }

    fn count(&self) -> usize {
        self.0.len()
    }

    fn goes_before(&self, i: usize, j: usize) -> bool {
        self.0[i] > self.0[j]
    }
}

/// The order of texts is a strict order.
pub proof fn text_order_is_strict(texts: spec_fn(int) -> Seq<char>)
    ensures
        is_strict_order(|i: int, j: int| text_less(texts(i), texts(j))),
        is_strict_order(|i: int, j: int| text_less(texts(j), texts(i))),
{
    let up = |i: int, j: int| text_less(texts(i), texts(j));
    let down = |i: int, j: int| text_less(texts(j), texts(i));
    assert forall|i: int, j: int| #[trigger] up(i, j) implies !up(j, i) by {
        text_order_is_total(texts(i), texts(j));
    }
    assert forall|i: int, j: int| #[trigger] down(i, j) implies !down(j, i) by {
        text_order_is_total(texts(i), texts(j));
    }
    assert forall|i: int, j: int, k: int|
        !#[trigger] up(i, j) && !#[trigger] up(j, k) implies !up(i, k) by {
        lemma_texts_not_before(texts(i), texts(j), texts(k));
    }
    assert forall|i: int, j: int, k: int|
        !#[trigger] down(i, j) && !#[trigger] down(j, k) implies !down(i, k) by {
        lemma_texts_not_before(texts(k), texts(j), texts(i));
    }
}

/// If `a` is not before `b`, and `b` not before `c`, then `a` is not before `c`.
proof fn lemma_texts_not_before(a: Seq<char>, b: Seq<char>, c: Seq<char>)
    requires
        !text_less(a, b),
        !text_less(b, c),
    ensures
        !text_less(a, c),
{
    text_order_is_total(a, b);
    text_order_is_total(b, c);
    text_order_is_total(a, c);
    if text_less(a, c) {
        if text_less(b, a) {
            text_order_is_transitive(b, a, c);
        }
    }
}

/// Things that tie stay in their order: where one comes before another from which it stood
/// behind, it had to.
pub proof fn arranged_is_stable(n: nat, precedes: spec_fn(int, int) -> bool)
    ensures
        forall|a: int, b: int|
            0 <= a < b < arranged(n, precedes).len() ==> (#[trigger] arranged(n, precedes)[a]) < (
            #[trigger] arranged(n, precedes)[b]) || precedes(
                arranged(n, precedes)[a],
                arranged(n, precedes)[b],
            ),
    decreases n,
{
    if n > 0 {
        let order = arranged((n - 1) as nat, precedes);
        let i = n - 1;
        arranged_is_stable((n - 1) as nat, precedes);
        arranged_is_permutation((n - 1) as nat, precedes);
        lemma_placed(order, i, precedes);
        let at = choose|at: int|
            0 <= at <= order.len() && #[trigger] placed(order, i, precedes) =~= order.take(at).push(i)
                + order.skip(at) && (at > 0 ==> !precedes(i, order[at - 1])) && (forall|k: int|
                at <= k < order.len() ==> precedes(i, #[trigger] order[k]));
        let now = placed(order, i, precedes);
        assert forall|a: int, b: int| 0 <= a < b < now.len() implies (#[trigger] now[a]) < (
        #[trigger] now[b]) || precedes(now[a], now[b]) by {
            assert forall|k: int| 0 <= k < now.len() implies #[trigger] now[k] == (if k < at {
                order[k]
            } else if k == at {
                i
            } else {
                order[k - 1]
            }) by {}
            let x = if a < at {
                a
            } else {
                a - 1
            };
            let y = if b < at {
                b
            } else {
                b - 1
            };
            if a != at && b != at {
                assert(order[x] < order[y] || precedes(order[x], order[y]));
            } else if b == at {
                assert(0 <= order[a] < n - 1);
            } else {
                assert(precedes(i, order[y]));
            }
        }
    }
}

} // verus!
