//! The order in which objects are drawn.
//!
//! Objects are sorted by the square of their distance to the camera. Distances
//! are single precision floating point numbers, and arrive here as their bit
//! patterns.

use vstd::prelude::*;

verus! {

/// Which objects come first.
#[derive(Clone, Copy, Debug, PartialEq, Eq, Structural)]
pub enum Sorting {
    /// The nearest object is drawn first.
    FrontToBack,
    /// The farthest object is drawn first.
    BackToFront,
}

/// The bit pattern of positive infinity. Every larger magnitude is not a number.
pub const INFINITY_BITS: u32 = 0x7f80_0000;

/// The bit pattern without its sign.
pub open spec fn magnitude(bits: u32) -> int {
    bits as int % 0x8000_0000
}

/// The bits stand for no number.
pub open spec fn is_nan(bits: u32) -> bool {
    magnitude(bits) > INFINITY_BITS
}

/// The place of a floating point number among all of them: smaller numbers have
/// smaller ranks, both zeros have one rank, and whatever is not a number shares
/// the rank above positive infinity.
pub open spec fn float_rank(bits: u32) -> int {
    if is_nan(bits) {
        INFINITY_BITS + 1
    } else if bits < 0x8000_0000 {
        magnitude(bits)
    } else {
        -magnitude(bits)
    }
}

/// The bit pattern with the opposite sign.
pub open spec fn negated(bits: u32) -> u32 {
    if bits < 0x8000_0000 {
        (bits + 0x8000_0000) as u32
    } else {
        (bits - 0x8000_0000) as u32
    }
}

/// What objects are sorted by, in increasing order: the distance itself, or the
/// distance negated.
pub open spec fn sort_key(sorting: Sorting, distance: u32) -> int {
    match sorting {
        Sorting::FrontToBack => float_rank(distance),
        Sorting::BackToFront => float_rank(negated(distance)),
    }
}

/// `order` lists each index of `distances` once, by increasing sort key.
pub open spec fn is_draw_order(sorting: Sorting, distances: Seq<u32>, order: Seq<usize>) -> bool {
    &&& order.len() == distances.len()
    &&& forall|i: int| 0 <= i < order.len() ==> (#[trigger] order[i]) < distances.len()
    &&& forall|i: int, j: int| 0 <= i < j < order.len() ==> order[i] != order[j]
    &&& forall|i: int, j: int|
        0 <= i < j < order.len() ==> sort_key(sorting, distances[order[i] as int]) <= sort_key(
            sorting,
            distances[order[j] as int],
        )
}

/// The items of `items`, in the order that `order` lists their indices.
pub open spec fn reordered<T>(items: Seq<T>, order: Seq<usize>) -> Seq<T> {
    Seq::new(order.len(), |i: int| items[order[i] as int])
}

/// `after` holds the items of `before`, sorted by their distances. Items at the
/// same distance may stand either way round.
pub open spec fn is_sorted_copy<T>(
    sorting: Sorting,
    before: Seq<T>,
    distances: Seq<u32>,
    after: Seq<T>,
) -> bool {
    exists|order: Seq<usize>| #[trigger]
        is_draw_order(sorting, distances, order) && after == reordered(before, order)
}

/// The sort key of a distance, as a number.
pub fn distance_key(sorting: Sorting, distance: u32) -> (key: i64)
    ensures
        key == sort_key(sorting, distance),
{
    let signed: u32 = match sorting {
        Sorting::FrontToBack => distance,
        Sorting::BackToFront => if distance < 0x8000_0000 {
            distance + 0x8000_0000
        } else {
            distance - 0x8000_0000
        },
    };
    let size: i64 = (signed % 0x8000_0000) as i64;
    if size > INFINITY_BITS as i64 {
        INFINITY_BITS as i64 + 1
    } else if signed < 0x8000_0000 {
        size
    } else {
        -size
    }
}

/// `order` lists indices from `lo` up to `hi`, none of them twice, by
/// increasing key.
spec fn is_run(keys: Seq<i64>, lo: int, hi: int, order: Seq<usize>) -> bool {
    &&& forall|i: int| 0 <= i < order.len() ==> lo <= (#[trigger] order[i]) < hi
    &&& forall|i: int, j: int| 0 <= i < j < order.len() ==> order[i] != order[j]
    &&& forall|i: int, j: int|
        0 <= i < j < order.len() ==> keys[order[i] as int] <= keys[order[j] as int]
}

/// Merges two runs over neighbouring ranges of indices.
fn merge_runs(
    keys: &Vec<i64>,
    left: &Vec<usize>,
    right: &Vec<usize>,
    Ghost(lo): Ghost<int>,
    Ghost(mid): Ghost<int>,
    Ghost(hi): Ghost<int>,
) -> (merged: Vec<usize>)
    requires
        0 <= lo <= mid <= hi <= keys@.len(),
        is_run(keys@, lo, mid, left@),
        is_run(keys@, mid, hi, right@),
        left@.len() + right@.len() <= usize::MAX,
    ensures
        merged@.len() == left@.len() + right@.len(),
        is_run(keys@, lo, hi, merged@),
{
    let mut merged: Vec<usize> = Vec::with_capacity(left.len() + right.len());
    let mut i: usize = 0;
    let mut j: usize = 0;
    while i < left.len() || j < right.len()
        invariant
            0 <= lo <= mid <= hi <= keys@.len(),
            is_run(keys@, lo, mid, left@),
            is_run(keys@, mid, hi, right@),
            i <= left@.len(),
            j <= right@.len(),
            merged@.len() == i + j,
            is_run(keys@, lo, hi, merged@),
            forall|t: int, u: int|
                0 <= t < merged@.len() && i <= u < left@.len() ==> merged@[t] != left@[u]
                    && keys@[merged@[t] as int] <= keys@[left@[u] as int],
            forall|t: int, u: int|
                0 <= t < merged@.len() && j <= u < right@.len() ==> merged@[t] != right@[u]
                    && keys@[merged@[t] as int] <= keys@[right@[u] as int],
        decreases left@.len() - i + right@.len() - j,
    {
        if j >= right.len() || (i < left.len() && keys[left[i]] <= keys[right[j]]) {
            merged.push(left[i]);
            i += 1;
        } else {
            merged.push(right[j]);
            j += 1;
        }
    }
    merged
}

/// Sorts the indices from `lo` up to `hi` by their keys.
fn sort_run(keys: &Vec<i64>, lo: usize, hi: usize) -> (order: Vec<usize>)
    requires
        lo <= hi <= keys@.len(),
    ensures
        order@.len() == hi - lo,
        is_run(keys@, lo as int, hi as int, order@),
    decreases hi - lo,
{
    if hi - lo <= 1 {
        let mut order: Vec<usize> = Vec::new();
        if lo < hi {
            order.push(lo);
        }
        order
    } else {
        let mid: usize = lo + (hi - lo) / 2;
        let left = sort_run(keys, lo, mid);
        let right = sort_run(keys, mid, hi);
        merge_runs(keys, &left, &right, Ghost(lo as int), Ghost(mid as int), Ghost(hi as int))
    }
}

/// The order in which objects at the given distances are drawn.
pub fn draw_order(sorting: Sorting, distances: &Vec<u32>) -> (order: Vec<usize>)
    ensures
        is_draw_order(sorting, distances@, order@),
        order@.len() == distances@.len(),
        forall|i: int| 0 <= i < order@.len() ==> (#[trigger] order@[i]) < distances@.len(),
        forall|i: int, j: int| 0 <= i < j < order@.len() ==> order@[i] != order@[j],
        forall|i: int, j: int|
            0 <= i < j < order@.len() && distances@[order@[i] as int] <= 0x7f80_0000
                && distances@[order@[j] as int] <= 0x7f80_0000 ==> if sorting is FrontToBack {
                distances@[order@[i] as int] <= distances@[order@[j] as int]
            } else {
                distances@[order@[i] as int] >= distances@[order@[j] as int]
            },
        forall|i: int, j: int|
            0 <= i < j < order@.len() && distances@[order@[i] as int] % 0x8000_0000 > 0x7f80_0000
                ==> distances@[order@[j] as int] % 0x8000_0000 > 0x7f80_0000,
        forall|i: int, j: int|
            #![trigger order@[i], order@[j]]
            0 <= i < j < order@.len() && sorting is FrontToBack && distances@[order@[i] as int] >= 0x8000_0000
                && 0x8000_0000 <= distances@[order@[j] as int] <= 0xff80_0000
                ==> distances@[order@[i] as int] >= distances@[order@[j] as int],
        forall|i: int, j: int|
            #![trigger order@[i], order@[j]]
            0 <= i < j < order@.len() && sorting is FrontToBack && 0 < distances@[order@[i] as int]
                <= 0x7f80_0000
                ==> !(0x8000_0000 <= distances@[order@[j] as int] <= 0xff80_0000),
        forall|i: int, j: int|
            #![trigger order@[i], order@[j]]
            0 <= i < j < order@.len() && sorting is FrontToBack && distances@[order@[i] as int] == 0
                ==> !(0x8000_0000 < distances@[order@[j] as int] <= 0xff80_0000),
        forall|i: int, j: int|
            #![trigger order@[i], order@[j]]
            0 <= i < j < order@.len() && sorting is BackToFront && 0x8000_0000 <= distances@[order@[i] as int]
                <= 0xff80_0000 && distances@[order@[j] as int] >= 0x8000_0000
                ==> distances@[order@[i] as int] <= distances@[order@[j] as int],
        forall|i: int, j: int|
            #![trigger order@[i], order@[j]]
            0 <= i < j < order@.len() && sorting is BackToFront && 0x8000_0000 <= distances@[order@[i] as int]
                <= 0xff80_0000
                ==> !(0 < distances@[order@[j] as int] <= 0x7f80_0000),
        forall|i: int, j: int|
            #![trigger order@[i], order@[j]]
            0 <= i < j < order@.len() && sorting is BackToFront && 0x8000_0000 < distances@[order@[i] as int]
                <= 0xff80_0000
                ==> distances@[order@[j] as int] != 0,
{
    let mut keys: Vec<i64> = Vec::with_capacity(distances.len());
    for i in 0..distances.len()
        invariant
            keys@.len() == i,
            forall|k: int| 0 <= k < i ==> keys@[k] == sort_key(sorting, #[trigger] distances@[k]),
    {
        keys.push(distance_key(sorting, distances[i]));
    }
    let order = sort_run(&keys, 0, distances.len());
    assert forall|i: int, j: int| 0 <= i < j < order@.len() implies sort_key(
        sorting,
        distances@[order@[i] as int],
    ) <= sort_key(sorting, distances@[order@[j] as int]) by {
        assert(keys@[order@[i] as int] <= keys@[order@[j] as int]);
    }
    proof {
        law_draw_order_by_distance(sorting, distances@, order@);
    }
    order
}

/// Sorts items in place by their distances.
pub fn sort_by_distance<T: Copy>(sorting: Sorting, items: &mut Vec<T>, distances: &Vec<u32>)
    requires
        old(items)@.len() == distances@.len(),
    ensures
        is_sorted_copy(sorting, old(items)@, distances@, final(items)@),
{
    let order = draw_order(sorting, distances);
    let mut sorted: Vec<T> = Vec::with_capacity(order.len());
    for i in 0..order.len()
        invariant
            items@ == old(items)@,
            items@.len() == distances@.len(),
            is_draw_order(sorting, distances@, order@),
            sorted@ == reordered(items@, order@).take(i as int),
    {
        sorted.push(items[order[i]]);
        assert(sorted@ =~= reordered(items@, order@).take(i + 1));
    }
    assert(sorted@ =~= reordered(items@, order@));
    *items = sorted;
}

/// A draw order leaves nothing out: each index is in it.
pub proof fn law_draw_order_covers(sorting: Sorting, distances: Seq<u32>, order: Seq<usize>)
    requires
        is_draw_order(sorting, distances, order),
    ensures
        forall|k: usize| k < distances.len() ==> #[trigger] order.contains(k),
{
    let ints = indices(order);
    lemma_distinct_covers(ints);
    assert forall|k: usize| k < distances.len() implies #[trigger] order.contains(k) by {
        assert(ints.contains(k as int));
        let i = choose|i: int| 0 <= i < ints.len() && ints[i] == k;
        assert(order[i] == k);
    }
}

/// Sorting neither loses nor duplicates items.
pub proof fn law_sort_keeps_items<T>(
    sorting: Sorting,
    before: Seq<T>,
    distances: Seq<u32>,
    after: Seq<T>,
)
    requires
        before.len() == distances.len(),
        is_sorted_copy(sorting, before, distances, after),
    ensures
        after.len() == before.len(),
        after.to_multiset() == before.to_multiset(),
{
    let order = choose|order: Seq<usize>| #[trigger]
        is_draw_order(sorting, distances, order) && after == reordered(before, order);
    let ints = indices(order);
    lemma_picked_multiset(before, ints);
    assert(after =~= Seq::new(ints.len(), |i: int| before[ints[i]]));
}

/// Drawing back to front is drawing front to back the other way round, as far
/// as distances are numbers.
pub proof fn law_orders_are_opposite(a: u32, b: u32)
    requires
        !is_nan(a),
        !is_nan(b),
    ensures
        sort_key(Sorting::BackToFront, a) <= sort_key(Sorting::BackToFront, b) <==> sort_key(
            Sorting::FrontToBack,
            b,
        ) <= sort_key(Sorting::FrontToBack, a),
{
}

/// What has no distance is drawn last, in either order.
pub proof fn law_nan_is_last(sorting: Sorting, a: u32, b: u32)
    requires
        is_nan(b),
        !is_nan(a),
    ensures
        sort_key(sorting, a) < sort_key(sorting, b),
{
}

/// Keys order distances as the numbers do that the bits stand for: by their
/// magnitudes if they are not negative, the other way round if they are, with
/// negative ones before the others and one key for both zeros. Back to front,
/// all that is turned round. What is not a number has one key, after all others.
pub proof fn law_keys_order_like_numbers(a: u32, b: u32)
    ensures
        a < b <= 0x7f80_0000 ==> float_rank(a) < float_rank(b),
        0x8000_0000 <= a < b <= 0xff80_0000 ==> float_rank(b) < float_rank(a),
        a < b <= 0x7f80_0000 ==> sort_key(Sorting::FrontToBack, a) < sort_key(
            Sorting::FrontToBack,
            b,
        ),
        a < b <= 0x7f80_0000 ==> sort_key(Sorting::BackToFront, b) < sort_key(
            Sorting::BackToFront,
            a,
        ),
        0x8000_0000 <= a < b <= 0xff80_0000 ==> sort_key(Sorting::FrontToBack, b) < sort_key(
            Sorting::FrontToBack,
            a,
        ),
        0x8000_0000 <= a < b <= 0xff80_0000 ==> sort_key(Sorting::BackToFront, a) < sort_key(
            Sorting::BackToFront,
            b,
        ),
        a <= 0x7f80_0000 && 0x8000_0000 < b <= 0xff80_0000 ==> sort_key(Sorting::FrontToBack, b)
            < sort_key(Sorting::FrontToBack, a),
        a <= 0x7f80_0000 && 0x8000_0000 < b <= 0xff80_0000 ==> sort_key(Sorting::BackToFront, a)
            < sort_key(Sorting::BackToFront, b),
        forall|sorting: Sorting|
            #[trigger] sort_key(sorting, 0) == sort_key(sorting, 0x8000_0000),
        forall|sorting: Sorting|
            a % 0x8000_0000 > 0x7f80_0000 && b % 0x8000_0000 > 0x7f80_0000 ==> #[trigger] sort_key(
                sorting,
                a,
            ) == sort_key(sorting, b),
        forall|sorting: Sorting|
            a % 0x8000_0000 <= 0x7f80_0000 && b % 0x8000_0000 > 0x7f80_0000
                ==> #[trigger] sort_key(sorting, a) < sort_key(sorting, b),
{
}

/// A draw order has each index once, and goes from near to far or from far to
/// near. Distances that are numbers, and not negative, compare as their bits;
/// negative ones, the other way round, and they are less than the others. What is
/// not a number is followed only by what is not a number.
pub proof fn law_draw_order_by_distance(sorting: Sorting, distances: Seq<u32>, order: Seq<usize>)
    requires
        is_draw_order(sorting, distances, order),
    ensures
        order.len() == distances.len(),
        forall|i: int| 0 <= i < order.len() ==> (#[trigger] order[i]) < distances.len(),
        forall|i: int, j: int| 0 <= i < j < order.len() ==> order[i] != order[j],
        forall|i: int, j: int|
            #![trigger order[i], order[j]]
            0 <= i < j < order.len() && sorting is FrontToBack && distances[order[i] as int]
                <= 0x7f80_0000 && distances[order[j] as int] <= 0x7f80_0000
                ==> distances[order[i] as int] <= distances[order[j] as int],
        forall|i: int, j: int|
            #![trigger order[i], order[j]]
            0 <= i < j < order.len() && sorting is BackToFront && distances[order[i] as int]
                <= 0x7f80_0000 && distances[order[j] as int] <= 0x7f80_0000
                ==> distances[order[i] as int] >= distances[order[j] as int],
        forall|i: int, j: int|
            0 <= i < j < order.len() && distances[order[i] as int] % 0x8000_0000 > 0x7f80_0000
                ==> distances[order[j] as int] % 0x8000_0000 > 0x7f80_0000,
        forall|i: int, j: int|
            #![trigger order[i], order[j]]
            0 <= i < j < order.len() && sorting is FrontToBack && distances[order[i] as int] >= 0x8000_0000
                && 0x8000_0000 <= distances[order[j] as int] <= 0xff80_0000
                ==> distances[order[i] as int] >= distances[order[j] as int],
        forall|i: int, j: int|
            #![trigger order[i], order[j]]
            0 <= i < j < order.len() && sorting is FrontToBack && 0 < distances[order[i] as int]
                <= 0x7f80_0000
                ==> !(0x8000_0000 <= distances[order[j] as int] <= 0xff80_0000),
        forall|i: int, j: int|
            #![trigger order[i], order[j]]
            0 <= i < j < order.len() && sorting is FrontToBack && distances[order[i] as int] == 0
                ==> !(0x8000_0000 < distances[order[j] as int] <= 0xff80_0000),
        forall|i: int, j: int|
            #![trigger order[i], order[j]]
            0 <= i < j < order.len() && sorting is BackToFront && 0x8000_0000 <= distances[order[i] as int]
                <= 0xff80_0000 && distances[order[j] as int] >= 0x8000_0000
                ==> distances[order[i] as int] <= distances[order[j] as int],
        forall|i: int, j: int|
            #![trigger order[i], order[j]]
            0 <= i < j < order.len() && sorting is BackToFront && 0x8000_0000 <= distances[order[i] as int]
                <= 0xff80_0000
                ==> !(0 < distances[order[j] as int] <= 0x7f80_0000),
        forall|i: int, j: int|
            #![trigger order[i], order[j]]
            0 <= i < j < order.len() && sorting is BackToFront && 0x8000_0000 < distances[order[i] as int]
                <= 0xff80_0000
                ==> distances[order[j] as int] != 0,
{
    assert forall|i: int, j: int|
        #![trigger order[i], order[j]]
        0 <= i < j < order.len() implies {
        let a = distances[order[i] as int];
        let b = distances[order[j] as int];
        &&& sorting is FrontToBack && a <= 0x7f80_0000 && b <= 0x7f80_0000 ==> a <= b
        &&& sorting is BackToFront && a <= 0x7f80_0000 && b <= 0x7f80_0000 ==> a >= b
        &&& a % 0x8000_0000 > 0x7f80_0000 ==> b % 0x8000_0000 > 0x7f80_0000
        &&& sorting is FrontToBack && a >= 0x8000_0000 && 0x8000_0000 <= b <= 0xff80_0000 ==> a >= b
        &&& sorting is FrontToBack && 0 < a <= 0x7f80_0000 ==> !(0x8000_0000 <= b <= 0xff80_0000)
        &&& sorting is FrontToBack && a == 0 ==> !(0x8000_0000 < b <= 0xff80_0000)
        &&& sorting is BackToFront && 0x8000_0000 <= a <= 0xff80_0000 && b >= 0x8000_0000 ==> a <= b
        &&& sorting is BackToFront && 0x8000_0000 <= a <= 0xff80_0000 ==> !(0 < b <= 0x7f80_0000)
        &&& sorting is BackToFront && 0x8000_0000 < a <= 0xff80_0000 ==> b != 0
    } by {
        let a = distances[order[i] as int];
        let b = distances[order[j] as int];
        law_keys_order_like_numbers(a, b);
        law_keys_order_like_numbers(b, a);
    }
}

/// Sorted items are the items before, each once, in an order from near to far or
/// from far to near.
pub proof fn law_sorted_items_by_distance<T>(
    sorting: Sorting,
    before: Seq<T>,
    distances: Seq<u32>,
    after: Seq<T>,
)
    requires
        before.len() == distances.len(),
        is_sorted_copy(sorting, before, distances, after),
    ensures
        after.len() == before.len(),
        exists|order: Seq<usize>|
            {
                &&& #[trigger] order.len() == before.len()
                &&& forall|i: int| 0 <= i < order.len() ==> (#[trigger] order[i]) < before.len()
                &&& forall|i: int, j: int| 0 <= i < j < order.len() ==> order[i] != order[j]
                &&& forall|i: int|
                    0 <= i < order.len() ==> #[trigger] after[i] == before[order[i] as int]
                &&& forall|i: int, j: int|
                    0 <= i < j < order.len() && distances[order[i] as int] <= 0x7f80_0000
                        && distances[order[j] as int] <= 0x7f80_0000 ==> if sorting
                        is FrontToBack {
                        distances[order[i] as int] <= distances[order[j] as int]
                    } else {
                        distances[order[i] as int] >= distances[order[j] as int]
                    }
                &&& forall|i: int, j: int|
                    0 <= i < j < order.len() && distances[order[i] as int] % 0x8000_0000
                        > 0x7f80_0000 ==> distances[order[j] as int] % 0x8000_0000 > 0x7f80_0000
                &&& forall|i: int, j: int|
                    #![trigger order[i], order[j]]
                    0 <= i < j < order.len() && sorting is FrontToBack && distances[order[i] as int] >= 0x8000_0000
                        && 0x8000_0000 <= distances[order[j] as int] <= 0xff80_0000
                        ==> distances[order[i] as int] >= distances[order[j] as int]
                &&& forall|i: int, j: int|
                    #![trigger order[i], order[j]]
                    0 <= i < j < order.len() && sorting is FrontToBack && 0 < distances[order[i] as int]
                        <= 0x7f80_0000
                        ==> !(0x8000_0000 <= distances[order[j] as int] <= 0xff80_0000)
                &&& forall|i: int, j: int|
                    #![trigger order[i], order[j]]
                    0 <= i < j < order.len() && sorting is FrontToBack && distances[order[i] as int] == 0
                        ==> !(0x8000_0000 < distances[order[j] as int] <= 0xff80_0000)
                &&& forall|i: int, j: int|
                    #![trigger order[i], order[j]]
                    0 <= i < j < order.len() && sorting is BackToFront && 0x8000_0000 <= distances[order[i] as int]
                        <= 0xff80_0000 && distances[order[j] as int] >= 0x8000_0000
                        ==> distances[order[i] as int] <= distances[order[j] as int]
                &&& forall|i: int, j: int|
                    #![trigger order[i], order[j]]
                    0 <= i < j < order.len() && sorting is BackToFront && 0x8000_0000 <= distances[order[i] as int]
                        <= 0xff80_0000
                        ==> !(0 < distances[order[j] as int] <= 0x7f80_0000)
                &&& forall|i: int, j: int|
                    #![trigger order[i], order[j]]
                    0 <= i < j < order.len() && sorting is BackToFront && 0x8000_0000 < distances[order[i] as int]
                        <= 0xff80_0000
                        ==> distances[order[j] as int] != 0
            },
{
    let order = choose|order: Seq<usize>| #[trigger]
        is_draw_order(sorting, distances, order) && after == reordered(before, order);
    law_draw_order_by_distance(sorting, distances, order);
    assert(order.len() == before.len());
}

/// The indices of `order`, as integers.
spec fn indices(order: Seq<usize>) -> Seq<int> {
    Seq::new(order.len(), |i: int| order[i] as int)
}

/// As many distinct indices as there are below a bound are all of them.
proof fn lemma_distinct_covers(order: Seq<int>)
    requires
        forall|i: int| 0 <= i < order.len() ==> 0 <= (#[trigger] order[i]) < order.len(),
        forall|i: int, j: int| 0 <= i < j < order.len() ==> order[i] != order[j],
    ensures
        forall|k: int| 0 <= k < order.len() ==> #[trigger] order.contains(k),
{
    let all = vstd::set_lib::set_int_range(0, order.len() as int);
    assert(order.no_duplicates()) by {
        assert forall|i: int, j: int|
            0 <= i < order.len() && 0 <= j < order.len() && i != j implies order[i] != order[j] by {
            if i < j {
                assert(order[i] != order[j]);
            } else {
                assert(order[j] != order[i]);
            }
        }
    }
    order.unique_seq_to_set();
    vstd::set_lib::lemma_int_range(0, order.len() as int);
    assert(order.to_set().subset_of(all));
    vstd::set_lib::lemma_subset_equality(order.to_set(), all);
    assert forall|k: int| 0 <= k < order.len() implies #[trigger] order.contains(k) by {
        assert(all.contains(k));
        assert(order.to_set().contains(k));
    }
}

/// Picking items by a permutation of their indices keeps the multiset of items.
proof fn lemma_picked_multiset<T>(items: Seq<T>, order: Seq<int>)
    requires
        order.len() == items.len(),
        forall|i: int| 0 <= i < order.len() ==> 0 <= (#[trigger] order[i]) < items.len(),
        forall|i: int, j: int| 0 <= i < j < order.len() ==> order[i] != order[j],
    ensures
        Seq::new(order.len(), |i: int| items[order[i]]).to_multiset() == items.to_multiset(),
    decreases items.len(),
{
    let picked = Seq::new(order.len(), |i: int| items[order[i]]);
    if items.len() == 0 {
        assert(picked =~= items);
    } else {
        lemma_distinct_covers(order);
        let last = items.len() - 1;
        assert(order.contains(last));
        let at = order.index_of(last);
        let rest = order.remove(at);
        assert forall|i: int| 0 <= i < rest.len() implies 0 <= (#[trigger] rest[i]) < last by {
            let k = if i < at {
                i
            } else {
                i + 1
            };
            assert(rest[i] == order[k]);
            if k < at {
                assert(order[k] != order[at]);
            } else {
                assert(order[at] != order[k]);
            }
        }
        let others = items.remove(last);
        lemma_picked_multiset(others, rest);
        assert(Seq::new(rest.len(), |i: int| others[rest[i]]) =~= picked.remove(at));
        broadcast use vstd::seq_lib::group_to_multiset_ensures;

        assert(picked[at] == items[last]);
        assert(picked.to_multiset() =~= picked.remove(at).to_multiset().insert(picked[at]));
        assert(items.to_multiset() =~= others.to_multiset().insert(items[last]));
    }
}

} // verus!
