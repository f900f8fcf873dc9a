//! Three-way comparison, its laws, and a stable sort.

use vstd::prelude::*;

use crate::text;

verus! {

#[derive(Clone, Copy, Debug, PartialEq, Eq, Structural)]
pub enum Order {
    Less,
    Equal,
    Greater,
}

impl Order {
    pub open spec fn flipped(self) -> Order {
        match self {
            Order::Less => Order::Greater,
            Order::Equal => Order::Equal,
            Order::Greater => Order::Less,
        }
    }

    pub fn reverse(self) -> (result: Order)
        ensures
            result == self.flipped(),
    {
        match self {
            Order::Less => Order::Greater,
            Order::Equal => Order::Equal,
            Order::Greater => Order::Less,
        }
    }
}

pub open spec fn compare_int(left: int, right: int) -> Order {
    if left < right {
        Order::Less
    } else if left == right {
        Order::Equal
    } else {
        Order::Greater
    }
}

/// Lexicographic order by code point.
pub open spec fn compare_text(left: Seq<char>, right: Seq<char>) -> Order
    decreases left.len(),
{
    if left.len() == 0 {
        if right.len() == 0 {
            Order::Equal
        } else {
            Order::Less
        }
    } else if right.len() == 0 {
        Order::Greater
    } else if left[0] != right[0] {
        compare_int(left[0] as int, right[0] as int)
    } else {
        compare_text(left.drop_first(), right.drop_first())
    }
}

/// Equal texts, and only they, compare as equal, and swapping the texts flips the order.
pub proof fn lemma_compare_text_flips(left: Seq<char>, right: Seq<char>)
    ensures
        compare_text(right, left) == compare_text(left, right).flipped(),
        compare_text(left, right) == Order::Equal <==> left == right,
    decreases left.len(),
{
    if left.len() == 0 {
        if right.len() == 0 {
            assert(left =~= right);
        }
    } else if right.len() > 0 && left[0] == right[0] {
        lemma_compare_text_flips(left.drop_first(), right.drop_first());
        if left.drop_first() == right.drop_first() {
            assert(left =~= seq![left[0]] + left.drop_first());
            assert(right =~= seq![right[0]] + right.drop_first());
        }
    }
}

/// Text order is transitive.
pub proof fn lemma_compare_text_transitive(a: Seq<char>, b: Seq<char>, c: Seq<char>)
    requires
        compare_text(a, b) != Order::Greater,
        compare_text(b, c) != Order::Greater,
    ensures
        compare_text(a, c) != Order::Greater,
    decreases a.len(),
{
    if a.len() > 0 && b.len() > 0 && c.len() > 0 && a[0] == b[0] && b[0] == c[0] {
        lemma_compare_text_transitive(a.drop_first(), b.drop_first(), c.drop_first());
    }
}

/// Compares two texts by code point.
pub fn compare_texts(left: &str, right: &str) -> (result: Order)
    ensures
        result == compare_text(left@, right@),
{
    let a = text::chars(left);
    let b = text::chars(right);
    let mut i: usize = 0;
    assert(a@.skip(0) =~= a@);
    assert(b@.skip(0) =~= b@);
    while i < a.len() && i < b.len()
        invariant
            a@ == left@,
            b@ == right@,
            i <= a@.len(),
            i <= b@.len(),
            compare_text(left@, right@) == compare_text(a@.skip(i as int), b@.skip(i as int)),
        decreases a.len() - i,
    {
        let x = a[i];
        let y = b[i];
        assert(a@.skip(i as int)[0] == x);
        assert(b@.skip(i as int)[0] == y);
        if x < y {
            return Order::Less;
        }
        if x > y {
            return Order::Greater;
        }
        assert(a@.skip(i as int).drop_first() =~= a@.skip(i + 1));
        assert(b@.skip(i as int).drop_first() =~= b@.skip(i + 1));
        i = i + 1;
    }
    if i < b.len() {
        Order::Less
    } else if i < a.len() {
        Order::Greater
    } else {
        Order::Equal
    }
}

pub fn compare_i64(left: i64, right: i64) -> (result: Order)
    ensures
        result == compare_int(left as int, right as int),
{
    if left < right {
        Order::Less
    } else if left == right {
        Order::Equal
    } else {
        Order::Greater
    }
}

pub fn compare_u128(left: u128, right: u128) -> (result: Order)
    ensures
        result == compare_int(left as int, right as int),
{
    if left < right {
        Order::Less
    } else if left == right {
        Order::Equal
    } else {
        Order::Greater
    }
}

/// A ranking that orders any two values consistently: a total preorder.
pub open spec fn is_ranking<T>(rank: spec_fn(T, T) -> Order) -> bool {
    &&& forall|a: T, b: T| #[trigger] rank(b, a) == rank(a, b).flipped()
    &&& forall|a: T, b: T, c: T|
        #[trigger] rank(a, b) != Order::Greater && #[trigger] rank(b, c) != Order::Greater
            ==> rank(a, c) != Order::Greater
}

/// `places` names every position below `len` once.
pub open spec fn is_arrangement(places: Seq<int>, len: nat) -> bool {
    &&& places.len() == len
    &&& forall|i: int| 0 <= i < len ==> 0 <= #[trigger] places[i] < len
    &&& forall|i: int, j: int| 0 <= i < j < len ==> #[trigger] places[i] != #[trigger] places[j]
}

/// Every position below the length is named by an arrangement.
pub proof fn lemma_arrangement_reaches(places: Seq<int>, len: nat, at: int) -> (i: int)
    requires
        is_arrangement(places, len),
        0 <= at < len,
    ensures
        0 <= i < len,
        places[i] == at,
{
    let named = places.to_set();
    let positions = vstd::set_lib::set_int_range(0, len as int);
    vstd::set_lib::lemma_int_range(0, len as int);
    assert(places.no_duplicates());
    places.unique_seq_to_set();
    assert forall|x: int| named.contains(x) implies positions.contains(x) by {
        let k = choose|k: int| 0 <= k < places.len() && places[k] == x;
        assert(0 <= places[k] < len);
    }
    vstd::set_lib::lemma_subset_equality(named, positions);
    assert(named.contains(at));
    choose|k: int| 0 <= k < places.len() && places[k] == at
}

/// `after` holds the items of `before` at the given places.
pub open spec fn is_rearranged<T>(before: Seq<T>, after: Seq<T>, places: Seq<int>) -> bool {
    &&& is_arrangement(places, before.len())
    &&& after.len() == before.len()
    &&& forall|i: int| 0 <= i < after.len() ==> #[trigger] after[i] == before[places[i]]
}

/// Items stand in ascending rank, and items of equal rank in the order of their places.
pub open spec fn is_ordered<T>(
    after: Seq<T>,
    places: Seq<int>,
    rank: spec_fn(T, T) -> Order,
) -> bool {
    forall|i: int, j: int|
        #![trigger after[i], after[j]]
        0 <= i < j < after.len() ==> rank(after[i], after[j]) == Order::Less || (rank(
            after[i],
            after[j],
        ) == Order::Equal && places[i] < places[j])
}

/// `after` is `before` in ascending rank, with items of equal rank in their first order.
pub open spec fn is_stable_sort<T>(
    before: Seq<T>,
    after: Seq<T>,
    rank: spec_fn(T, T) -> Order,
) -> bool {
    exists|places: Seq<int>|
        #[trigger] is_rearranged(before, after, places) && is_ordered(after, places, rank)
}

/// A sort by what a view shows sorts the views.
pub proof fn lemma_sort_of_views<T, V>(
    before: Seq<T>,
    after: Seq<T>,
    rank: spec_fn(T, T) -> Order,
    view: spec_fn(T) -> V,
    view_rank: spec_fn(V, V) -> Order,
)
    requires
        is_stable_sort(before, after, rank),
        forall|a: T, b: T| #[trigger] rank(a, b) == view_rank(view(a), view(b)),
    ensures
        is_stable_sort(before.map_values(view), after.map_values(view), view_rank),
{
    let places = choose|places: Seq<int>|
        #[trigger] is_rearranged(before, after, places) && is_ordered(after, places, rank);
    let shown = before.map_values(view);
    let sorted = after.map_values(view);
    assert forall|i: int| 0 <= i < sorted.len() implies #[trigger] sorted[i] == shown[places[i]] by {
        assert(after[i] == before[places[i]]);
    }
    assert forall|i: int, j: int|
        #![trigger sorted[i], sorted[j]]
        0 <= i < j < sorted.len() implies view_rank(sorted[i], sorted[j]) == Order::Less || (
    view_rank(sorted[i], sorted[j]) == Order::Equal && places[i] < places[j]) by {
        assert(rank(after[i], after[j]) == view_rank(view(after[i]), view(after[j])));
    }
    assert(is_rearranged(shown, sorted, places));
}

/// Position `i` comes before position `j`: by rank, then by place.
pub open spec fn comes_first<T>(items: Seq<T>, rank: spec_fn(T, T) -> Order, i: int, j: int) -> bool {
    rank(items[i], items[j]) == Order::Less || (rank(items[i], items[j]) == Order::Equal && i < j)
}

proof fn lemma_comes_first_transitive<T>(
    items: Seq<T>,
    rank: spec_fn(T, T) -> Order,
    i: int,
    j: int,
    k: int,
)
    requires
        is_ranking(rank),
        comes_first(items, rank, i, j),
        comes_first(items, rank, j, k),
    ensures
        comes_first(items, rank, i, k),
{
    let (a, b, c) = (items[i], items[j], items[k]);
    assert(rank(a, c) != Order::Greater);
    if rank(a, c) == Order::Equal {
        assert(rank(c, a) == Order::Equal);
        assert(rank(c, b) != Order::Greater);
        assert(rank(b, c) == rank(c, b).flipped());
        assert(rank(b, c) == Order::Equal);
        assert(rank(b, a) != Order::Greater);
        assert(rank(a, b) == rank(b, a).flipped());
    }
}

proof fn lemma_comes_first_total<T>(items: Seq<T>, rank: spec_fn(T, T) -> Order, i: int, j: int)
    requires
        is_ranking(rank),
        i != j,
    ensures
        comes_first(items, rank, i, j) || comes_first(items, rank, j, i),
        !comes_first(items, rank, i, i),
{
    assert(rank(items[j], items[i]) == rank(items[i], items[j]).flipped());
    assert(rank(items[i], items[i]) == rank(items[i], items[i]).flipped());
}

/// Positions of `lo..hi` in ascending order.
spec fn is_run<T>(
    run: Seq<usize>,
    items: Seq<T>,
    rank: spec_fn(T, T) -> Order,
    lo: int,
    hi: int,
) -> bool {
    &&& run.len() == hi - lo
    &&& forall|i: int| 0 <= i < run.len() ==> lo <= #[trigger] run[i] < hi
    &&& forall|i: int, j: int|
        #![trigger run[i], run[j]]
        0 <= i < j < run.len() ==> comes_first(items, rank, run[i] as int, run[j] as int)
}

fn merge_runs<T, F: Fn(&T, &T) -> Order>(
    items: &Vec<T>,
    compare: &F,
    left: Vec<usize>,
    right: Vec<usize>,
    Ghost(rank): Ghost<spec_fn(T, T) -> Order>,
    Ghost(bounds): Ghost<(int, int, int)>,
) -> (result: Vec<usize>)
    requires
        is_ranking(rank),
        forall|a: T, b: T| call_requires(*compare, (&a, &b)),
        forall|a: T, b: T, o: Order| call_ensures(*compare, (&a, &b), o) ==> o == rank(a, b),
        0 <= bounds.0 <= bounds.1 <= bounds.2 <= items@.len(),
        is_run(left@, items@, rank, bounds.0, bounds.1),
        is_run(right@, items@, rank, bounds.1, bounds.2),
    ensures
        is_run(result@, items@, rank, bounds.0, bounds.2),
{
    let mut result: Vec<usize> = Vec::new();
    let mut i: usize = 0;
    let mut j: usize = 0;
    while i < left.len() || j < right.len()
        invariant
            is_ranking(rank),
            forall|a: T, b: T| call_requires(*compare, (&a, &b)),
            forall|a: T, b: T, o: Order| call_ensures(*compare, (&a, &b), o) ==> o == rank(a, b),
            0 <= bounds.0 <= bounds.1 <= bounds.2 <= items@.len(),
            is_run(left@, items@, rank, bounds.0, bounds.1),
            is_run(right@, items@, rank, bounds.1, bounds.2),
            i <= left.len(),
            j <= right.len(),
            result@.len() == i + j,
            forall|k: int| 0 <= k < result@.len() ==> bounds.0 <= #[trigger] result@[k] < bounds.2,
            forall|k: int, l: int|
                #![trigger result@[k], result@[l]]
                0 <= k < l < result@.len() ==> comes_first(
                    items@,
                    rank,
                    result@[k] as int,
                    result@[l] as int,
                ),
            forall|k: int, l: int|
                #![trigger result@[k], left@[l]]
                0 <= k < result@.len() && i <= l < left@.len() ==> comes_first(
                    items@,
                    rank,
                    result@[k] as int,
                    left@[l] as int,
                ),
            forall|k: int, l: int|
                #![trigger result@[k], right@[l]]
                0 <= k < result@.len() && j <= l < right@.len() ==> comes_first(
                    items@,
                    rank,
                    result@[k] as int,
                    right@[l] as int,
                ),
        decreases (left.len() - i) + (right.len() - j),
    {
        let take_left: bool = if i >= left.len() {
            false
        } else if j >= right.len() {
            true
        } else {
            match compare(&items[left[i]], &items[right[j]]) {
                Order::Greater => false,
                _ => true,
            }
        };
        let ghost before = result@;
        if take_left {
            let next: usize = left[i];
            proof {
                assert forall|l: int| j <= l < right@.len() implies comes_first(
                    items@,
                    rank,
                    next as int,
                    #[trigger] right@[l] as int,
                ) by {
                    assert(comes_first(items@, rank, next as int, right@[j as int] as int));
                    if l > j {
                        lemma_comes_first_transitive(
                            items@,
                            rank,
                            next as int,
                            right@[j as int] as int,
                            right@[l] as int,
                        );
                    }
                }
            }
            result.push(next);
            i = i + 1;
        } else {
            let next: usize = right[j];
            proof {
                assert forall|l: int| i <= l < left@.len() implies comes_first(
                    items@,
                    rank,
                    next as int,
                    #[trigger] left@[l] as int,
                ) by {
                    assert(rank(items@[left@[i as int] as int], items@[next as int])
                        == Order::Greater);
                    assert(rank(items@[next as int], items@[left@[i as int] as int]) == Order::Less);
                    assert(comes_first(items@, rank, next as int, left@[i as int] as int));
                    if l > i {
                        lemma_comes_first_transitive(
                            items@,
                            rank,
                            next as int,
                            left@[i as int] as int,
                            left@[l] as int,
                        );
                    }
                }
            }
            result.push(next);
            j = j + 1;
        }
        assert(forall|k: int| 0 <= k < before.len() ==> result@[k] == before[k]);
    }
    result
}

fn sorted_run<T, F: Fn(&T, &T) -> Order>(
    items: &Vec<T>,
    compare: &F,
    lo: usize,
    hi: usize,
    Ghost(rank): Ghost<spec_fn(T, T) -> Order>,
) -> (result: Vec<usize>)
    requires
        is_ranking(rank),
        forall|a: T, b: T| call_requires(*compare, (&a, &b)),
        forall|a: T, b: T, o: Order| call_ensures(*compare, (&a, &b), o) ==> o == rank(a, b),
        lo <= hi <= items@.len(),
    ensures
        is_run(result@, items@, rank, lo as int, hi as int),
    decreases hi - lo,
{
    let mut result: Vec<usize> = Vec::new();
    if hi - lo == 0 {
        result
    } else if hi - lo == 1 {
        result.push(lo);
        result
    } else {
        let mid: usize = lo + (hi - lo) / 2;
        let left = sorted_run(items, compare, lo, mid, Ghost(rank));
        let right = sorted_run(items, compare, mid, hi, Ghost(rank));
        merge_runs(
            items,
            compare,
            left,
            right,
            Ghost(rank),
            Ghost((lo as int, mid as int, hi as int)),
        )
    }
}

fn pick_all<T>(items: Vec<T>, places: &Vec<usize>) -> (result: Vec<T>)
    requires
        is_arrangement(places@.map_values(|p: usize| p as int), items@.len()),
    ensures
        is_rearranged(items@, result@, places@.map_values(|p: usize| p as int)),
{
    let ghost source = items@;
    let ghost order = places@.map_values(|p: usize| p as int);
    let mut slots: Vec<Option<T>> = Vec::new();
    for item in it: items
        invariant
            it.seq() == source,
            slots@.len() == it.index(),
            forall|k: int| 0 <= k < slots@.len() ==> #[trigger] slots@[k] == Some(source[k]),
    {
        slots.push(Some(item));
    }
    let mut result: Vec<T> = Vec::new();
    let mut i: usize = 0;
    while i < places.len()
        invariant
            order == places@.map_values(|p: usize| p as int),
            is_arrangement(order, source.len()),
            slots@.len() == source.len(),
            i <= places@.len(),
            result@.len() == i,
            forall|k: int| 0 <= k < i ==> #[trigger] result@[k] == source[order[k]],
            forall|k: int| i <= k < places@.len() ==> slots@[#[trigger] order[k]] == Some(source[order[k]]),
        decreases places.len() - i,
    {
        let at: usize = places[i];
        assert(order[i as int] == at as int);
        let slot = &mut slots[at];
        match slot.take() {
            Some(item) => {
                result.push(item);
            },
            None => {
                assert(false);
            },
        }
        i = i + 1;
    }
    result
}

/// Sorts by rank and keeps items of equal rank in their first order.
pub(crate) fn stable_sort<T, F: Fn(&T, &T) -> Order>(
    items: Vec<T>,
    compare: &F,
    Ghost(rank): Ghost<spec_fn(T, T) -> Order>,
) -> (result: Vec<T>)
    requires
        is_ranking(rank),
        forall|a: T, b: T| call_requires(*compare, (&a, &b)),
        forall|a: T, b: T, o: Order| call_ensures(*compare, (&a, &b), o) ==> o == rank(a, b),
    ensures
        is_stable_sort(items@, result@, rank),
{
    let places = sorted_run(&items, compare, 0, items.len(), Ghost(rank));
    let ghost order = places@.map_values(|p: usize| p as int);
    let ghost source = items@;
    proof {
        assert forall|i: int, j: int| 0 <= i < j < order.len() implies #[trigger] order[i]
            != #[trigger] order[j] by {
            assert(comes_first(source, rank, places@[i] as int, places@[j] as int));
            if order[i] == order[j] {
                lemma_comes_first_total(source, rank, order[i], order[i] + 1);
            }
        }
        assert forall|i: int| 0 <= i < source.len() implies 0 <= #[trigger] order[i] < source.len() by {
            assert(0 <= places@[i] < source.len());
        }
    }
    let result = pick_all(items, &places);
    proof {
        assert(is_rearranged(source, result@, order));
        assert forall|i: int, j: int|
            #![trigger result@[i], result@[j]]
            0 <= i < j < result@.len() implies rank(result@[i], result@[j]) == Order::Less || (rank(
            result@[i],
            result@[j],
        ) == Order::Equal && order[i] < order[j]) by {
            assert(comes_first(source, rank, places@[i] as int, places@[j] as int));
        }
        assert(is_ordered(result@, order, rank));
    }
    result
}

} // verus!
