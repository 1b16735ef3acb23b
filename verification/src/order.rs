//! Sorting by a strict order.

use vstd::prelude::*;

verus! {

/// `before` is irreflexive, transitive and total on the indices below `n`.
pub open spec fn strict_order(before: spec_fn(int, int) -> bool, n: int) -> bool {
    &&& forall|i: int| 0 <= i < n ==> !#[trigger] before(i, i)
    &&& forall|i: int, j: int, k: int|
        0 <= i < n && 0 <= j < n && 0 <= k < n && #[trigger] before(i, j) && #[trigger] before(
            j,
            k,
        ) ==> before(i, k)
    &&& forall|i: int, j: int|
        0 <= i < n && 0 <= j < n && i != j ==> #[trigger] before(i, j) || before(j, i)
}

/// `order` lists indices of `lo..hi`, each before the next ones.
pub open spec fn ascending(
    order: Seq<usize>,
    before: spec_fn(int, int) -> bool,
    lo: int,
    hi: int,
) -> bool {
    &&& forall|i: int| 0 <= i < order.len() ==> lo <= #[trigger] order[i] < hi
    &&& forall|i: int, j: int|
        0 <= i < j < order.len() ==> before(#[trigger] order[i] as int, #[trigger] order[j] as int)
}

/// `order` lists all indices below `n`, each before the next ones.
pub open spec fn is_sorted_order(
    order: Seq<usize>,
    before: spec_fn(int, int) -> bool,
    n: int,
) -> bool {
    order.len() == n && ascending(order, before, 0, n)
}

/// `less` decides `before` on the indices below `n`.
pub open spec fn decides<L: Fn(usize, usize) -> bool>(
    less: L,
    before: spec_fn(int, int) -> bool,
    n: int,
) -> bool {
    &&& forall|i: usize, j: usize| i < n && j < n ==> call_requires(less, (i, j))
    &&& forall|i: usize, j: usize, r: bool|
        i < n && j < n && #[trigger] call_ensures(less, (i, j), r) ==> r == before(
            i as int,
            j as int,
        )
}

/// The two ascending lists as one.
fn merge<L: Fn(usize, usize) -> bool>(
    a: Vec<usize>,
    b: Vec<usize>,
    less: &L,
    Ghost(before): Ghost<spec_fn(int, int) -> bool>,
    Ghost(lo): Ghost<int>,
    Ghost(mid): Ghost<int>,
    Ghost(hi): Ghost<int>,
    Ghost(n): Ghost<int>,
) -> (r: Vec<usize>)
    requires
        0 <= lo <= mid <= hi <= n,
        strict_order(before, n),
        decides(*less, before, n),
        ascending(a@, before, lo, mid),
        ascending(b@, before, mid, hi),
        a@.len() + b@.len() <= usize::MAX,
    ensures
        ascending(r@, before, lo, hi),
        r@.len() == a@.len() + b@.len(),
{
    let mut r: Vec<usize> = Vec::new();
    let mut i: usize = 0;
    let mut j: usize = 0;
    while i < a.len() || j < b.len()
        invariant
            0 <= lo <= mid <= hi <= n,
            strict_order(before, n),
            decides(*less, before, n),
            ascending(a@, before, lo, mid),
            ascending(b@, before, mid, hi),
            i <= a@.len(),
            j <= b@.len(),
            a@.len() + b@.len() <= usize::MAX,
            r@.len() == i + j,
            ascending(r@, before, lo, hi),
            forall|k: int, x: int|
                0 <= k < r@.len() && i <= x < a@.len() ==> before(
                    #[trigger] r@[k] as int,
                    #[trigger] a@[x] as int,
                ),
            forall|k: int, x: int|
                0 <= k < r@.len() && j <= x < b@.len() ==> before(
                    #[trigger] r@[k] as int,
                    #[trigger] b@[x] as int,
                ),
        decreases a@.len() + b@.len() - i - j,
    {
        let from_a: bool = if i >= a.len() {
            false
        } else if j >= b.len() {
            true
        } else {
            less(a[i], b[j])
        };
        if from_a {
            proof {
                let v = a@[i as int];
                assert forall|x: int| j <= x < b@.len() implies before(
                    v as int,
                    #[trigger] b@[x] as int,
                ) by {
                    if x > j {
                        assert(before(v as int, b@[j as int] as int));
                        assert(before(b@[j as int] as int, b@[x] as int));
                    }
                }
            }
            r.push(a[i]);
            i = i + 1;
        } else {
            proof {
                let v = b@[j as int];
                assert forall|x: int| i <= x < a@.len() implies before(
                    v as int,
                    #[trigger] a@[x] as int,
                ) by {
                    assert(before(v as int, a@[i as int] as int)) by {
                        assert(a@[i as int] != v);
                        assert(before(a@[i as int] as int, v as int) || before(
                            v as int,
                            a@[i as int] as int,
                        ));
                    }
                    if x > i {
                        assert(before(a@[i as int] as int, a@[x] as int));
                    }
                }
            }
            r.push(b[j]);
            j = j + 1;
        }
    }
    r
}

fn sort_range<L: Fn(usize, usize) -> bool>(
    lo: usize,
    hi: usize,
    less: &L,
    Ghost(before): Ghost<spec_fn(int, int) -> bool>,
    Ghost(n): Ghost<int>,
) -> (r: Vec<usize>)
    requires
        lo <= hi <= n,
        strict_order(before, n),
        decides(*less, before, n),
    ensures
        ascending(r@, before, lo as int, hi as int),
        r@.len() == hi - lo,
    decreases hi - lo,
{
    if hi - lo == 0 {
        Vec::new()
    } else if hi - lo == 1 {
        let mut r: Vec<usize> = Vec::new();
        r.push(lo);
        r
    } else {
        let mid: usize = lo + (hi - lo) / 2;
        let a = sort_range(lo, mid, less, Ghost(before), Ghost(n));
        let b = sort_range(mid, hi, less, Ghost(before), Ghost(n));
        merge(
            a,
            b,
            less,
            Ghost(before),
            Ghost(lo as int),
            Ghost(mid as int),
            Ghost(hi as int),
            Ghost(n),
        )
    }
}

/// The indices below `n` in the order that `less` decides.
pub(crate) fn sorted_indices<L: Fn(usize, usize) -> bool>(
    n: usize,
    less: &L,
    Ghost(before): Ghost<spec_fn(int, int) -> bool>,
) -> (r: Vec<usize>)
    requires
        strict_order(before, n as int),
        decides(*less, before, n as int),
    ensures
        is_sorted_order(r@, before, n as int),
{
    sort_range(0, n, less, Ghost(before), Ghost(n as int))
}

/// Every index has a place in a sorted order.
pub proof fn sorted_order_covers(order: Seq<usize>, before: spec_fn(int, int) -> bool, n: int, x: int)
    requires
        strict_order(before, n),
        is_sorted_order(order, before, n),
        0 <= x < n,
    ensures
        exists|i: int| 0 <= i < n && #[trigger] order[i] == x,
{
    let values = order.map_values(|v: usize| v as int);
    assert(values.no_duplicates()) by {
        assert forall|i: int, j: int|
            0 <= i < values.len() && 0 <= j < values.len() && i != j implies values[i]
            != values[j] by {
            if i < j {
                assert(before(order[i] as int, order[j] as int));
            } else {
                assert(before(order[j] as int, order[i] as int));
            }
        }
    }
    values.unique_seq_to_set();
    let all = vstd::set_lib::set_int_range(0, n);
    vstd::set_lib::lemma_int_range(0, n);
    assert(values.to_set().subset_of(all)) by {
        assert forall|v: int| values.to_set().contains(v) implies all.contains(v) by {
            let i = choose|i: int| 0 <= i < values.len() && values[i] == v;
            assert(order[i] == v);
        }
    }
    vstd::set_lib::lemma_subset_equality(values.to_set(), all);
    assert(values.to_set().contains(x));
    let i = choose|i: int| 0 <= i < values.len() && values[i] == x;
    assert(order[i] == x);
}

/// A strict order sorts in one way only: every index has its place.
pub proof fn sorted_order_is_unique(
    a: Seq<usize>,
    b: Seq<usize>,
    before: spec_fn(int, int) -> bool,
    n: int,
)
    requires
        strict_order(before, n),
        is_sorted_order(a, before, n),
        is_sorted_order(b, before, n),
    ensures
        a == b,
{
    assert forall|k: int| 0 <= k <= n implies a.take(k) == #[trigger] b.take(k) by {
        prefixes_agree(a, b, before, n, k);
    }
    assert(a.take(n) =~= a);
    assert(b.take(n) =~= b);
}

proof fn prefixes_agree(
    a: Seq<usize>,
    b: Seq<usize>,
    before: spec_fn(int, int) -> bool,
    n: int,
    k: int,
)
    requires
        strict_order(before, n),
        is_sorted_order(a, before, n),
        is_sorted_order(b, before, n),
        0 <= k <= n,
    ensures
        a.take(k) == b.take(k),
    decreases k,
{
    if k > 0 {
        prefixes_agree(a, b, before, n, k - 1);
        let x = a[k - 1];
        let y = b[k - 1];
        sorted_order_covers(b, before, n, x as int);
        sorted_order_covers(a, before, n, y as int);
        let i = choose|i: int| 0 <= i < n && #[trigger] b[i] == x;
        let j = choose|j: int| 0 <= j < n && #[trigger] a[j] == y;
        if x != y {
            if i < k - 1 {
                assert(a.take(k - 1)[i] == b.take(k - 1)[i]);
                assert(a[i] == x);
                assert(before(a[i] as int, a[k - 1] as int));
            }
            if j < k - 1 {
                assert(a.take(k - 1)[j] == b.take(k - 1)[j]);
                assert(b[j] == y);
                assert(before(b[j] as int, b[k - 1] as int));
            }
            assert(before(y as int, x as int)) by {
                assert(before(b[k - 1] as int, b[i] as int));
            }
            assert(before(x as int, y as int)) by {
                assert(before(a[k - 1] as int, a[j] as int));
            }
        }
        assert(a.take(k) =~= a.take(k - 1).push(x));
        assert(b.take(k) =~= b.take(k - 1).push(y));
    } else {
        assert(a.take(0) =~= b.take(0));
    }
}

/// The indices below `n` in order.
pub open spec fn sorted_order(before: spec_fn(int, int) -> bool, n: int) -> Seq<usize> {
    choose|order: Seq<usize>| is_sorted_order(order, before, n)
}

/// What is sorted is the sorted order.
pub proof fn sorted_order_is(order: Seq<usize>, before: spec_fn(int, int) -> bool, n: int)
    requires
        strict_order(before, n),
        is_sorted_order(order, before, n),
    ensures
        order == sorted_order(before, n),
{
    sorted_order_is_unique(order, sorted_order(before, n), before, n);
}

proof fn orders_exist(before: spec_fn(int, int) -> bool, n: int) -> (order: Seq<usize>)
    requires
        strict_order(before, n),
        0 <= n <= usize::MAX,
    ensures
        is_sorted_order(order, before, n),
    decreases n,
{
    if n == 0 {
        Seq::empty()
    } else {
        let x = n - 1;
        let rest = orders_exist(before, x);
        let k = place_for(before, n, rest, 0);
        let order = rest.insert(k, x as usize);
        assert forall|i: int, j: int| 0 <= i < j < n implies before(
            order[i] as int,
            order[j] as int,
        ) by {
            let old = |m: int| if m < k {
                m
            } else {
                m - 1
            };
            if i != k && j != k {
                assert(before(rest[old(i)] as int, rest[old(j)] as int));
            } else if i == k {
                if old(j) != k {
                    assert(before(rest[k] as int, rest[old(j)] as int));
                }
            }
        }
        order
    }
}

/// Where the last index belongs among the others: behind all that come before it.
proof fn place_for(before: spec_fn(int, int) -> bool, n: int, rest: Seq<usize>, from: int) -> (k: int)
    requires
        strict_order(before, n),
        n > 0,
        is_sorted_order(rest, before, n - 1),
        0 <= from <= n - 1,
        forall|j: int| 0 <= j < from ==> before(#[trigger] rest[j] as int, n - 1),
    ensures
        0 <= k <= n - 1,
        forall|j: int| 0 <= j < k ==> before(#[trigger] rest[j] as int, n - 1),
        k < n - 1 ==> before(n - 1, rest[k] as int),
    decreases n - 1 - from,
{
    if from == n - 1 || before(n - 1, rest[from] as int) {
        from
    } else {
        assert(before(rest[from] as int, n - 1));
        place_for(before, n, rest, from + 1)
    }
}

/// A strict order on so many indices sorts them.
pub proof fn sorted_order_sorts(before: spec_fn(int, int) -> bool, n: int)
    requires
        strict_order(before, n),
        0 <= n <= usize::MAX,
    ensures
        is_sorted_order(sorted_order(before, n), before, n),
{
    let order = orders_exist(before, n);
}

} // verus!
