//! Properties of the pool that span several operations, stated over the
//! slot model that the operations' contracts use.

use vstd::prelude::*;

use crate::pool::{allocated, is_default, released, slot_of, StaticPoolHandle};

verus! {

/// `s` has its first `k` slots in use and all others free.
pub open spec fn used_prefix<T>(s: Seq<Option<T>>, k: int) -> bool {
    &&& 0 <= k <= s.len()
    &&& forall|j: int| 0 <= j < k ==> #[trigger] s[j] is Some
    &&& forall|j: int| k <= j < s.len() ==> #[trigger] s[j] is None
}

/// On slots whose first `k` are in use and the rest free, an allocation
/// returns handle `k + 1` and extends the used prefix, or, when all are in
/// use, returns nothing.
proof fn lemma_alloc_on_prefix<T: Default>(
    pre: Seq<Option<T>>,
    post: Seq<Option<T>>,
    r: Option<StaticPoolHandle>,
    k: int,
)
    requires
        used_prefix(pre, k),
        allocated(pre, post, r),
    ensures
        post.len() == pre.len(),
        k < pre.len() ==> r == Some((k + 1) as StaticPoolHandle) && used_prefix(post, k + 1),
        k == pre.len() ==> r is None && post == pre,
{
    match r {
        Some(h) => {
            if (h as int) - 1 > k {
                assert(pre[k] is Some);
            }
            assert forall|j: int| 0 <= j < k + 1 implies #[trigger] post[j] is Some by {
                if j != h - 1 {
                    assert(post[j] == pre[j]);
                }
            }
            assert forall|j: int| k + 1 <= j < post.len() implies #[trigger] post[j] is None by {
                assert(post[j] == pre[j]);
            }
        },
        None => {
            if k < pre.len() {
                assert(pre[k] is Some);
            }
        },
    }
}

/// After `k` allocations on a fresh pool of `n` slots, the first `k` slots
/// are in use and the others free.
proof fn lemma_prefix_after_allocs<T: Default>(
    states: Seq<Seq<Option<T>>>,
    results: Seq<Option<StaticPoolHandle>>,
    n: nat,
    k: nat,
)
    requires
        k <= n,
        states.len() == n + 2,
        results.len() == n + 1,
        states[0].len() == n,
        forall|i: int| 0 <= i < n ==> #[trigger] states[0][i] is None,
        forall|i: int| 0 <= i <= n ==> #[trigger] allocated(states[i], states[i + 1], results[i]),
    ensures
        used_prefix(states[k as int], k as int),
        states[k as int].len() == n,
    decreases k,
{
    if k > 0 {
        lemma_prefix_after_allocs(states, results, n, (k - 1) as nat);
        assert(allocated(states[k - 1], states[k - 1 + 1], results[k - 1]));
        lemma_alloc_on_prefix(states[k - 1], states[k as int], results[k - 1], k - 1);
    }
}

/// Capacity: starting from a pool of `n` free slots, `n + 1` allocations in a
/// row return handles `1, 2, ..., n` in that order, and the last one returns
/// nothing.
pub proof fn lemma_capacity_bound<T: Default>(
    states: Seq<Seq<Option<T>>>,
    results: Seq<Option<StaticPoolHandle>>,
    n: nat,
)
    requires
        states.len() == n + 2,
        results.len() == n + 1,
        states[0].len() == n,
        forall|i: int| 0 <= i < n ==> #[trigger] states[0][i] is None,
        forall|i: int| 0 <= i <= n ==> #[trigger] allocated(states[i], states[i + 1], results[i]),
    ensures
        forall|k: int| 0 <= k < n ==> #[trigger] results[k] == Some((k + 1) as StaticPoolHandle),
        results[n as int] is None,
{
    assert forall|k: int| 0 <= k < n implies #[trigger] results[k] == Some((k + 1) as StaticPoolHandle) by {
        lemma_prefix_after_allocs(states, results, n, k as nat);
        assert(allocated(states[k], states[k + 1], results[k]));
        lemma_alloc_on_prefix(states[k], states[k + 1], results[k], k);
    }
    lemma_prefix_after_allocs(states, results, n, n);
    assert(allocated(states[n as int], states[(n + 1) as int], results[n as int]));
    lemma_alloc_on_prefix(states[n as int], states[(n + 1) as int], results[n as int], n as int);
}

/// Right after a successful allocation, reading the new handle gives a
/// default value.
pub proof fn lemma_default_on_alloc<T: Default>(
    pre: Seq<Option<T>>,
    post: Seq<Option<T>>,
    h: StaticPoolHandle,
)
    requires
        allocated(pre, post, Some(h)),
    ensures
        slot_of(post, h as int) matches Some(v) && is_default(v),
{
}

/// After a value is written through a valid handle, reading that handle gives
/// the value back.
pub proof fn lemma_read_after_write<T>(s: Seq<Option<T>>, h: int, v: T)
    requires
        slot_of(s, h) is Some,
    ensures
        slot_of(s.update(h - 1, Some(v)), h) == Some(v),
{
}

/// What a handle reads stays until that handle is released: an allocation, a
/// release of another handle and a write through another valid handle all
/// leave it as it was.
pub proof fn lemma_item_kept<T: Default>(
    s: Seq<Option<T>>,
    h: int,
    v: T,
    g: int,
    w: T,
    post: Seq<Option<T>>,
    r: Option<StaticPoolHandle>,
)
    requires
        slot_of(s, h) == Some(v),
        g != h,
    ensures
        allocated(s, post, r) ==> slot_of(post, h) == Some(v),
        slot_of(released(s, g), h) == Some(v),
        slot_of(s, g) is Some ==> slot_of(s.update(g - 1, Some(w)), h) == Some(v),
{
    if allocated(s, post, r) {
        if let Some(a) = r {
            assert(post[h - 1] == s.update(a - 1, post[a - 1])[h - 1]);
        }
    }
}

/// After a handle is released, reading or writing through it finds nothing.
pub proof fn lemma_released_invalid<T>(s: Seq<Option<T>>, h: int)
    ensures
        slot_of(released(s, h), h) is None,
{
}

/// Releasing a handle twice in a row leaves the pool as releasing it once.
pub proof fn lemma_release_idempotent<T>(s: Seq<Option<T>>, h: int)
    ensures
        released(released(s, h), h) == released(s, h),
{
    if 1 <= h <= s.len() {
        assert(released(released(s, h), h) =~= released(s, h));
    }
}

/// After slot `k` is freed, the next allocation returns a handle no higher
/// than `k`, and exactly `k` when every lower slot is in use.
pub proof fn lemma_slot_reuse<T: Default>(
    s: Seq<Option<T>>,
    k: int,
    post: Seq<Option<T>>,
    r: Option<StaticPoolHandle>,
)
    requires
        1 <= k <= s.len(),
        allocated(released(s, k), post, r),
    ensures
        r matches Some(h) && h <= k,
        (forall|j: int| 0 <= j < k - 1 ==> #[trigger] s[j] is Some) ==> r == Some(k as StaticPoolHandle),
{
    let freed = released(s, k);
    assert(freed[k - 1] is None);
    if let Some(h) = r {
        if h > k {
            assert(freed[k - 1] is Some);
        }
        if forall|j: int| 0 <= j < k - 1 ==> #[trigger] s[j] is Some {
            if h < k {
                assert(freed[h - 1] == s[h - 1]);
            }
        }
    }
}

/// A handle of `0` or above the pool's size reads and writes nothing, and
/// releasing it changes nothing.
pub proof fn lemma_out_of_range<T>(s: Seq<Option<T>>, h: int)
    requires
        h == 0 || h > s.len(),
    ensures
        slot_of(s, h) is None,
        released(s, h) == s,
{
}

} // verus!
