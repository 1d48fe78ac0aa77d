use vstd::prelude::*;

verus! {

/// The largest number of rank thresholds a configuration may hold.
pub const MAX_RANK_THRESHOLDS: usize = 10;

/// Every threshold is at most each one after it.
pub open spec fn is_ascending(t: Seq<u64>) -> bool {
    forall|i: int, j: int| 0 <= i <= j < t.len() ==> t[i] <= t[j]
}

/// A threshold list a configuration may hold.
pub open spec fn valid_thresholds(t: Seq<u64>) -> bool {
    t.len() <= MAX_RANK_THRESHOLDS && is_ascending(t)
}

/// The number of thresholds in `t` that are at most `b`.
pub open spec fn count_at_most(t: Seq<u64>, b: u64) -> nat
    decreases t.len(),
{
    if t.len() == 0 {
        0
    } else {
        count_at_most(t.drop_last(), b) + if t.last() <= b {
            1nat
        } else {
            0nat
        }
    }
}

/// Where the first `k` thresholds are at most `b` and the rest are above it,
/// exactly `k` of them are at most `b`.
proof fn lemma_count_split(t: Seq<u64>, b: u64, k: int)
    requires
        0 <= k <= t.len(),
        forall|j: int| 0 <= j < k ==> t[j] <= b,
        forall|j: int| k <= j < t.len() ==> t[j] > b,
    ensures
        count_at_most(t, b) == k,
    decreases t.len(),
{
    if t.len() > 0 {
        let s = t.drop_last();
        if k == t.len() {
            lemma_count_split(s, b, k - 1);
        } else {
            lemma_count_split(s, b, k);
        }
    }
}

/// A larger total never has a smaller rank.
pub proof fn lemma_count_monotonic(t: Seq<u64>, a: u64, b: u64)
    requires
        a <= b,
    ensures
        count_at_most(t, a) <= count_at_most(t, b),
    decreases t.len(),
{
    if t.len() > 0 {
        lemma_count_monotonic(t.drop_last(), a, b);
    }
}

/// The rank that `total_burned` reaches on the ladder `thresholds`.
pub fn calculate_rank(total_burned: u64, thresholds: &[u64]) -> (r: u8)
    requires
        valid_thresholds(thresholds@),
    ensures
        r as nat == count_at_most(thresholds@, total_burned),
{
    let n = thresholds.len();
    let mut i: usize = n;
    while i > 0
        invariant
            0 <= i <= n,
            n == thresholds@.len(),
            n <= MAX_RANK_THRESHOLDS,
            is_ascending(thresholds@),
            forall|j: int| i <= j < n ==> thresholds@[j] > total_burned,
        decreases i,
    {
        if thresholds[i - 1] <= total_burned {
            proof {
                assert forall|j: int| 0 <= j < i as int implies thresholds@[j] <= total_burned by {
                    assert(thresholds@[j] <= thresholds@[i - 1]);
                }
                lemma_count_split(thresholds@, total_burned, i as int);
            }
            return i as u8;
        }
        i = i - 1;
    }
    proof {
        lemma_count_split(thresholds@, total_burned, 0);
    }
    0
}

/// Checks that a threshold list is in ascending order.
pub fn is_sorted_ascending(t: &Vec<u64>) -> (r: bool)
    ensures
        r == is_ascending(t@),
{
    if t.len() < 2 {
        return true;
    }
    let mut i: usize = 1;
    while i < t.len()
        invariant
            1 <= i <= t@.len(),
            forall|a: int, b: int| 0 <= a <= b < i ==> t@[a] <= t@[b],
        decreases t@.len() - i,
    {
        if t[i - 1] > t[i] {
            return false;
        }
        assert forall|a: int, b: int| 0 <= a <= b < i + 1 implies t@[a] <= t@[b] by {
            if b == i && a < i {
                assert(t@[a] <= t@[i - 1]);
            }
        }
        i = i + 1;
    }
    true
}

} // verus!
