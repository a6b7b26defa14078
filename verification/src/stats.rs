//! Sums, maxima and order statistics over latency samples.
use vstd::prelude::*;
use vstd::relations::{sorted_by, total_ordering};

verus! {

/// The ordering that latencies are sorted by.
pub open spec fn u64_leq() -> spec_fn(u64, u64) -> bool {
    |a: u64, b: u64| a <= b
}

/// `s` sorted ascending.
pub open spec fn sorted_u64(s: Seq<u64>) -> Seq<u64> {
    s.sort_by(u64_leq())
}

pub open spec fn sum_u64(s: Seq<u64>) -> nat
    decreases s.len(),
{
    if s.len() == 0 {
        0
    } else {
        sum_u64(s.drop_last()) + s.last() as nat
    }
}

/// The largest element of `s`, or 0 for an empty sequence.
pub open spec fn max_u64(s: Seq<u64>) -> u64
    decreases s.len(),
{
    if s.len() == 0 {
        0
    } else {
        let m = max_u64(s.drop_last());
        if s.last() > m {
            s.last()
        } else {
            m
        }
    }
}

/// Mean rounded down, 0 for an empty sequence.
pub open spec fn mean_u64(s: Seq<u64>) -> nat {
    if s.len() == 0 {
        0
    } else {
        sum_u64(s) / s.len()
    }
}

/// Index of the 95th percentile in a sorted sequence of `n > 0` values:
/// `ceil(n * 0.95) - 1`.
pub open spec fn p95_index(n: nat) -> int {
    (n * 95 + 99) / 100 - 1
}

/// Index of the median (lower middle) in a sorted sequence of `n > 0` values.
pub open spec fn p50_index(n: nat) -> int {
    (n - 1) / 2
}

/// The 95th percentile of `s`, 0 for an empty sequence.
pub open spec fn p95_u64(s: Seq<u64>) -> u64 {
    if s.len() == 0 {
        0
    } else {
        sorted_u64(s)[p95_index(s.len())]
    }
}

/// The median of `s`, 0 for an empty sequence.
pub open spec fn p50_u64(s: Seq<u64>) -> u64 {
    if s.len() == 0 {
        0
    } else {
        sorted_u64(s)[p50_index(s.len())]
    }
}

pub proof fn lemma_u64_leq_total()
    ensures
        total_ordering(u64_leq()),
{
}

pub proof fn lemma_sum_bound(s: Seq<u64>)
    ensures
        sum_u64(s) <= s.len() * (u64::MAX as nat),
    decreases s.len(),
{
    if s.len() > 0 {
        lemma_sum_bound(s.drop_last());
        assert((s.len() - 1) * (u64::MAX as nat) + (u64::MAX as nat) == s.len() * (u64::MAX as nat))
            by (nonlinear_arith);
    }
}

pub proof fn lemma_mean_bound(s: Seq<u64>)
    ensures
        mean_u64(s) <= u64::MAX,
{
    if s.len() > 0 {
        lemma_sum_bound(s);
        let n = s.len();
        let t = sum_u64(s);
        assert(t / n <= u64::MAX) by (nonlinear_arith)
            requires
                t <= n * (u64::MAX as nat),
                n > 0,
        ;
    }
}

pub proof fn lemma_p95_index_bounds(n: nat)
    requires
        n > 0,
    ensures
        0 <= p95_index(n) < n,
        0 <= p50_index(n) < n,
{
}

/// Sum of the values, exactly.
pub fn sum_of(v: &[u64]) -> (r: u128)
    requires
        v.len() <= 0x1_0000_0000,
    ensures
        r == sum_u64(v@),
{
    let mut acc: u128 = 0;
    let mut i: usize = 0;
    while i < v.len()
        invariant
            i <= v.len(),
            v.len() <= 0x1_0000_0000,
            acc == sum_u64(v@.take(i as int)),
        decreases v.len() - i,
    {
        proof {
            assert(v@.take(i as int + 1).drop_last() =~= v@.take(i as int));
            lemma_sum_bound(v@.take(i as int));
            assert(i * (u64::MAX as nat) <= 0x1_0000_0000 * (u64::MAX as nat)) by (nonlinear_arith)
                requires
                    i <= 0x1_0000_0000,
            ;
        }
        acc = acc + v[i] as u128;
        i += 1;
    }
    assert(v@.take(v.len() as int) =~= v@);
    acc
}

/// Mean rounded down; 0 when there are no values.
pub fn mean_of(v: &[u64]) -> (r: u64)
    requires
        v.len() <= 0x1_0000_0000,
    ensures
        r == mean_u64(v@),
{
    if v.len() == 0 {
        return 0;
    }
    let s = sum_of(v);
    proof {
        lemma_mean_bound(v@);
    }
    (s / (v.len() as u128)) as u64
}

/// Largest value; 0 when there are none.
pub fn max_of(v: &[u64]) -> (r: u64)
    ensures
        r == max_u64(v@),
{
    let mut m: u64 = 0;
    let mut i: usize = 0;
    while i < v.len()
        invariant
            i <= v.len(),
            m == max_u64(v@.take(i as int)),
        decreases v.len() - i,
    {
        assert(v@.take(i as int + 1).drop_last() =~= v@.take(i as int));
        if v[i] > m {
            m = v[i];
        }
        i += 1;
    }
    assert(v@.take(v.len() as int) =~= v@);
    m
}

/// The values sorted ascending.
pub fn sort_u64(v: &[u64]) -> (r: Vec<u64>)
    ensures
        r@ == sorted_u64(v@),
        r@.len() == v@.len(),
{
    let ghost leq = u64_leq();
    let mut out: Vec<u64> = Vec::new();
    let mut i: usize = 0;
    assert(v@.take(0) =~= out@);
    while i < v.len()
        invariant
            i <= v.len(),
            leq == u64_leq(),
            sorted_by(out@, leq),
            out@.to_multiset() == v@.take(i as int).to_multiset(),
        decreases v.len() - i,
    {
        let x = v[i];
        let mut p: usize = 0;
        while p < out.len() && out[p] <= x
            invariant
                p <= out.len(),
                forall|j: int| 0 <= j < p ==> out@[j] <= x,
            decreases out.len() - p,
        {
            p += 1;
        }
        let ghost before = out@;
        out.insert(p, x);
        proof {
            broadcast use vstd::seq_lib::group_to_multiset_ensures;
            assert forall|a: int, b: int| 0 <= a < b < out@.len() implies #[trigger] leq(out@[a], out@[b]) by {
                if b < p {
                    assert(leq(before[a], before[b]));
                } else if a < p && b == p {
                } else if a < p && b > p {
                    assert(before[b - 1] > x || before[b - 1] >= x) by {
                        if p < before.len() {
                            assert(before[p as int] > x);
                            if b - 1 > p {
                                assert(leq(before[p as int], before[b - 1]));
                            }
                        }
                    }
                } else if a == p {
                    assert(before[p as int] > x);
                    if b - 1 > p {
                        assert(leq(before[p as int], before[b - 1]));
                    }
                } else {
                    assert(leq(before[a - 1], before[b - 1]));
                }
            }
            assert(v@.take(i as int + 1) =~= v@.take(i as int).push(x));
        }
        i += 1;
    }
    proof {
        assert(v@.take(v.len() as int) =~= v@);
        lemma_u64_leq_total();
        v@.lemma_sort_by_ensures(leq);
        vstd::seq_lib::lemma_sorted_unique(out@, v@.sort_by(leq), leq);
        vstd::seq_lib::to_multiset_len(out@);
        vstd::seq_lib::to_multiset_len(v@);
    }
    out
}

/// The 95th percentile of the values (0 when there are none).
pub fn p95_of(v: &[u64]) -> (r: u64)
    requires
        v.len() <= 0x1_0000_0000,
    ensures
        r == p95_u64(v@),
{
    if v.len() == 0 {
        return 0;
    }
    let sorted = sort_u64(v);
    let n = v.len() as u64;
    let idx = (n * 95 + 99) / 100 - 1;
    proof {
        lemma_p95_index_bounds(n as nat);
    }
    sorted[idx as usize]
}

/// The median (lower middle) of the values (0 when there are none).
pub fn p50_of(v: &[u64]) -> (r: u64)
    ensures
        r == p50_u64(v@),
{
    if v.len() == 0 {
        return 0;
    }
    let sorted = sort_u64(v);
    let n = v.len();
    proof {
        lemma_p95_index_bounds(n as nat);
    }
    sorted[(n - 1) / 2]
}

} // verus!
