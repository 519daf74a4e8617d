//! Samples of an event counter and the exact rates they give.

use vstd::prelude::*;

verus! {

/// The number of events a counter saw over one interval, and how long that
/// interval really lasted, in nanoseconds.
#[derive(Clone, Copy, Debug, PartialEq, Eq)]
pub struct Sample {
    pub count: u64,
    pub elapsed_nanos: u64,
}

/// The sum of a sequence of event counts.
pub open spec fn total_count(counts: Seq<u64>) -> int
    decreases counts.len(),
{
    if counts.len() == 0 {
        0
    } else {
        total_count(counts.drop_last()) + counts.last()
    }
}

/// A total of counts is never negative and never exceeds `len * u64::MAX`.
pub proof fn lemma_total_count_bounds(counts: Seq<u64>)
    ensures
        0 <= total_count(counts) <= counts.len() * (u64::MAX as int),
    decreases counts.len(),
{
    if counts.len() > 0 {
        lemma_total_count_bounds(counts.drop_last());
        let n = counts.len() as int;
        assert((n - 1) * (u64::MAX as int) + (u64::MAX as int) == n * (u64::MAX as int))
            by (nonlinear_arith);
    }
}

/// The total of two runs of counts laid end to end is the sum of their totals.
pub proof fn lemma_total_count_append(a: Seq<u64>, b: Seq<u64>)
    ensures
        total_count(a + b) == total_count(a) + total_count(b),
    decreases b.len(),
{
    if b.len() == 0 {
        assert(a + b =~= a);
    } else {
        lemma_total_count_append(a, b.drop_last());
        assert((a + b).drop_last() =~= a + b.drop_last());
    }
}

/// Taking one count out of a run lowers its total by exactly that count.
pub proof fn lemma_total_count_remove(counts: Seq<u64>, j: int)
    requires
        0 <= j < counts.len(),
    ensures
        total_count(counts) == total_count(counts.remove(j)) + counts[j],
    decreases counts.len(),
{
    if j == counts.len() - 1 {
        assert(counts.remove(j) =~= counts.drop_last());
    } else {
        lemma_total_count_remove(counts.drop_last(), j);
        assert(counts.remove(j).drop_last() =~= counts.drop_last().remove(j));
        assert(counts.remove(j).last() == counts.last());
    }
}

/// Law: the total of a run of counts does not depend on their order; any two
/// runs holding the same counts, each as many times, have the same total.
pub proof fn lemma_total_count_reorder(a: Seq<u64>, b: Seq<u64>)
    requires
        a.to_multiset() == b.to_multiset(),
    ensures
        total_count(a) == total_count(b),
    decreases a.len(),
{
    broadcast use vstd::seq_lib::group_to_multiset_ensures;

    if a.len() == 0 {
        assert(b.to_multiset().len() == 0);
        assert(b =~= a);
    } else {
        let x = a.last();
        assert(a.contains(x)) by {
            assert(a[a.len() - 1] == x);
        }
        assert(a.to_multiset().count(x) > 0);
        assert(b.to_multiset().count(x) > 0);
        assert(b.contains(x));
        let j = choose|j: int| 0 <= j < b.len() && b[j] == x;
        assert(a.remove(a.len() - 1) =~= a.drop_last());
        assert(a.drop_last().to_multiset() == b.remove(j).to_multiset());
        lemma_total_count_reorder(a.drop_last(), b.remove(j));
        lemma_total_count_remove(b, j);
    }
}

/// An average rate as an exact fraction: `events` over `nanos` nanoseconds.
#[derive(Clone, Copy, Debug, PartialEq, Eq)]
pub struct Rate {
    pub events: u128,
    pub nanos: u128,
}

/// The rate of a run of counts each taken over the same nominal interval:
/// all the events over `len * interval_nanos` nanoseconds.
pub open spec fn fixed_interval_rate_spec(counts: Seq<u64>, interval_nanos: u64) -> (int, int) {
    (total_count(counts), counts.len() * interval_nanos)
}

/// The average rate of counts that were each read after `interval_nanos`.
/// (Their mean count divided by the interval is the same fraction.)
pub fn fixed_interval_rate(counts: &[u64], interval_nanos: u64) -> (rate: Rate)
    ensures
        (rate.events as int, rate.nanos as int) == fixed_interval_rate_spec(
            counts@,
            interval_nanos,
        ),
        rate.events == total_count(counts@),
        rate.nanos == counts@.len() * interval_nanos,
{
    let n = counts.len();
    let mut total: u128 = 0;
    let mut i: usize = 0;
    while i < n
        invariant
            n == counts@.len(),
            i <= n,
            total == total_count(counts@.take(i as int)),
        decreases n - i,
    {
        proof {
            assert(counts@.take(i + 1).drop_last() =~= counts@.take(i as int));
            lemma_total_count_bounds(counts@.take(i as int));
            let k = i as int;
            assert(k * (u64::MAX as int) + (u64::MAX as int) <= (usize::MAX as int + 1) * (
            u64::MAX as int)) by (nonlinear_arith)
                requires
                    0 <= k < usize::MAX,
            ;
            assert((usize::MAX as int + 1) * (u64::MAX as int) <= u128::MAX) by (nonlinear_arith)
                requires
                    usize::MAX <= u64::MAX,
            ;
        }
        total = total + counts[i] as u128;
        i = i + 1;
    }
    assert(counts@.take(n as int) =~= counts@);
    let (n_wide, interval_wide) = (n as u128, interval_nanos as u128);
    assert(n_wide * interval_wide <= u128::MAX) by (nonlinear_arith)
        requires
            n_wide <= u64::MAX,
            interval_wide <= u64::MAX,
    ;
    let nanos = n_wide * interval_wide;
    assert(nanos == counts@.len() * interval_nanos);
    Rate { events: total, nanos }
}

/// Law: splitting a run of fixed-interval counts anywhere splits its rate;
/// the events and the time of the two parts add up to those of the whole.
pub proof fn lemma_fixed_interval_rate_split(a: Seq<u64>, b: Seq<u64>, interval_nanos: u64)
    ensures
        fixed_interval_rate_spec(a + b, interval_nanos).0 == fixed_interval_rate_spec(
            a,
            interval_nanos,
        ).0 + fixed_interval_rate_spec(b, interval_nanos).0,
        fixed_interval_rate_spec(a + b, interval_nanos).1 == fixed_interval_rate_spec(
            a,
            interval_nanos,
        ).1 + fixed_interval_rate_spec(b, interval_nanos).1,
{
    lemma_total_count_append(a, b);
    let (x, y, z) = (a.len() as int, b.len() as int, interval_nanos as int);
    assert((x + y) * z == x * z + y * z) by (nonlinear_arith);
}

/// Law: the rate of a run of fixed-interval counts does not depend on the
/// order of the counts.
pub proof fn lemma_fixed_interval_rate_reorder(a: Seq<u64>, b: Seq<u64>, interval_nanos: u64)
    requires
        a.to_multiset() == b.to_multiset(),
    ensures
        fixed_interval_rate_spec(a, interval_nanos) == fixed_interval_rate_spec(b, interval_nanos),
{
    broadcast use vstd::seq_lib::group_to_multiset_ensures;

    lemma_total_count_reorder(a, b);
    assert(a.len() == a.to_multiset().len());
    assert(b.len() == b.to_multiset().len());
}

/// Law: a run with no counts totals zero, and a run of one count totals that
/// count; with [`lemma_total_count_append`] this fixes the total of every run
/// as the sum of its counts.
pub proof fn lemma_total_count_empty_and_single(x: u64)
    ensures
        total_count(Seq::<u64>::empty()) == 0,
        total_count(seq![x]) == x,
{
    assert(seq![x].drop_last() =~= Seq::<u64>::empty());
}

/// Law: every count of a run is at most the run's total.
pub proof fn lemma_total_count_bounds_each(counts: Seq<u64>, i: int)
    requires
        0 <= i < counts.len(),
    ensures
        counts[i] <= total_count(counts),
{
    lemma_total_count_remove(counts, i);
    lemma_total_count_bounds(counts.remove(i));
}

/// Law: the time of a fixed-interval rate is one interval per count,
/// whatever the counts are (zero counts included), and its events are the
/// counts' total.
pub proof fn lemma_fixed_interval_rate_time(counts: Seq<u64>, interval_nanos: u64)
    ensures
        fixed_interval_rate_spec(counts, interval_nanos).1 == counts.len() * interval_nanos,
        fixed_interval_rate_spec(counts, interval_nanos).0 == total_count(counts),
        fixed_interval_rate_spec(counts.push(0), interval_nanos).1 == fixed_interval_rate_spec(
            counts,
            interval_nanos,
        ).1 + interval_nanos,
        fixed_interval_rate_spec(counts.push(0), interval_nanos).0 == fixed_interval_rate_spec(
            counts,
            interval_nanos,
        ).0,
{
    assert(counts.push(0).drop_last() =~= counts);
    let (n, i) = (counts.len() as int, interval_nanos as int);
    assert((n + 1) * i == n * i + i) by (nonlinear_arith);
}

} // verus!
