//! Order statistics and sums over frame time samples.

use vstd::prelude::*;
use vstd::relations::{sorted_by, total_ordering};

verus! {

/// The order on samples.
pub open spec fn sample_order() -> spec_fn(u64, u64) -> bool {
    |a: u64, b: u64| a <= b
}

/// The samples in ascending order.
pub open spec fn sorted_samples(s: Seq<u64>) -> Seq<u64> {
    s.sort_by(sample_order())
}

/// The sum of the samples.
pub open spec fn sample_sum(s: Seq<u64>) -> nat
    decreases s.len(),
{
    if s.len() == 0 {
        0
    } else {
        sample_sum(s.drop_last()) + s.last() as nat
    }
}

/// The sum of the squares of the samples.
pub open spec fn sample_sum_sq(s: Seq<u64>) -> nat
    decreases s.len(),
{
    if s.len() == 0 {
        0
    } else {
        sample_sum_sq(s.drop_last()) + (s.last() as nat) * (s.last() as nat)
    }
}

proof fn lemma_sample_order_total()
    ensures
        total_ordering(sample_order()),
{
}

/// A copy of `v` in ascending order.
pub fn sorted_copy(v: &Vec<u64>) -> (r: Vec<u64>)
    ensures
        r@ == sorted_samples(v@),
{
    broadcast use vstd::seq_lib::group_to_multiset_ensures;

    let mut out: Vec<u64> = Vec::new();
    let mut i: usize = 0;
    while i < v.len()
        invariant
            i <= v@.len(),
            out@.len() == i,
            sorted_by(out@, sample_order()),
            out@.to_multiset() == v@.take(i as int).to_multiset(),
        decreases v.len() - i,
    {
        let x = v[i];
        let mut pos: usize = 0;
        while pos < out.len() && out[pos] <= x
            invariant
                pos <= out@.len(),
                forall|j: int| 0 <= j < pos ==> out@[j] <= x,
                sorted_by(out@, sample_order()),
            decreases out.len() - pos,
        {
            pos = pos + 1;
        }
        let ghost before = out@;
        out.insert(pos, x);
        proof {
            before.insert_ensures(pos as int, x);
            assert(out@ == before.insert(pos as int, x));
            assert forall|a: int, b: int| 0 <= a < b < out@.len() implies #[trigger] sample_order()(
                out@[a],
                out@[b],
            ) by {
                if b < pos {
                    assert(out@[a] == before[a] && out@[b] == before[b]);
                    assert(sample_order()(before[a], before[b]));
                } else if b == pos {
                    assert(out@[a] == before[a]);
                } else if a < pos {
                    assert(out@[a] == before[a] && out@[b] == before[b - 1]);
                    assert(sample_order()(before[a], before[b - 1]) || a == b - 1);
                } else if a == pos {
                    assert(out@[b] == before[b - 1]);
                    assert(!(before[pos as int] <= x));
                    assert(sample_order()(before[pos as int], before[b - 1]) || pos == b - 1);
                } else {
                    assert(out@[a] == before[a - 1] && out@[b] == before[b - 1]);
                    assert(sample_order()(before[a - 1], before[b - 1]));
                }
            }
            vstd::seq_lib::to_multiset_insert(before, pos as int, x);
        }
        assert(v@.take(i + 1) =~= v@.take(i as int).push(x));
        proof {
            vstd::seq_lib::to_multiset_build(v@.take(i as int), x);
        }
        i = i + 1;
    }
    proof {
        assert(v@.take(v@.len() as int) =~= v@);
        lemma_sample_order_total();
        v@.lemma_sort_by_ensures(sample_order());
        vstd::seq_lib::lemma_sorted_unique(out@, sorted_samples(v@), sample_order());
    }
    out
}


/// The most samples kept for the frame time metrics.
pub const FRAME_TIME_SAMPLES: usize = 10_000;

/// Frame jitter below this standard deviation (0.5 ms) is low.
pub const LOW_JITTER_NS: u64 = 500_000;

/// Frame jitter below this standard deviation (2 ms), and not low, is medium.
pub const MEDIUM_JITTER_NS: u64 = 2_000_000;

/// How steady the frame times are.
#[derive(Clone, Copy, Debug, PartialEq, Eq, Structural)]
pub enum Jitter {
    Low,
    Medium,
    High,
}

/// `n` times the sample variance of `s`, times `n - 1`:
/// `n * sum(t^2) - sum(t)^2`. The sample variance is this over `n * (n - 1)`.
pub open spec fn scaled_variance(s: Seq<u64>) -> int {
    s.len() * sample_sum_sq(s) - sample_sum(s) * sample_sum(s)
}

/// Whether the sample standard deviation of `s` (with `n - 1` in the
/// denominator) is below `limit` nanoseconds; with fewer than two samples the
/// deviation is zero.
pub open spec fn deviation_below(s: Seq<u64>, limit: u64) -> bool {
    s.len() <= 1 || scaled_variance(s) < (limit * limit) * (s.len() * (s.len() - 1))
}

/// The jitter class of a run: low below 0.5 ms of standard deviation,
/// medium below 2 ms, high otherwise.
pub open spec fn jitter_of(s: Seq<u64>) -> Jitter {
    if deviation_below(s, LOW_JITTER_NS) {
        Jitter::Low
    } else if deviation_below(s, MEDIUM_JITTER_NS) {
        Jitter::Medium
    } else {
        Jitter::High
    }
}

/// Where the 99th percentile sits among `n` sorted samples.
pub open spec fn p99_index(n: nat) -> int {
    if n * 99 / 100 < n - 1 {
        (n * 99 / 100) as int
    } else {
        n - 1
    }
}

/// The 99th percentile frame time, or 0 without samples.
pub open spec fn p99_of(s: Seq<u64>) -> u64 {
    if s.len() == 0 {
        0
    } else {
        sorted_samples(s)[p99_index(s.len())]
    }
}

/// The fastest frame time, when there is a sample.
pub open spec fn fastest_of(s: Seq<u64>) -> Option<u64> {
    if s.len() == 0 {
        None
    } else {
        Some(sorted_samples(s)[0])
    }
}

/// The sum of the deviations of the samples from `m`.
pub open spec fn deviation_sum(s: Seq<u64>, m: int) -> int
    decreases s.len(),
{
    if s.len() == 0 {
        0
    } else {
        deviation_sum(s.drop_last(), m) + (s.last() - m)
    }
}

/// The sum of the squared deviations of the samples from `m`.
pub open spec fn deviation_sum_sq(s: Seq<u64>, m: int) -> int
    decreases s.len(),
{
    if s.len() == 0 {
        0
    } else {
        deviation_sum_sq(s.drop_last(), m) + (s.last() - m) * (s.last() - m)
    }
}

/// Deviations from `m` add up to the sums of the samples, shifted.
proof fn lemma_deviation_sums(s: Seq<u64>, m: int)
    ensures
        deviation_sum(s, m) == sample_sum(s) - s.len() * m,
        deviation_sum_sq(s, m) == sample_sum_sq(s) - 2 * m * sample_sum(s) + s.len() * (m * m),
    decreases s.len(),
{
    if s.len() > 0 {
        let r = s.drop_last();
        let x = s.last() as int;
        lemma_deviation_sums(r, m);
        let n = r.len() as int;
        let sr = sample_sum(r) as int;
        let qr = sample_sum_sq(r) as int;
        assert(sample_sum_sq(s) == qr + x * x);
        assert(sample_sum(s) == sr + x);
        assert(s.len() == n + 1);
        assert(deviation_sum_sq(s, m) == qr - 2 * m * sr + n * (m * m) + (x - m) * (x - m));
        assert(qr - 2 * m * sr + n * (m * m) + (x - m) * (x - m) == (qr + x * x) - 2 * m * (sr + x)
            + (n + 1) * (m * m)) by (nonlinear_arith);
        assert((n + 1) * m == n * m + m) by (nonlinear_arith);
        let q = sample_sum_sq(s) as int;
        let t = sample_sum(s) as int;
        let len = s.len() as int;
        assert(qr - 2 * m * sr + n * (m * m) + (x - m) * (x - m) == q - 2 * m * t + len * (m
            * m)) by (nonlinear_arith)
            requires
                q == qr + x * x,
                t == sr + x,
                len == n + 1,
        ;
        assert(deviation_sum_sq(s, m) == q - 2 * m * t + len * (m * m));
    } else {
        let len = s.len() as int;
        let t = sample_sum(s) as int;
        assert(t == 0);
        assert(len * (m * m) == 0 && len * m == 0 && 2 * m * t == 0) by (nonlinear_arith)
            requires
                len == 0,
                t == 0,
        ;
    }
}

/// The scaled variance does not change when every sample is shifted by `m`.
proof fn lemma_variance_shift(s: Seq<u64>, m: int)
    ensures
        scaled_variance(s) == s.len() * deviation_sum_sq(s, m) - deviation_sum(s, m)
            * deviation_sum(s, m),
{
    lemma_deviation_sums(s, m);
    let n = s.len() as int;
    let t = sample_sum(s) as int;
    let q = sample_sum_sq(s) as int;
    assert(n * (q - 2 * m * t + n * (m * m)) - (t - n * m) * (t - n * m) == n * q - t * t) by (
    nonlinear_arith);
}

/// Adding a sample adds its squared deviations from the earlier samples.
proof fn lemma_variance_push(s: Seq<u64>, x: u64)
    ensures
        scaled_variance(s.push(x)) == scaled_variance(s) + deviation_sum_sq(s, x as int),
{
    let p = s.push(x);
    assert(p.drop_last() =~= s);
    lemma_deviation_sums(s, x as int);
    let n = s.len() as int;
    let t = sample_sum(s) as int;
    let q = sample_sum_sq(s) as int;
    let y = x as int;
    assert((n + 1) * (q + y * y) - (t + y) * (t + y) == (n * q - t * t) + (q - 2 * y * t + n * (
    y * y))) by (nonlinear_arith);
}

/// Each squared deviation is at most their sum.
proof fn lemma_deviation_term(s: Seq<u64>, m: int, i: int)
    requires
        0 <= i < s.len(),
    ensures
        deviation_sum_sq(s, m) >= (s[i] - m) * (s[i] - m),
        deviation_sum_sq(s, m) >= 0,
    decreases s.len(),
{
    let r = s.drop_last();
    let x = s.last() - m;
    assert(x * x >= 0) by (nonlinear_arith);
    assert(deviation_sum_sq(s, m) == deviation_sum_sq(r, m) + x * x);
    if r.len() > 0 {
        lemma_deviation_term(r, m, 0);
    }
    if i < s.len() - 1 {
        assert(s[i] == r[i]);
        lemma_deviation_term(r, m, i);
    }
}

/// Two samples that lie `d` apart make the scaled variance at least `d * d`.
proof fn lemma_variance_spread(s: Seq<u64>, i: int, j: int)
    requires
        0 <= i < s.len(),
        0 <= j < s.len(),
    ensures
        scaled_variance(s) >= (s[i] - s[j]) * (s[i] - s[j]),
    decreases s.len(),
{
    let r = s.drop_last();
    let x = s.last();
    assert(s =~= r.push(x));
    lemma_variance_push(r, x);
    let k = s.len() - 1;
    if i == j {
        assert((s[i] - s[j]) * (s[i] - s[j]) == 0);
        lemma_variance_nonnegative(s);
    } else if i < k && j < k {
        lemma_variance_spread(r, i, j);
        if r.len() > 0 {
            lemma_deviation_term(r, x as int, 0);
        }
    } else if i == k {
        lemma_deviation_term(r, x as int, j);
        lemma_variance_nonnegative(r);
        assert((s[i] - s[j]) * (s[i] - s[j]) == (r[j] - x) * (r[j] - x)) by (nonlinear_arith)
            requires
                s[i] == x,
                s[j] == r[j],
        ;
    } else {
        lemma_deviation_term(r, x as int, i);
        lemma_variance_nonnegative(r);
    }
}

/// The scaled variance is never negative.
proof fn lemma_variance_nonnegative(s: Seq<u64>)
    ensures
        scaled_variance(s) >= 0,
    decreases s.len(),
{
    if s.len() > 0 {
        let r = s.drop_last();
        assert(s =~= r.push(s.last()));
        lemma_variance_push(r, s.last());
        lemma_variance_nonnegative(r);
        if r.len() > 0 {
            lemma_deviation_term(r, s.last() as int, 0);
        }
    }
}

/// The samples add up to at most their count times `u64::MAX`.
pub proof fn lemma_sum_bounded(s: Seq<u64>)
    ensures
        sample_sum(s) <= s.len() * (u64::MAX as nat),
    decreases s.len(),
{
    if s.len() > 0 {
        lemma_sum_bounded(s.drop_last());
        assert(s.len() * (u64::MAX as nat) == (s.len() - 1) * (u64::MAX as nat) + u64::MAX)
            by (nonlinear_arith);
    }
}

/// The sum of the samples.
pub fn sample_total(v: &Vec<u64>) -> (r: u128)
    requires
        v@.len() <= FRAME_TIME_SAMPLES,
    ensures
        r == sample_sum(v@),
{
    let mut sum: u128 = 0;
    let mut i: usize = 0;
    while i < v.len()
        invariant
            i <= v@.len() <= FRAME_TIME_SAMPLES,
            sum == sample_sum(v@.take(i as int)),
        decreases v.len() - i,
    {
        let x = v[i];
        let ghost next = v@.take(i + 1);
        assert(next.drop_last() =~= v@.take(i as int));
        proof {
            lemma_sum_bounded(next);
            assert(next.len() * (u64::MAX as nat) <= 10_000 * (u64::MAX as nat)) by (
            nonlinear_arith)
                requires
                    next.len() <= 10_000,
            ;
        }
        sum = sum + x as u128;
        i = i + 1;
    }
    assert(v@.take(v@.len() as int) =~= v@);
    sum
}

/// Samples further apart than this make the jitter high whatever the others
/// are.
const WIDE_SPREAD_NS: u64 = 0x8_0000_0000;

/// Classifies the frame time jitter of `v`.
pub fn jitter_class(v: &Vec<u64>) -> (j: Jitter)
    requires
        v@.len() <= FRAME_TIME_SAMPLES,
    ensures
        j == jitter_of(v@),
{
    let n = v.len();
    if n <= 1 {
        return Jitter::Low;
    }
    let mut lo: usize = 0;
    let mut hi: usize = 0;
    let mut i: usize = 1;
    while i < n
        invariant
            n == v@.len(),
            1 <= i <= n,
            lo < n,
            hi < n,
            forall|k: int| 0 <= k < i ==> v@[lo as int] <= #[trigger] v@[k] <= v@[hi as int],
        decreases n - i,
    {
        if v[i] < v[lo] {
            lo = i;
        }
        if v[i] > v[hi] {
            hi = i;
        }
        i = i + 1;
    }
    let m = v[lo];
    let nn = n as u128;
    proof {
        assert(nn * (nn - 1) <= 10_000 * 10_000) by (nonlinear_arith)
            requires
                1 < nn <= 10_000,
        ;
    }
    let pairs = nn * (nn - 1);
    let low: u128 = 250_000_000_000;
    let medium: u128 = 4_000_000_000_000;
    assert(low == LOW_JITTER_NS * LOW_JITTER_NS);
    assert(medium == MEDIUM_JITTER_NS * MEDIUM_JITTER_NS);
    if v[hi] - m >= WIDE_SPREAD_NS {
        proof {
            lemma_variance_spread(v@, hi as int, lo as int);
            let d = v@[hi as int] - v@[lo as int];
            assert(d * d >= WIDE_SPREAD_NS * WIDE_SPREAD_NS) by (nonlinear_arith)
                requires
                    d >= WIDE_SPREAD_NS,
            ;
            assert(medium * pairs <= medium * (10_000 * 10_000)) by (nonlinear_arith)
                requires
                    pairs <= 10_000 * 10_000,
            ;
        }
        return Jitter::High;
    }
    let ghost spread = WIDE_SPREAD_NS as int;
    let mut dsum: u128 = 0;
    let mut dsq: u128 = 0;
    let mut i: usize = 0;
    while i < n
        invariant
            n == v@.len() <= FRAME_TIME_SAMPLES,
            i <= n,
            forall|k: int| 0 <= k < n ==> m <= #[trigger] v@[k] < m + spread,
            spread == WIDE_SPREAD_NS,
            dsum == deviation_sum(v@.take(i as int), m as int),
            dsq == deviation_sum_sq(v@.take(i as int), m as int),
            dsum <= i * spread,
            dsq <= i * (spread * spread),
        decreases n - i,
    {
        let d = v[i] - m;
        let ghost next = v@.take(i + 1);
        assert(next.drop_last() =~= v@.take(i as int));
        assert(next.last() == v@[i as int]);
        proof {
            assert(d * d <= spread * spread) by (nonlinear_arith)
                requires
                    0 <= d < spread,
            ;
            assert((i + 1) * spread == i * spread + spread) by (nonlinear_arith);
            assert((i + 1) * (spread * spread) == i * (spread * spread) + spread * spread) by (
            nonlinear_arith);
            assert(i * (spread * spread) <= 10_000 * (spread * spread)) by (nonlinear_arith)
                requires
                    i <= 10_000,
            ;
        }
        dsum = dsum + d as u128;
        dsq = dsq + (d as u128) * (d as u128);
        i = i + 1;
    }
    assert(v@.take(n as int) =~= v@);
    proof {
        lemma_variance_shift(v@, m as int);
        assert(nn * dsq <= 10_000 * (10_000 * (spread * spread))) by (nonlinear_arith)
            requires
                nn <= 10_000,
                dsq <= nn * (spread * spread),
        ;
        assert(dsum * dsum <= (10_000 * spread) * (10_000 * spread)) by (nonlinear_arith)
            requires
                dsum <= nn * spread,
                nn <= 10_000,
        ;
    }
    let lhs = nn * dsq;
    let sq = dsum * dsum;
    if lhs < sq + low * pairs {
        Jitter::Low
    } else if lhs < sq + medium * pairs {
        Jitter::Medium
    } else {
        Jitter::High
    }
}

impl Jitter {
    /// The word that the benchmark report prints.
    pub fn label(&self) -> (s: &'static str)
        ensures
            s@ == match self {
                Jitter::Low => "low"@,
                Jitter::Medium => "medium"@,
                Jitter::High => "high"@,
            },
    {
        match self {
            Jitter::Low => "low",
            Jitter::Medium => "medium",
            Jitter::High => "high",
        }
    }
}

/// The fastest frame time and the 99th percentile of `v`.
pub fn frame_time_percentiles(v: &Vec<u64>) -> (r: (Option<u64>, u64))
    ensures
        r.0 == fastest_of(v@),
        r.1 == p99_of(v@),
{
    let n = v.len();
    if n == 0 {
        return (None, 0);
    }
    let sorted = sorted_copy(v);
    proof {
        vstd::seq_lib::to_multiset_len(v@);
        v@.lemma_sort_by_ensures(sample_order());
        vstd::seq_lib::to_multiset_len(sorted_samples(v@));
    }
    let k = if n / 100 * 99 + (n % 100) * 99 / 100 < n - 1 {
        n / 100 * 99 + (n % 100) * 99 / 100
    } else {
        n - 1
    };
    assert(k == p99_index(n as nat)) by (nonlinear_arith)
        requires
            k == (if n / 100 * 99 + (n % 100) * 99 / 100 < n - 1 {
                n / 100 * 99 + (n % 100) * 99 / 100
            } else {
                n - 1
            }),
            n > 0,
    ;
    (Some(sorted[0]), sorted[k])
}


/// The fastest frame time is the smallest sample, the 99th percentile is a
/// sample too, and the fastest is no slower than the 99th percentile.
pub proof fn lemma_percentiles(s: Seq<u64>)
    requires
        s.len() > 0,
    ensures
        fastest_of(s) is Some,
        s.contains(fastest_of(s)->0),
        s.contains(p99_of(s)),
        fastest_of(s)->0 <= p99_of(s),
        forall|i: int| 0 <= i < s.len() ==> fastest_of(s)->0 <= #[trigger] s[i],
{
    broadcast use vstd::seq_lib::group_to_multiset_ensures;

    lemma_sample_order_total();
    s.lemma_sort_by_ensures(sample_order());
    let t = sorted_samples(s);
    vstd::seq_lib::to_multiset_len(s);
    vstd::seq_lib::to_multiset_len(t);
    assert(t.len() == s.len());
    let k = p99_index(s.len());
    assert(0 <= k < t.len());
    assert(t.contains(t[0]));
    assert(t.contains(t[k]));
    assert(s.to_multiset().count(t[0]) > 0);
    assert(s.to_multiset().count(t[k]) > 0);
    if k > 0 {
        assert(sample_order()(t[0], t[k]));
    }
    assert forall|i: int| 0 <= i < s.len() implies fastest_of(s)->0 <= #[trigger] s[i] by {
        assert(s.contains(s[i]));
        assert(t.to_multiset().count(s[i]) > 0);
        assert(t.contains(s[i]));
        let j = choose|j: int| 0 <= j < t.len() && t[j] == s[i];
        if j > 0 {
            assert(sample_order()(t[0], t[j]));
        }
    }
}

} // verus!
