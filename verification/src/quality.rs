//! The latency statistics engine and the latency-only quality
//! classifier.
//!
//! All statistics are computed in integer fixed point: latencies in
//! whole milliseconds, the sample standard deviation additionally in
//! thousandths of a millisecond.

use vstd::prelude::*;

use crate::config::{ConnectionQuality, QualityThresholds};
use crate::constants::AppConstants;

verus! {

/// The tier selected by latency alone: the first threshold, in ascending
/// order, that the latency does not exceed.  Beyond the poor threshold
/// the classifier answers Offline.
pub open spec fn spec_evaluate_quality(latency: u64, t: QualityThresholds) -> ConnectionQuality {
    if latency <= t.excellent {
        ConnectionQuality::Excellent
    } else if latency <= t.great {
        ConnectionQuality::Great
    } else if latency <= t.good {
        ConnectionQuality::Good
    } else if latency <= t.moderate {
        ConnectionQuality::Moderate
    } else if latency <= t.poor {
        ConnectionQuality::Poor
    } else {
        ConnectionQuality::Offline
    }
}

/// Classifies a latency against a set of thresholds.
pub fn evaluate_quality(latency: u64, threshold: &QualityThresholds) -> (r: ConnectionQuality)
    ensures
        r == spec_evaluate_quality(latency, *threshold),
{
    if latency <= threshold.excellent {
        ConnectionQuality::Excellent
    } else if latency <= threshold.great {
        ConnectionQuality::Great
    } else if latency <= threshold.good {
        ConnectionQuality::Good
    } else if latency <= threshold.moderate {
        ConnectionQuality::Moderate
    } else if latency <= threshold.poor {
        ConnectionQuality::Poor
    } else {
        ConnectionQuality::Offline
    }
}

/// Law: a latency exactly at the excellent threshold is classified
/// Excellent, and one millisecond above it falls to the next tier,
/// Great, whenever the two thresholds actually ascend.
pub proof fn lemma_quality_threshold_boundary(t: QualityThresholds)
    requires
        t.excellent < t.great,
    ensures
        spec_evaluate_quality(t.excellent, t) == ConnectionQuality::Excellent,
        spec_evaluate_quality((t.excellent + 1) as u64, t) == ConnectionQuality::Great,
{
}

/// The sum of a series of latency samples.
pub open spec fn seq_sum(s: Seq<u64>) -> int
    decreases s.len(),
{
    if s.len() == 0 {
        0
    } else {
        seq_sum(s.drop_last()) + s.last()
    }
}

/// The smallest sample of a non-empty series.
pub open spec fn seq_min(s: Seq<u64>) -> u64
    recommends
        s.len() > 0,
    decreases s.len(),
{
    if s.len() <= 1 {
        s[0]
    } else {
        let m = seq_min(s.drop_last());
        if s.last() < m {
            s.last()
        } else {
            m
        }
    }
}

/// The largest sample of a non-empty series.
pub open spec fn seq_max(s: Seq<u64>) -> u64
    recommends
        s.len() > 0,
    decreases s.len(),
{
    if s.len() <= 1 {
        s[0]
    } else {
        let m = seq_max(s.drop_last());
        if s.last() > m {
            s.last()
        } else {
            m
        }
    }
}

/// The mean of a non-empty series, rounded down to a whole millisecond.
pub open spec fn spec_mean(s: Seq<u64>) -> int
    recommends
        s.len() > 0,
{
    seq_sum(s) / (s.len() as int)
}

/// The sum of the squared deviations of a series from the value `m`.
pub open spec fn sq_dev_sum(s: Seq<u64>, m: int) -> int
    decreases s.len(),
{
    if s.len() == 0 {
        0
    } else {
        sq_dev_sum(s.drop_last(), m) + (s.last() - m) * (s.last() - m)
    }
}

/// The integer square root: the largest r with r * r <= n.
pub open spec fn spec_isqrt(n: nat) -> nat
    decreases n,
{
    if n == 0 {
        0
    } else {
        let r = spec_isqrt((n - 1) as nat);
        if (r + 1) * (r + 1) <= n {
            r + 1
        } else {
            r
        }
    }
}

/// The sample standard deviation of a series of at least two samples, in
/// thousandths of a millisecond: the square root of the sample variance
/// (squared deviations from the rounded mean, over n - 1).
pub open spec fn spec_sd_milli(s: Seq<u64>) -> int
    recommends
        s.len() >= 2,
{
    spec_isqrt(((1_000_000 * sq_dev_sum(s, spec_mean(s))) / (s.len() - 1)) as nat) as int
}

pub proof fn lemma_isqrt_bounds(n: nat)
    ensures
        spec_isqrt(n) * spec_isqrt(n) <= n,
        n < (spec_isqrt(n) + 1) * (spec_isqrt(n) + 1),
    decreases n,
{
    if n > 0 {
        lemma_isqrt_bounds((n - 1) as nat);
        let r = spec_isqrt((n - 1) as nat);
        assert(r * r <= n - 1);
        assert((n - 1) < (r + 1) * (r + 1));
        if (r + 1) * (r + 1) <= n {
            assert(spec_isqrt(n) == r + 1);
            assert(n == (r + 1) * (r + 1));
            assert((r + 2) * (r + 2) > (r + 1) * (r + 1)) by (nonlinear_arith);
            assert((spec_isqrt(n) + 1) * (spec_isqrt(n) + 1) == (r + 2) * (r + 2));
        } else {
            assert(spec_isqrt(n) == r);
            assert(r * r <= n);
            assert(n < (r + 1) * (r + 1));
        }
    } else {
        let s = spec_isqrt(n);
        assert(s == 0);
        assert((s + 1) * (s + 1) == 1) by (nonlinear_arith)
            requires
                s == 0nat,
        ;
    }
}

pub proof fn lemma_isqrt_upper(n: nat, b: nat)
    requires
        n < b * b,
    ensures
        spec_isqrt(n) < b,
{
    lemma_isqrt_bounds(n);
    if spec_isqrt(n) >= b {
        assert(b * b <= spec_isqrt(n) * spec_isqrt(n)) by (nonlinear_arith)
            requires
                b <= spec_isqrt(n),
        ;
    }
}

pub proof fn lemma_isqrt_unique(n: nat, r: nat)
    requires
        r * r <= n,
        n < (r + 1) * (r + 1),
    ensures
        r == spec_isqrt(n),
{
    lemma_isqrt_bounds(n);
    let s = spec_isqrt(n);
    if r < s {
        assert((r + 1) * (r + 1) <= s * s) by (nonlinear_arith)
            requires
                r + 1 <= s,
        ;
    }
    if s < r {
        assert((s + 1) * (s + 1) <= r * r) by (nonlinear_arith)
            requires
                s + 1 <= r,
        ;
    }
}

/// The integer square root of a value below 2^84, by binary search.
fn isqrt_u128(x: u128) -> (r: u64)
    requires
        x < 0x1000000000000000000000u128,
    ensures
        r as nat == spec_isqrt(x as nat),
{
    let mut lo: u64 = 0;
    let mut hi: u64 = 0x40000000000u64;
    proof {
        assert((0x40000000000int + 1) * (0x40000000000int + 1) > 0x1000000000000000000000int)
            by (nonlinear_arith);
    }
    while lo < hi
        invariant
            lo <= hi <= 0x40000000000u64,
            (lo as int) * (lo as int) <= x as int,
            (x as int) < ((hi as int) + 1) * ((hi as int) + 1),
        decreases hi - lo,
    {
        let mid = lo + (hi - lo + 1) / 2;
        proof {
            assert((mid as int) * (mid as int) <= 0x40000000000int * 0x40000000000int)
                by (nonlinear_arith)
                requires
                    0 <= mid as int <= 0x40000000000int,
            ;
        }
        if (mid as u128) * (mid as u128) <= x {
            lo = mid;
        } else {
            hi = mid - 1;
        }
    }
    proof {
        lemma_isqrt_unique(x as nat, lo as nat);
    }
    lo
}

/// Law: for a series of one sample, minimum, maximum and mean all equal
/// that sample (and the standard deviation is undefined, which
/// [calculate_jitter_stats] reports as None).
pub proof fn lemma_single_sample_stats(s: Seq<u64>)
    requires
        s.len() == 1,
    ensures
        seq_min(s) == s[0],
        seq_max(s) == s[0],
        spec_mean(s) == s[0],
{
    assert(s.drop_last() =~= Seq::<u64>::empty());
    assert(seq_sum(Seq::<u64>::empty()) == 0);
    assert(s.last() == s[0]);
    assert(seq_sum(s) == s[0]);
}

proof fn lemma_constant_seq_sum(s: Seq<u64>, c: u64)
    requires
        forall|i: int| 0 <= i < s.len() ==> s[i] == c,
    ensures
        seq_sum(s) == s.len() * c,
    decreases s.len(),
{
    if s.len() == 0 {
        assert(s.len() * c == 0) by (nonlinear_arith)
            requires
                s.len() == 0,
        ;
    } else {
        lemma_constant_seq_sum(s.drop_last(), c);
        assert((s.len() - 1) * c + c == s.len() * c) by (nonlinear_arith);
    }
}

proof fn lemma_zero_dev_sum(s: Seq<u64>, m: int)
    requires
        forall|i: int| 0 <= i < s.len() ==> s[i] == m,
    ensures
        sq_dev_sum(s, m) == 0,
    decreases s.len(),
{
    if s.len() > 0 {
        lemma_zero_dev_sum(s.drop_last(), m);
        assert((s.last() - m) * (s.last() - m) == 0) by (nonlinear_arith)
            requires
                s.last() - m == 0,
        ;
    }
}

/// Law: a constant series has standard deviation zero.
pub proof fn lemma_constant_series_sd_zero(s: Seq<u64>, c: u64)
    requires
        s.len() >= 2,
        forall|i: int| 0 <= i < s.len() ==> s[i] == c,
    ensures
        spec_mean(s) == c,
        spec_sd_milli(s) == 0,
{
    lemma_constant_seq_sum(s, c);
    assert(((s.len() as int) * c) / (s.len() as int) == c) by {
        vstd::arithmetic::div_mod::lemma_div_multiples_vanish(c as int, s.len() as int);
    }
    lemma_zero_dev_sum(s, c as int);
    assert((1_000_000 * 0int) / (s.len() - 1) == 0) by {
        vstd::arithmetic::div_mod::lemma_div_of0(s.len() - 1);
    }
}

pub proof fn lemma_seq_sum_bounds(s: Seq<u64>, cap: int)
    requires
        forall|i: int| 0 <= i < s.len() ==> s[i] <= cap,
    ensures
        0 <= seq_sum(s) <= s.len() * cap,
    decreases s.len(),
{
    if s.len() > 0 {
        lemma_seq_sum_bounds(s.drop_last(), cap);
        assert(s.drop_last().len() * cap + cap == s.len() * cap) by (nonlinear_arith)
            requires
                s.len() >= 1,
                s.drop_last().len() == s.len() - 1,
        ;
    }
}

pub proof fn lemma_sq_dev_sum_bounds(s: Seq<u64>, m: int, cap: int)
    requires
        0 <= m <= cap,
        forall|i: int| 0 <= i < s.len() ==> s[i] <= cap,
    ensures
        0 <= sq_dev_sum(s, m) <= s.len() * (cap * cap),
    decreases s.len(),
{
    if s.len() > 0 {
        lemma_sq_dev_sum_bounds(s.drop_last(), m, cap);
        let d = s.last() - m;
        assert(0 <= d * d <= cap * cap) by (nonlinear_arith)
            requires
                -cap <= d <= cap,
        ;
        assert(s.drop_last().len() * (cap * cap) + cap * cap == s.len() * (cap * cap))
            by (nonlinear_arith)
            requires
                s.len() >= 1,
                s.drop_last().len() == s.len() - 1,
        ;
    }
}

/// Reduces a series of latency samples to (min, max, mean, standard
/// deviation).  The mean is rounded down to a whole millisecond; the
/// standard deviation is in thousandths of a millisecond and needs at
/// least two samples.  An empty series has none of the four.
pub fn calculate_jitter_stats(latencies: &Vec<u64>) -> (r: (
    Option<u64>,
    Option<u64>,
    Option<u64>,
    Option<u64>,
))
    requires
        latencies@.len() <= 255,
        forall|i: int|
            0 <= i < latencies@.len() ==> latencies@[i] <= AppConstants::MAX_SAMPLE_LATENCY_MS,
    ensures
        r.0 is Some <==> latencies@.len() > 0,
        r.1 is Some <==> latencies@.len() > 0,
        r.2 is Some <==> latencies@.len() > 0,
        r.3 is Some <==> latencies@.len() >= 2,
        latencies@.len() > 0 ==> {
            &&& r.0->0 == seq_min(latencies@)
            &&& r.1->0 == seq_max(latencies@)
            &&& r.2->0 as int == spec_mean(latencies@)
            &&& r.2->0 <= AppConstants::MAX_SAMPLE_LATENCY_MS
        },
        latencies@.len() >= 2 ==> {
            &&& r.3->0 as int == spec_sd_milli(latencies@)
            &&& r.3->0 < 1_500_000_000_000u64
        },
{
    let ghost cap: int = AppConstants::MAX_SAMPLE_LATENCY_MS as int;
    let n = latencies.len();
    if n == 0 {
        return (None, None, None, None);
    }
    let mut min_lat: u64 = latencies[0];
    let mut max_lat: u64 = latencies[0];
    let mut sum: u64 = latencies[0];
    proof {
        let s1 = latencies@.take(1);
        assert(s1.drop_last() =~= Seq::<u64>::empty());
        assert(seq_sum(s1.drop_last()) == 0);
        assert(s1.last() == latencies@[0]);
        assert(seq_sum(s1) == latencies@[0]);
        assert(seq_min(s1) == latencies@[0]);
        assert(seq_max(s1) == latencies@[0]);
    }
    let mut i: usize = 1;
    while i < n
        invariant
            1 <= i <= n,
            n == latencies@.len() <= 255,
            forall|j: int| 0 <= j < latencies@.len() ==> latencies@[j] <= cap,
            cap == AppConstants::MAX_SAMPLE_LATENCY_MS as int,
            min_lat == seq_min(latencies@.take(i as int)),
            max_lat == seq_max(latencies@.take(i as int)),
            sum as int == seq_sum(latencies@.take(i as int)),
            sum <= i * cap,
            min_lat <= cap,
            max_lat <= cap,
        decreases n - i,
    {
        proof {
            assert(latencies@.take(i + 1).drop_last() =~= latencies@.take(i as int));
            assert(latencies@.take(i + 1).last() == latencies@[i as int]);
        }
        let x = latencies[i];
        if x < min_lat {
            min_lat = x;
        }
        if x > max_lat {
            max_lat = x;
        }
        sum = sum + x;
        i = i + 1;
    }
    proof {
        assert(latencies@.take(n as int) =~= latencies@);
    }
    let mean: u64 = sum / (n as u64);
    proof {
        assert(mean as int == spec_mean(latencies@));
        assert(seq_sum(latencies@) <= latencies@.len() * cap) by {
            lemma_seq_sum_bounds(latencies@, cap);
        }
        assert((latencies@.len() as int) * cap / (latencies@.len() as int) == cap) by {
            vstd::arithmetic::div_mod::lemma_div_multiples_vanish(
                cap,
                latencies@.len() as int,
            );
        }
        assert(mean as int <= cap) by {
            vstd::arithmetic::div_mod::lemma_div_is_ordered(
                seq_sum(latencies@),
                latencies@.len() * cap,
                latencies@.len() as int,
            );
        }
    }
    if n < 2 {
        return (Some(min_lat), Some(max_lat), Some(mean), None);
    }
    let mut var_sum: u128 = 0;
    let mut i: usize = 0;
    while i < n
        invariant
            0 <= i <= n,
            n == latencies@.len() <= 255,
            forall|j: int| 0 <= j < latencies@.len() ==> latencies@[j] <= cap,
            cap == AppConstants::MAX_SAMPLE_LATENCY_MS as int,
            0 <= mean as int <= cap,
            var_sum as int == sq_dev_sum(latencies@.take(i as int), mean as int),
            var_sum as int <= i * (cap * cap),
        decreases n - i,
    {
        proof {
            assert(latencies@.take(i + 1).drop_last() =~= latencies@.take(i as int));
            assert(latencies@.take(i + 1).last() == latencies@[i as int]);
        }
        let x = latencies[i];
        let diff: u64 = if x >= mean {
            x - mean
        } else {
            mean - x
        };
        proof {
            assert((diff as int) * (diff as int) <= cap * cap) by (nonlinear_arith)
                requires
                    0 <= diff as int <= cap,
            ;
        }
        let sq: u128 = (diff as u128) * (diff as u128);
        proof {
            assert(sq as int == (x - mean) * (x - mean)) by (nonlinear_arith)
                requires
                    diff as int == if x >= mean {
                        x - (mean as int)
                    } else {
                        mean - (x as int)
                    },
                    sq as int == (diff as int) * (diff as int),
            ;
            assert((i as int) * (cap * cap) + cap * cap == (i + 1) * (cap * cap))
                by (nonlinear_arith);
        }
        var_sum = var_sum + sq;
        i = i + 1;
    }
    proof {
        assert(latencies@.take(n as int) =~= latencies@);
    }
    // 10^6 * var_sum <= 255 * 10^24, well within u128 range; the
    // quotient over n - 1 stays below 2^84 because n <= 2 * (n - 1).
    proof {
        assert(var_sum as int <= 255 * (cap * cap)) by (nonlinear_arith)
            requires
                var_sum as int <= (n as int) * (cap * cap),
                n <= 255,
                cap * cap >= 0,
        ;
    }
    let scaled: u128 = 1_000_000u128 * var_sum;
    let m_input: u128 = scaled / ((n as u128) - 1);
    proof {
        let vn = sq_dev_sum(latencies@, mean as int);
        let len = latencies@.len() as int;
        assert(0 <= vn <= len * (cap * cap)) by {
            lemma_sq_dev_sum_bounds(latencies@, mean as int, cap);
        }
        assert(1_000_000 * vn <= (len - 1) * (2_000_000 * (cap * cap))) by (nonlinear_arith)
            requires
                2 <= len,
                0 <= vn <= len * (cap * cap),
                cap >= 0,
        ;
        assert((len - 1) * (2_000_000 * (cap * cap)) / (len - 1) == 2_000_000 * (cap * cap)) by {
            vstd::arithmetic::div_mod::lemma_div_multiples_vanish(
                2_000_000 * (cap * cap),
                len - 1,
            );
        }
        assert(m_input as int <= 2_000_000 * (cap * cap)) by {
            vstd::arithmetic::div_mod::lemma_div_is_ordered(
                1_000_000 * vn,
                (len - 1) * (2_000_000 * (cap * cap)),
                len - 1,
            );
        }
        assert(2_000_000 * ((AppConstants::MAX_SAMPLE_LATENCY_MS as int)
            * (AppConstants::MAX_SAMPLE_LATENCY_MS as int)) < 0x1000000000000000000000int);
    }
    let sd_milli = isqrt_u128(m_input);
    proof {
        assert((m_input as nat) < 1_500_000_000_000nat * 1_500_000_000_000nat) by (nonlinear_arith)
            requires
                m_input as int <= 2_000_000 * ((1_000_000_000int) * 1_000_000_000),
        ;
        lemma_isqrt_upper(m_input as nat, 1_500_000_000_000nat);
    }
    (Some(min_lat), Some(max_lat), Some(mean), Some(sd_milli))
}

} // verus!
