//! The core engine: reducing one sampling round to a verdict, folding
//! rounds into latency statistics and a stability score, and assembling
//! the final report.

use vstd::prelude::*;

use crate::config::{CheckStrategy, ConnectionQuality, NetworkConfiguration};
use crate::constants::AppConstants;
use crate::net_info::{ConnectionType, SecurityFlags};
use crate::quality::{
    calculate_jitter_stats, seq_max, seq_min, seq_sum, spec_evaluate_quality, spec_mean,
    spec_sd_milli,
};
use crate::report::{LatencyStats, NetworkReport, NetworkStatus, TargetReport};
use crate::target::NetworkTarget;

verus! {

// ---------------------------------------------------------------------
// One sampling round
// ---------------------------------------------------------------------

/// How many of a round's probes succeeded.
pub open spec fn spec_success_count(s: Seq<TargetReport>) -> int
    decreases s.len(),
{
    if s.len() == 0 {
        0
    } else {
        spec_success_count(s.drop_last()) + if s.last().success {
            1int
        } else {
            0int
        }
    }
}

/// Whether some essential target failed in the round.
pub open spec fn spec_essential_failed(s: Seq<TargetReport>) -> bool {
    exists|i: int| 0 <= i < s.len() && s[i].is_essential && !s[i].success
}

/// The smallest latency among the round's successful probes; the largest
/// u64 when none succeeded.
pub open spec fn spec_min_success_latency(s: Seq<TargetReport>) -> u64
    decreases s.len(),
{
    if s.len() == 0 {
        u64::MAX
    } else {
        let m = spec_min_success_latency(s.drop_last());
        if s.last().success && s.last().latency_ms is Some && s.last().latency_ms->0 < m {
            s.last().latency_ms->0
        } else {
            m
        }
    }
}

/// Whether the round counts as connected under the strategy: Race asks
/// for one success, Consensus for a strict majority of the configured
/// targets.
pub open spec fn spec_round_success(
    s: Seq<TargetReport>,
    strategy: CheckStrategy,
    total_targets: int,
) -> bool {
    match strategy {
        CheckStrategy::Race => spec_success_count(s) > 0,
        CheckStrategy::Consensus => spec_success_count(s) >= total_targets / 2 + 1,
    }
}

/// The verdict of one round: None when an essential target failed or the
/// strategy was not satisfied, otherwise the round's winning latency.
pub open spec fn spec_round_verdict(
    s: Seq<TargetReport>,
    strategy: CheckStrategy,
    total_targets: int,
) -> Option<u64> {
    if spec_essential_failed(s) {
        None
    } else if spec_round_success(s, strategy, total_targets) {
        Some(spec_min_success_latency(s))
    } else {
        None
    }
}

/// Law: a failing essential target forces the whole round to failure,
/// whatever the strategy and however many other targets succeeded.
pub proof fn lemma_essential_failure_forces_round_failure(
    s: Seq<TargetReport>,
    strategy: CheckStrategy,
    total_targets: int,
)
    requires
        spec_essential_failed(s),
    ensures
        spec_round_verdict(s, strategy, total_targets) is None,
{
}

/// Law: with three targets and no essential failure, a Consensus round
/// succeeds exactly when at least two probes succeeded, and a Race round
/// exactly when at least one did.
pub proof fn lemma_strategy_on_three_targets(s: Seq<TargetReport>)
    requires
        !spec_essential_failed(s),
    ensures
        spec_round_verdict(s, CheckStrategy::Consensus, 3) is Some <==> spec_success_count(s) >= 2,
        spec_round_verdict(s, CheckStrategy::Race, 3) is Some <==> spec_success_count(s) >= 1,
{
}

/// Reduces the outcomes of one sampling round to the smallest
/// successful latency when the round counts as connected under the
/// strategy, and to None otherwise.
pub fn analyze_single_sample(
    reports: &Vec<TargetReport>,
    strategy: CheckStrategy,
    total_targets: usize,
) -> (r: Option<u64>)
    ensures
        r == spec_round_verdict(reports@, strategy, total_targets as int),
{
    let n = reports.len();
    let mut best_latency: u64 = u64::MAX;
    let mut success_count: usize = 0;
    let mut essential_failed = false;
    let mut i: usize = 0;
    while i < n
        invariant
            0 <= i <= n,
            n == reports@.len(),
            success_count == spec_success_count(reports@.take(i as int)),
            success_count <= i,
            essential_failed == spec_essential_failed(reports@.take(i as int)),
            best_latency == spec_min_success_latency(reports@.take(i as int)),
        decreases n - i,
    {
        proof {
            assert(reports@.take(i + 1).drop_last() =~= reports@.take(i as int));
            assert(reports@.take(i + 1).last() == reports@[i as int]);
        }
        let report = &reports[i];
        if report.is_essential && !report.success {
            essential_failed = true;
        }
        if report.success {
            success_count = success_count + 1;
            if let Some(lat) = report.latency_ms {
                if lat < best_latency {
                    best_latency = lat;
                }
            }
        }
        proof {
            let t = reports@.take(i + 1);
            assert(spec_essential_failed(t) == (spec_essential_failed(reports@.take(i as int))
                || (reports@[i as int].is_essential && !reports@[i as int].success))) by {
                if spec_essential_failed(reports@.take(i as int)) {
                    let j = choose|j: int|
                        0 <= j < i && reports@.take(i as int)[j].is_essential
                            && !reports@.take(i as int)[j].success;
                    assert(t[j].is_essential && !t[j].success);
                }
                if reports@[i as int].is_essential && !reports@[i as int].success {
                    assert(t[i as int].is_essential && !t[i as int].success);
                }
                if spec_essential_failed(t) {
                    let j = choose|j: int| 0 <= j < t.len() && t[j].is_essential && !t[j].success;
                    if j < i {
                        assert(reports@.take(i as int)[j].is_essential);
                    }
                }
            }
        }
        i = i + 1;
    }
    proof {
        assert(reports@.take(n as int) =~= reports@);
    }
    if essential_failed {
        return None;
    }
    let is_sample_successful = match strategy {
        CheckStrategy::Race => success_count > 0,
        CheckStrategy::Consensus => success_count >= total_targets / 2 + 1,
    };
    if is_sample_successful {
        Some(best_latency)
    } else {
        None
    }
}

// ---------------------------------------------------------------------
// Folding rounds into statistics
// ---------------------------------------------------------------------

/// The number of sampling rounds actually run: at least one.
pub open spec fn spec_effective_samples(configured: u8) -> u8 {
    if configured > 1 {
        configured
    } else {
        1
    }
}

/// Lost samples as a share of the expected samples, in permille.
pub open spec fn spec_loss_permille(successful: int, expected: int) -> int {
    if expected <= 0 {
        0
    } else if successful >= expected {
        0
    } else {
        1000 * (expected - successful) / expected
    }
}

/// The latency-stability sub-score, in thousandths of a point: full
/// marks shrink with the coefficient of variation (standard deviation
/// over mean), three points per percent of it.  With no measurable mean
/// the score is full exactly when nothing was lost.
pub open spec fn spec_latency_stability_milli(lat: Seq<u64>, expected: int) -> int {
    let mean = if lat.len() > 0 {
        spec_mean(lat)
    } else {
        0
    };
    let sd = if lat.len() >= 2 {
        spec_sd_milli(lat)
    } else {
        0
    };
    if mean > 0 {
        let penalty = 300 * sd / mean;
        if penalty >= 100000 {
            0
        } else {
            100000 - penalty
        }
    } else if spec_loss_permille(lat.len() as int, expected) > 0 {
        0
    } else {
        100000
    }
}

/// The sum of the absolute differences between consecutive samples.
pub open spec fn seq_jitter_sum(s: Seq<u64>) -> int
    decreases s.len(),
{
    if s.len() < 2 {
        0
    } else {
        let d = s.last() - s[s.len() - 2];
        seq_jitter_sum(s.drop_last()) + if d < 0 {
            -d
        } else {
            d
        }
    }
}

/// The sequential-jitter sub-score, in thousandths of a point: full
/// marks shrink with the mean step between consecutive samples relative
/// to the mean latency, four points per percent of it.
pub open spec fn spec_seq_jitter_milli(lat: Seq<u64>) -> int {
    let mean = if lat.len() > 0 {
        spec_mean(lat)
    } else {
        0
    };
    if lat.len() > 1 && mean > 0 {
        let penalty = 400000 * seq_jitter_sum(lat) / ((lat.len() - 1) * mean);
        if penalty >= 100000 {
            0
        } else {
            100000 - penalty
        }
    } else {
        100000
    }
}

/// The loss sub-score, in thousandths of a point: one point per permille
/// of loss.
pub open spec fn spec_loss_milli(successful: int, expected: int) -> int {
    let lp = spec_loss_permille(successful, expected);
    if lp > 0 {
        if 1000 * lp >= 100000 {
            0
        } else {
            100000 - 1000 * lp
        }
    } else {
        100000
    }
}

/// The spike sub-score, in thousandths of a point: a latency spike above
/// twice the mean costs twenty points.
pub open spec fn spec_spike_milli(lat: Seq<u64>) -> int {
    let mean = if lat.len() > 0 {
        spec_mean(lat)
    } else {
        0
    };
    if lat.len() > 0 && mean > 0 {
        if seq_max(lat) > 2 * mean {
            80000
        } else {
            100000
        }
    } else {
        100000
    }
}

/// The stability score: the weighted sum of the four sub-scores (35%
/// latency stability, 25% sequential jitter, 30% loss, 10% spikes),
/// rounded to the nearest whole point.
pub open spec fn spec_stability_score(lat: Seq<u64>, expected: int) -> int {
    let w = 35 * spec_latency_stability_milli(lat, expected) + 25 * spec_seq_jitter_milli(lat) + 30
        * spec_loss_milli(lat.len() as int, expected) + 10 * spec_spike_milli(lat);
    (w / 100 + 500) / 1000
}

/// The statistics record computed from a series of winning latencies and
/// the number of expected samples.
pub open spec fn spec_latency_stats(lat: Seq<u64>, expected: u8) -> LatencyStats {
    LatencyStats {
        latency_ms: (if lat.len() > 0 {
            spec_mean(lat)
        } else {
            0
        }) as u64,
        jitter_ms: (if lat.len() >= 2 {
            spec_sd_milli(lat) / 1000
        } else {
            0
        }) as u64,
        packet_loss_permille: spec_loss_permille(lat.len() as int, expected as int) as u16,
        min_latency_ms: if lat.len() > 0 {
            Some(seq_min(lat))
        } else {
            None
        },
        avg_latency_ms: if lat.len() > 0 {
            Some(spec_mean(lat) as u64)
        } else {
            None
        },
        max_latency_ms: if lat.len() > 0 {
            Some(seq_max(lat))
        } else {
            None
        },
        stability_score: spec_stability_score(lat, expected as int) as u8,
    }
}

proof fn lemma_seq_jitter_sum_nonneg(s: Seq<u64>)
    ensures
        seq_jitter_sum(s) >= 0,
    decreases s.len(),
{
    if s.len() >= 2 {
        lemma_seq_jitter_sum_nonneg(s.drop_last());
    }
}

proof fn lemma_loss_permille_range(successful: int, expected: int)
    requires
        successful >= 0,
    ensures
        0 <= spec_loss_permille(successful, expected) <= 1000,
{
    if expected > 0 && successful < expected {
        let lost = expected - successful;
        vstd::arithmetic::div_mod::lemma_div_pos_is_pos(1000 * lost, expected);
        assert((expected * 1000) / expected == 1000) by {
            vstd::arithmetic::div_mod::lemma_div_multiples_vanish(1000, expected);
        }
        vstd::arithmetic::div_mod::lemma_div_is_ordered(1000 * lost, expected * 1000, expected);
    }
}

/// Law: the stability score lies within 0..=100 for every latency series
/// and every expected sample count.
pub proof fn lemma_stability_score_in_range(lat: Seq<u64>, expected: int)
    ensures
        0 <= spec_stability_score(lat, expected) <= 100,
{
    let mean = if lat.len() > 0 {
        spec_mean(lat)
    } else {
        0
    };
    let a = spec_latency_stability_milli(lat, expected);
    let b = spec_seq_jitter_milli(lat);
    let c = spec_loss_milli(lat.len() as int, expected);
    let d = spec_spike_milli(lat);
    assert(0 <= a <= 100000) by {
        if mean > 0 {
            let sd = if lat.len() >= 2 {
                spec_sd_milli(lat)
            } else {
                0
            };
            vstd::arithmetic::div_mod::lemma_div_pos_is_pos(300 * sd, mean);
        }
    }
    assert(0 <= b <= 100000) by {
        if lat.len() > 1 && mean > 0 {
            lemma_seq_jitter_sum_nonneg(lat);
            assert((lat.len() - 1) * mean > 0) by (nonlinear_arith)
                requires
                    lat.len() > 1,
                    mean > 0,
            ;
            vstd::arithmetic::div_mod::lemma_div_pos_is_pos(
                400000 * seq_jitter_sum(lat),
                (lat.len() - 1) * mean,
            );
        }
    }
    assert(0 <= c <= 100000) by {
        lemma_loss_permille_range(lat.len() as int, expected);
    }
    assert(0 <= d <= 100000);
}

/// Computes the latency statistics and the stability score for a series
/// of winning latencies, out of `total_expected_samples` sampling
/// rounds.
pub fn compute_latency_stats(latencies: &Vec<u64>, total_expected_samples: u8) -> (stats:
    LatencyStats)
    requires
        latencies@.len() <= 255,
        forall|i: int|
            0 <= i < latencies@.len() ==> latencies@[i] <= AppConstants::MAX_SAMPLE_LATENCY_MS,
    ensures
        stats == spec_latency_stats(latencies@, total_expected_samples),
        stats.stability_score <= 100,
        stats.packet_loss_permille <= 1000,
{
    let ghost cap: int = AppConstants::MAX_SAMPLE_LATENCY_MS as int;
    let n = latencies.len();
    let (min_lat, max_lat, mean_lat, sd_milli_opt) = calculate_jitter_stats(latencies);

    let successful: u32 = n as u32;
    let expected: u32 = total_expected_samples as u32;
    let loss_permille: u32 = if expected == 0 || successful >= expected {
        0
    } else {
        1000 * (expected - successful) / expected
    };
    proof {
        lemma_loss_permille_range(n as int, total_expected_samples as int);
        assert(loss_permille as int == spec_loss_permille(n as int, total_expected_samples as int));
    }

    let final_latency: u64 = match mean_lat {
        Some(m) => m,
        None => 0,
    };
    let sd_milli: u64 = match sd_milli_opt {
        Some(s) => s,
        None => 0,
    };

    // Latency stability from the coefficient of variation.
    let latency_stability: u64 = if final_latency > 0 {
        let penalty = 300 * sd_milli / final_latency;
        if penalty >= 100000 {
            0
        } else {
            100000 - penalty
        }
    } else {
        if loss_permille > 0 {
            0
        } else {
            100000
        }
    };
    proof {
        assert(latency_stability as int == spec_latency_stability_milli(
            latencies@,
            total_expected_samples as int,
        ));
    }

    // Sequential jitter: the mean step between consecutive samples.
    let mut jitter_sum: u64 = 0;
    let mut i: usize = 1;
    if n > 1 {
        while i < n
            invariant
                1 <= i <= n,
                n == latencies@.len() <= 255,
                forall|j: int| 0 <= j < latencies@.len() ==> latencies@[j] <= cap,
                cap == AppConstants::MAX_SAMPLE_LATENCY_MS as int,
                jitter_sum as int == seq_jitter_sum(latencies@.take(i as int)),
                jitter_sum <= i * cap,
            decreases n - i,
        {
            proof {
                assert(latencies@.take(i + 1).drop_last() =~= latencies@.take(i as int));
                assert(latencies@.take(i + 1).last() == latencies@[i as int]);
                assert(latencies@.take(i + 1)[i - 1] == latencies@[i - 1]);
            }
            let prev = latencies[i - 1];
            let cur = latencies[i];
            let step: u64 = if cur >= prev {
                cur - prev
            } else {
                prev - cur
            };
            jitter_sum = jitter_sum + step;
            i = i + 1;
        }
        proof {
            assert(latencies@.take(n as int) =~= latencies@);
        }
    }
    let seq_jitter: u64 = if n > 1 && final_latency > 0 {
        proof {
            assert(0 < (n - 1) * (final_latency as int) <= 254 * cap) by (nonlinear_arith)
                requires
                    1 <= (n as int) - 1 <= 254,
                    0 < final_latency as int <= cap,
                    cap > 0,
            ;
        }
        let denom: u64 = ((n - 1) as u64) * final_latency;
        let penalty = (400000 * jitter_sum) / denom;
        if penalty >= 100000 {
            0
        } else {
            100000 - penalty
        }
    } else {
        100000
    };
    proof {
        assert(seq_jitter as int == spec_seq_jitter_milli(latencies@));
    }

    // Loss: one point per permille lost.
    let loss_score: u64 = if loss_permille > 0 {
        let q: u64 = 1000 * (loss_permille as u64);
        if q >= 100000 {
            0
        } else {
            100000 - q
        }
    } else {
        100000
    };
    proof {
        assert(loss_score as int == spec_loss_milli(n as int, total_expected_samples as int));
    }

    // Spike: a maximum above twice the mean costs twenty points.
    let spike_score: u64 = match max_lat {
        Some(mx) => {
            if final_latency > 0 {
                if mx > 2 * final_latency {
                    80000
                } else {
                    100000
                }
            } else {
                100000
            }
        },
        None => 100000,
    };
    proof {
        assert(spike_score as int == spec_spike_milli(latencies@));
    }

    let weighted: u64 = 35 * latency_stability + 25 * seq_jitter + 30 * loss_score + 10
        * spike_score;
    let score: u64 = (weighted / 100 + 500) / 1000;
    proof {
        lemma_stability_score_in_range(latencies@, total_expected_samples as int);
        assert(score as int == spec_stability_score(latencies@, total_expected_samples as int));
    }

    let jitter_ms: u64 = sd_milli / 1000;
    LatencyStats {
        latency_ms: final_latency,
        jitter_ms,
        packet_loss_permille: loss_permille as u16,
        min_latency_ms: min_lat,
        avg_latency_ms: mean_lat,
        max_latency_ms: max_lat,
        stability_score: score as u8,
    }
}

// ---------------------------------------------------------------------
// The quality verdict
// ---------------------------------------------------------------------

/// Whether a latency tier is better than Good: the two tiers the
/// stability cap can take away.
pub open spec fn spec_better_than_good(q: ConnectionQuality) -> bool {
    q == ConnectionQuality::Excellent || q == ConnectionQuality::Great
}

/// The final quality tier.  Offline when disconnected; otherwise the
/// latency tier, downgraded in this order: critical loss forces
/// Unstable, low stability caps the tier at Good (a tier at or below
/// Good is left alone), and an Excellent tier needs a stability score
/// of at least 85.
pub open spec fn spec_network_quality(
    is_connected: bool,
    stats: LatencyStats,
    config: NetworkConfiguration,
) -> ConnectionQuality {
    if !is_connected {
        ConnectionQuality::Offline
    } else {
        let base = spec_evaluate_quality(stats.latency_ms, config.quality_threshold);
        if stats.packet_loss_permille > config.resilience.critical_packet_loss_permille {
            ConnectionQuality::Unstable
        } else if stats.stability_score < config.resilience.stability_threshold {
            if spec_better_than_good(base) {
                ConnectionQuality::Good
            } else {
                base
            }
        } else if base == ConnectionQuality::Excellent && stats.stability_score < 85 {
            ConnectionQuality::Good
        } else {
            base
        }
    }
}

/// Evaluates the final network quality from latency, stability and
/// packet loss.
pub fn evaluate_network_quality(
    is_connected: bool,
    stats: &LatencyStats,
    config: &NetworkConfiguration,
) -> (r: ConnectionQuality)
    ensures
        r == spec_network_quality(is_connected, *stats, *config),
{
    if !is_connected {
        return ConnectionQuality::Offline;
    }
    let quality_based_on_speed = crate::quality::evaluate_quality(
        stats.latency_ms,
        &config.quality_threshold,
    );
    if stats.packet_loss_permille > config.resilience.critical_packet_loss_permille {
        return ConnectionQuality::Unstable;
    }
    if stats.stability_score < config.resilience.stability_threshold {
        // The cap never upgrades: a tier at or below Good stays.
        if quality_based_on_speed == ConnectionQuality::Excellent || quality_based_on_speed
            == ConnectionQuality::Great {
            return ConnectionQuality::Good;
        }
        return quality_based_on_speed;
    }
    if quality_based_on_speed == ConnectionQuality::Excellent && stats.stability_score < 85 {
        return ConnectionQuality::Good;
    }
    quality_based_on_speed
}

// ---------------------------------------------------------------------
// Winner selection and report assembly
// ---------------------------------------------------------------------

/// The label of the first successful report, or empty when none
/// succeeded.
pub open spec fn spec_winner_label(s: Seq<TargetReport>) -> Seq<char>
    decreases s.len(),
{
    if s.len() == 0 {
        Seq::empty()
    } else if s[0].success {
        s[0].label@
    } else {
        spec_winner_label(s.drop_first())
    }
}

proof fn lemma_winner_label_at(s: Seq<TargetReport>, i: int)
    requires
        0 <= i < s.len(),
        s[i].success,
        forall|j: int| 0 <= j < i ==> !s[j].success,
    ensures
        spec_winner_label(s) == s[i].label@,
    decreases i,
{
    if i > 0 {
        lemma_winner_label_at(s.drop_first(), i - 1);
    }
}

proof fn lemma_winner_label_none(s: Seq<TargetReport>)
    requires
        forall|j: int| 0 <= j < s.len() ==> !s[j].success,
    ensures
        spec_winner_label(s) == Seq::<char>::empty(),
    decreases s.len(),
{
    if s.len() > 0 {
        lemma_winner_label_none(s.drop_first());
    }
}

/// Picks the label of the first successful target of a round, or the
/// empty string when every probe failed.
pub fn get_winner_target(reports: &Vec<TargetReport>) -> (r: String)
    ensures
        r@ == spec_winner_label(reports@),
{
    let n = reports.len();
    let mut i: usize = 0;
    while i < n
        invariant
            0 <= i <= n,
            n == reports@.len(),
            forall|j: int| 0 <= j < i ==> !reports@[j].success,
        decreases n - i,
    {
        if reports[i].success {
            proof {
                lemma_winner_label_at(reports@, i as int);
            }
            return reports[i].label.clone();
        }
        i = i + 1;
    }
    proof {
        lemma_winner_label_none(reports@);
    }
    String::new()
}

/// The index of the target used for the DNS hijack comparison: the first
/// essential target when one exists, else the first target of the list.
pub fn select_dns_check_target(targets: &Vec<NetworkTarget>) -> (r: Option<usize>)
    ensures
        r is Some <==> targets@.len() > 0,
        r is Some ==> r->0 < targets@.len(),
        (exists|j: int| 0 <= j < targets@.len() && targets@[j].is_essential) ==> {
            &&& targets@[r->0 as int].is_essential
            &&& forall|j: int| 0 <= j < r->0 ==> !targets@[j].is_essential
        },
        (forall|j: int| 0 <= j < targets@.len() ==> !targets@[j].is_essential) && targets@.len() > 0
            ==> r == Some(0usize),
{
    let n = targets.len();
    let mut i: usize = 0;
    while i < n
        invariant
            0 <= i <= n,
            n == targets@.len(),
            forall|j: int| 0 <= j < i ==> !targets@[j].is_essential,
        decreases n - i,
    {
        if targets[i].is_essential {
            return Some(i);
        }
        i = i + 1;
    }
    if n > 0 {
        Some(0)
    } else {
        None
    }
}

// ---------------------------------------------------------------------
// The sample collector
// ---------------------------------------------------------------------

/// Accumulates the verdicts of the sampling rounds: the winning latency
/// of every successful round, and the full outcome list of the final
/// round only.
pub struct SampleCollector {
    /// The strategy every round is judged under.
    pub strategy: CheckStrategy,
    /// How many targets are configured; the Consensus majority is taken
    /// of this number.
    pub total_targets: usize,
    /// The number of rounds to run; at least one.
    pub num_samples: u8,
    /// How many rounds have been recorded so far.
    pub rounds_done: u8,
    /// The winning latency of each successful round, in order.
    pub latencies: Vec<u64>,
    /// The outcomes of the final round; empty until it was recorded.
    pub final_reports: Vec<TargetReport>,
}

impl SampleCollector {
    /// The collector's invariant: round counting is within bounds and
    /// every collected latency is one the statistics engine accepts.
    pub open spec fn wf(self) -> bool {
        &&& 1 <= self.num_samples
        &&& self.rounds_done <= self.num_samples
        &&& self.latencies@.len() <= self.rounds_done
        &&& forall|i: int|
            0 <= i < self.latencies@.len() ==> self.latencies@[i]
                <= AppConstants::MAX_SAMPLE_LATENCY_MS
    }

    /// A collector for the configured strategy and sample count; a
    /// configured count below one is raised to one.
    pub fn new(config: &NetworkConfiguration) -> (c: Self)
        ensures
            c.wf(),
            c.strategy == config.resilience.strategy,
            c.total_targets == config.targets@.len(),
            c.num_samples == spec_effective_samples(config.resilience.num_jitter_samples),
            c.rounds_done == 0,
            c.latencies@.len() == 0,
            c.final_reports@.len() == 0,
    {
        let num_samples = if config.resilience.num_jitter_samples > 1 {
            config.resilience.num_jitter_samples
        } else {
            1
        };
        SampleCollector {
            strategy: config.resilience.strategy,
            total_targets: config.targets.len(),
            num_samples,
            rounds_done: 0,
            latencies: Vec::new(),
            final_reports: Vec::new(),
        }
    }

    /// Whether every round has been recorded.
    pub fn is_complete(&self) -> (r: bool)
        ensures
            r == (self.rounds_done == self.num_samples),
    {
        self.rounds_done == self.num_samples
    }

    /// Records one sampling round: a successful round contributes its
    /// winning latency, and the final round retains its full outcome
    /// list.
    pub fn record_round(&mut self, reports: Vec<TargetReport>)
        requires
            old(self).wf(),
            old(self).rounds_done < old(self).num_samples,
            forall|i: int| 0 <= i < reports@.len() ==> reports@[i].wf(),
        ensures
            final(self).wf(),
            final(self).strategy == old(self).strategy,
            final(self).total_targets == old(self).total_targets,
            final(self).num_samples == old(self).num_samples,
            final(self).rounds_done == old(self).rounds_done + 1,
            ({
                let v = spec_round_verdict(
                    reports@,
                    old(self).strategy,
                    old(self).total_targets as int,
                );
                match v {
                    Some(l) => final(self).latencies@ == old(self).latencies@.push(l),
                    None => final(self).latencies@ == old(self).latencies@,
                }
            }),
            old(self).rounds_done + 1 == old(self).num_samples ==> final(self).final_reports@
                == reports@,
            old(self).rounds_done + 1 < old(self).num_samples ==> final(self).final_reports@ == old(
                self,
            ).final_reports@,
    {
        let verdict = analyze_single_sample(&reports, self.strategy, self.total_targets);
        if let Some(best_latency) = verdict {
            proof {
                lemma_min_success_latency_bounded(reports@);
            }
            self.latencies.push(best_latency);
        }
        self.rounds_done = self.rounds_done + 1;
        if self.rounds_done == self.num_samples {
            self.final_reports = reports;
        }
    }
}

/// When every report is well formed and at least one succeeded, the
/// round's winning latency is a real sample within range.
proof fn lemma_min_success_latency_bounded(s: Seq<TargetReport>)
    requires
        forall|i: int| 0 <= i < s.len() ==> s[i].wf(),
        spec_success_count(s) > 0,
    ensures
        spec_min_success_latency(s) <= AppConstants::MAX_SAMPLE_LATENCY_MS,
    decreases s.len(),
{
    if s.len() > 0 {
        assert(forall|i: int| 0 <= i < s.drop_last().len() ==> s.drop_last()[i] == s[i]);
        if spec_success_count(s.drop_last()) > 0 {
            lemma_min_success_latency_bounded(s.drop_last());
        } else {
            assert(s.last().success);
            assert(s.last().wf());
        }
    }
}

// ---------------------------------------------------------------------
// Report assembly
// ---------------------------------------------------------------------

/// Assembles the final report from the collected samples, the final
/// round's outcomes, and the results of the side-channel detectors.
pub fn assemble_report(
    timestamp_ms: u64,
    latencies: &Vec<u64>,
    final_reports: Vec<TargetReport>,
    config: &NetworkConfiguration,
    security_flags: SecurityFlags,
    connection_type: ConnectionType,
) -> (r: NetworkReport)
    requires
        latencies@.len() <= 255,
        forall|i: int|
            0 <= i < latencies@.len() ==> latencies@[i] <= AppConstants::MAX_SAMPLE_LATENCY_MS,
    ensures
        r.timestamp_ms == timestamp_ms,
        r.status.is_connected == (latencies@.len() > 0),
        r.status.latency_stats == spec_latency_stats(
            latencies@,
            spec_effective_samples(config.resilience.num_jitter_samples),
        ),
        r.status.quality == spec_network_quality(
            latencies@.len() > 0,
            r.status.latency_stats,
            *config,
        ),
        r.status.winner_target@ == spec_winner_label(final_reports@),
        r.connection_type == connection_type,
        r.security_flags == security_flags,
        r.target_reports@ == final_reports@,
{
    let is_connected = latencies.len() > 0;
    let num_samples = if config.resilience.num_jitter_samples > 1 {
        config.resilience.num_jitter_samples
    } else {
        1
    };
    let latency_stats = compute_latency_stats(latencies, num_samples);
    let quality = evaluate_network_quality(is_connected, &latency_stats, config);
    let winner_target = get_winner_target(&final_reports);
    NetworkReport {
        timestamp_ms,
        status: NetworkStatus { is_connected, quality, latency_stats, winner_target },
        connection_type,
        security_flags,
        target_reports: final_reports,
    }
}

} // verus!
