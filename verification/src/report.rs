//! The consolidated results of a network check.

use vstd::prelude::*;

use crate::config::ConnectionQuality;
use crate::constants::AppConstants;
use crate::net_info::{ConnectionType, SecurityFlags};

verus! {

/// The outcome of probing a single target once.
#[derive(Debug, Clone)]
pub struct TargetReport {
    /// The label of the target that was probed.
    pub label: String,
    /// True if the probe succeeded.
    pub success: bool,
    /// The latency of the successful probe in milliseconds; present
    /// exactly when the probe succeeded.  A timeout or failure never
    /// carries a latency.
    pub latency_ms: Option<u64>,
    /// A description of the failure, when the probe failed.
    pub error: Option<String>,
    /// Copied from the target: whether its failure alone fails a round.
    pub is_essential: bool,
}

impl TargetReport {
    /// A report is well formed when it carries a latency exactly on
    /// success, and that latency is within the range the statistics
    /// engine accepts.
    pub open spec fn wf(self) -> bool {
        &&& self.success <==> self.latency_ms is Some
        &&& self.latency_ms is Some ==> self.latency_ms->0 <= AppConstants::MAX_SAMPLE_LATENCY_MS
    }
}

/// Aggregate statistics over the winning latencies of the sampling
/// rounds.  All fractional quantities are held in fixed point: permille
/// for the packet loss, milliseconds for latencies.
#[derive(Debug, Clone)]
pub struct LatencyStats {
    /// The representative latency: the mean of the samples, or 0 when
    /// there were none.
    pub latency_ms: u64,
    /// The sample standard deviation of the latencies, in whole
    /// milliseconds; 0 when fewer than two samples were taken.
    pub jitter_ms: u64,
    /// Lost samples as a share of the expected samples, in permille.
    pub packet_loss_permille: u16,
    /// The smallest sampled latency, absent when there were no samples.
    pub min_latency_ms: Option<u64>,
    /// The mean sampled latency, absent when there were no samples.
    pub avg_latency_ms: Option<u64>,
    /// The largest sampled latency, absent when there were no samples.
    pub max_latency_ms: Option<u64>,
    /// A 0..=100 score combining jitter, sequential jitter, packet loss
    /// and latency spikes.
    pub stability_score: u8,
}

/// A high-level summary of the network state at one moment.
#[derive(Debug, Clone)]
pub struct NetworkStatus {
    /// True if any sampling round succeeded.
    pub is_connected: bool,
    /// The overall quality verdict.
    pub quality: ConnectionQuality,
    /// Detailed latency and stability statistics.
    pub latency_stats: LatencyStats,
    /// The label of the first successful target of the final round, or
    /// empty when none succeeded.
    pub winner_target: String,
}

/// Everything one network check produced.
#[derive(Debug, Clone)]
pub struct NetworkReport {
    /// Milliseconds since the epoch when the check started.
    pub timestamp_ms: u64,
    /// The status and quality summary.
    pub status: NetworkStatus,
    /// The detected type of the active connection.
    pub connection_type: ConnectionType,
    /// Security-related flags of the connection.
    pub security_flags: SecurityFlags,
    /// The per-target outcomes of the final sampling round.
    pub target_reports: Vec<TargetReport>,
}

} // verus!
