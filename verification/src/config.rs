//! Configuration of the reachability engine, and the quality verdict it
//! produces.

use vstd::prelude::*;

use crate::constants::AppConstants;
use crate::target::{NetworkTarget, TargetProtocol};

verus! {

/// How the outcomes of one sampling round are reduced to a verdict.
#[derive(Debug, Clone, Copy, PartialEq, Eq, Structural)]
pub enum CheckStrategy {
    /// The round succeeds if at least one target succeeded.
    Race,
    /// The round succeeds only if a strict majority of the configured
    /// targets succeeded.
    Consensus,
}

/// The perceived quality of the network connection.
#[derive(Debug, Clone, Copy, PartialEq, Eq, Structural)]
pub enum ConnectionQuality {
    /// Very low latency; suitable for all tasks.
    Excellent,
    /// Low latency; suitable for most tasks.
    Great,
    /// Usable connection.
    Good,
    /// Noticeable latency; may affect real-time applications.
    Moderate,
    /// High latency; even basic browsing may be slow.
    Poor,
    /// A connection exists, but packet loss or jitter makes it unreliable.
    Unstable,
    /// No usable connection was detected.
    Offline,
    /// Latency beyond the poor threshold; the bottom tier reported by the
    /// plain latency classifier ([crate::utils::evaluate_quality]), which
    /// does not distinguish an absent connection from an unusably slow one.
    Dead,
}

/// Latency thresholds, in milliseconds, that map a latency to a
/// [ConnectionQuality] tier.  The engine assumes the fields are
/// non-decreasing (excellent <= great <= good <= moderate <= poor) and
/// never validates it.
#[derive(Debug, Clone, Copy)]
pub struct QualityThresholds {
    /// Latency at or below this value is 'Excellent'.
    pub excellent: u64,
    /// Latency at or below this value is 'Great'.
    pub great: u64,
    /// Latency at or below this value is 'Good'.
    pub good: u64,
    /// Latency at or below this value is 'Moderate'.
    pub moderate: u64,
    /// Latency at or below this value is 'Poor'; anything higher falls to
    /// the bottom tier.
    pub poor: u64,
}

impl Default for QualityThresholds {
    /// The built-in thresholds.
    fn default() -> (r: Self)
        ensures
            r.excellent == AppConstants::DEFAULT_EXCELLENT_THRESHOLD,
            r.great == AppConstants::DEFAULT_GREAT_THRESHOLD,
            r.good == AppConstants::DEFAULT_GOOD_THRESHOLD,
            r.moderate == AppConstants::DEFAULT_MODERATE_THRESHOLD,
            r.poor == AppConstants::DEFAULT_POOR_THRESHOLD,
    {
        QualityThresholds {
            excellent: AppConstants::DEFAULT_EXCELLENT_THRESHOLD,
            great: AppConstants::DEFAULT_GREAT_THRESHOLD,
            good: AppConstants::DEFAULT_GOOD_THRESHOLD,
            moderate: AppConstants::DEFAULT_MODERATE_THRESHOLD,
            poor: AppConstants::DEFAULT_POOR_THRESHOLD,
        }
    }
}

/// Configuration of the security-related checks.
#[derive(Debug, Clone)]
pub struct SecurityConfig {
    /// If true, the caller intends to refuse the connection when a VPN
    /// interface is detected.
    pub block_vpn: bool,
    /// If true, the engine compares system DNS answers against a trusted
    /// resolver to detect hijacking.
    pub detect_dns_hijack: bool,
    /// Allowed interface name prefixes (e.g. "en", "wlan"); empty means
    /// any interface is acceptable.
    pub allowed_interfaces: Vec<String>,
}

impl Default for SecurityConfig {
    /// All security checks off, every interface allowed.
    fn default() -> (r: Self)
        ensures
            !r.block_vpn,
            !r.detect_dns_hijack,
            r.allowed_interfaces@.len() == 0,
    {
        SecurityConfig { block_vpn: false, detect_dns_hijack: false, allowed_interfaces: Vec::new() }
    }
}

/// Resilience and sampling configuration.
#[derive(Debug, Clone)]
pub struct ResilienceConfig {
    /// How a round's outcomes are reduced to a verdict.
    pub strategy: CheckStrategy,
    /// Consecutive essential failures before a circuit breaker would
    /// open; 0 disables it.  Reserved: the engine does not read it yet.
    pub circuit_breaker_threshold: u8,
    /// Number of sampling rounds taken for jitter and stability
    /// analysis; values below 1 are treated as 1.
    pub num_jitter_samples: u8,
    /// Relative jitter (standard deviation over mean latency), in
    /// permille, above which the caller considers the link jittery.
    /// Reserved: the engine does not read it yet.
    pub jitter_threshold_permille: u16,
    /// If the stability score falls below this value the quality verdict
    /// is capped at 'Good'.
    pub stability_threshold: u8,
    /// Packet loss, in permille of the expected samples, above which the
    /// connection is marked 'Unstable'.
    pub critical_packet_loss_permille: u16,
}

impl Default for ResilienceConfig {
    /// Race strategy, five sampling rounds, built-in thresholds.
    fn default() -> (r: Self)
        ensures
            r.strategy == CheckStrategy::Race,
            r.circuit_breaker_threshold == 0,
            r.num_jitter_samples == AppConstants::DEFAULT_JITTER_SAMPLES,
            r.jitter_threshold_permille == AppConstants::DEFAULT_JITTER_THRESHOLD_PERMILLE,
            r.stability_threshold == AppConstants::DEFAULT_STABILITY_THRESHOLD,
            r.critical_packet_loss_permille == AppConstants::DEFAULT_CRITICAL_PACKET_LOSS_PERMILLE,
    {
        ResilienceConfig {
            strategy: CheckStrategy::Race,
            circuit_breaker_threshold: 0,
            num_jitter_samples: AppConstants::DEFAULT_JITTER_SAMPLES,
            jitter_threshold_permille: AppConstants::DEFAULT_JITTER_THRESHOLD_PERMILLE,
            stability_threshold: AppConstants::DEFAULT_STABILITY_THRESHOLD,
            critical_packet_loss_permille: AppConstants::DEFAULT_CRITICAL_PACKET_LOSS_PERMILLE,
        }
    }
}

/// The complete configuration of one network check.
#[derive(Debug, Clone)]
pub struct NetworkConfiguration {
    /// The endpoints to probe, in order.
    pub targets: Vec<NetworkTarget>,
    /// Milliseconds between periodic checks when a caller schedules them;
    /// 0 disables periodic checks.  The single-call engine ignores it.
    pub check_interval_ms: u64,
    /// Latency thresholds for the quality classifier.
    pub quality_threshold: QualityThresholds,
    /// Security-related settings.
    pub security: SecurityConfig,
    /// Resilience and sampling settings.
    pub resilience: ResilienceConfig,
}

impl Default for NetworkConfiguration {
    /// A check against the Cloudflare and Google public resolvers over
    /// TCP port 53, with all other settings at their built-in defaults.
    fn default() -> (r: Self)
        ensures
            r.targets@.len() == 2,
            r.targets@[0].label@ == AppConstants::CLOUDFLARE_NAME@,
            r.targets@[0].host@ == AppConstants::CLOUDFLARE_DNS@,
            r.targets@[0].port == AppConstants::DEFAULT_PORT,
            r.targets@[0].protocol == TargetProtocol::Tcp,
            r.targets@[0].timeout_ms == AppConstants::DEFAULT_TIMEOUT_MS,
            r.targets@[0].priority == 1,
            !r.targets@[0].is_essential,
            r.targets@[1].label@ == AppConstants::GOOGLE_NAME@,
            r.targets@[1].host@ == AppConstants::GOOGLE_DNS@,
            r.targets@[1].port == AppConstants::DEFAULT_PORT,
            r.targets@[1].protocol == TargetProtocol::Tcp,
            r.targets@[1].timeout_ms == AppConstants::DEFAULT_TIMEOUT_MS,
            r.targets@[1].priority == 1,
            !r.targets@[1].is_essential,
            r.check_interval_ms == AppConstants::DEFAULT_CHECK_INTERVAL_MS,
            r.quality_threshold.excellent == AppConstants::DEFAULT_EXCELLENT_THRESHOLD,
            r.quality_threshold.great == AppConstants::DEFAULT_GREAT_THRESHOLD,
            r.quality_threshold.good == AppConstants::DEFAULT_GOOD_THRESHOLD,
            r.quality_threshold.moderate == AppConstants::DEFAULT_MODERATE_THRESHOLD,
            r.quality_threshold.poor == AppConstants::DEFAULT_POOR_THRESHOLD,
            !r.security.block_vpn,
            !r.security.detect_dns_hijack,
            r.security.allowed_interfaces@.len() == 0,
            r.resilience.strategy == CheckStrategy::Race,
            r.resilience.circuit_breaker_threshold == 0,
            r.resilience.num_jitter_samples == AppConstants::DEFAULT_JITTER_SAMPLES,
            r.resilience.jitter_threshold_permille == AppConstants::DEFAULT_JITTER_THRESHOLD_PERMILLE,
            r.resilience.stability_threshold == AppConstants::DEFAULT_STABILITY_THRESHOLD,
            r.resilience.critical_packet_loss_permille
                == AppConstants::DEFAULT_CRITICAL_PACKET_LOSS_PERMILLE,
    {
        let mut targets: Vec<NetworkTarget> = Vec::new();
        targets.push(NetworkTarget {
            label: AppConstants::CLOUDFLARE_NAME.to_owned(),
            host: AppConstants::CLOUDFLARE_DNS.to_owned(),
            port: AppConstants::DEFAULT_PORT,
            protocol: TargetProtocol::Tcp,
            timeout_ms: AppConstants::DEFAULT_TIMEOUT_MS,
            priority: 1,
            is_essential: false,
        });
        targets.push(NetworkTarget {
            label: AppConstants::GOOGLE_NAME.to_owned(),
            host: AppConstants::GOOGLE_DNS.to_owned(),
            port: AppConstants::DEFAULT_PORT,
            protocol: TargetProtocol::Tcp,
            timeout_ms: AppConstants::DEFAULT_TIMEOUT_MS,
            priority: 1,
            is_essential: false,
        });
        NetworkConfiguration {
            targets,
            check_interval_ms: AppConstants::DEFAULT_CHECK_INTERVAL_MS,
            quality_threshold: QualityThresholds::default(),
            security: SecurityConfig::default(),
            resilience: ResilienceConfig::default(),
        }
    }
}

} // verus!
