use network_reachability::config::{
    CheckStrategy, ConnectionQuality, NetworkConfiguration, QualityThresholds, ResilienceConfig,
    SecurityConfig,
};
use network_reachability::engine::{
    analyze_single_sample, assemble_report, compute_latency_stats, evaluate_network_quality,
    get_winner_target, select_dns_check_target, SampleCollector,
};
use network_reachability::net_info::{ConnectionType, SecurityFlags};
use network_reachability::report::{LatencyStats, TargetReport};
use network_reachability::target::{NetworkTarget, TargetProtocol};

fn report(label: &str, success: bool, latency_ms: Option<u64>, is_essential: bool) -> TargetReport {
    TargetReport {
        label: label.to_string(),
        success,
        latency_ms,
        error: if success { None } else { Some("Connection Error: refused".to_string()) },
        is_essential,
    }
}

fn target(label: &str, is_essential: bool) -> NetworkTarget {
    NetworkTarget {
        label: label.to_string(),
        host: "192.0.2.1".to_string(),
        port: 53,
        protocol: TargetProtocol::Tcp,
        timeout_ms: 1000,
        priority: 1,
        is_essential,
    }
}

#[test]
fn test_consensus_needs_majority_of_three() {
    // Two of three succeed: a strict majority, the round succeeds.
    let two_of_three = vec![
        report("a", true, Some(30), false),
        report("b", true, Some(20), false),
        report("c", false, None, false),
    ];
    assert_eq!(
        analyze_single_sample(&two_of_three, CheckStrategy::Consensus, 3),
        Some(20)
    );

    // One of three is not a majority.
    let one_of_three = vec![
        report("a", true, Some(30), false),
        report("b", false, None, false),
        report("c", false, None, false),
    ];
    assert_eq!(
        analyze_single_sample(&one_of_three, CheckStrategy::Consensus, 3),
        None
    );

    // Race is satisfied by a single success.
    assert_eq!(
        analyze_single_sample(&one_of_three, CheckStrategy::Race, 3),
        Some(30)
    );

    // Race with no success at all fails.
    let none_of_three = vec![
        report("a", false, None, false),
        report("b", false, None, false),
        report("c", false, None, false),
    ];
    assert_eq!(
        analyze_single_sample(&none_of_three, CheckStrategy::Race, 3),
        None
    );
}

#[test]
fn test_essential_failure_forces_round_failure() {
    // Every other target succeeds, but an essential one failed.
    let reports = vec![
        report("essential", false, None, true),
        report("b", true, Some(10), false),
        report("c", true, Some(12), false),
    ];
    assert_eq!(analyze_single_sample(&reports, CheckStrategy::Race, 3), None);
    assert_eq!(
        analyze_single_sample(&reports, CheckStrategy::Consensus, 3),
        None
    );
}

#[test]
fn test_round_winning_latency_is_minimum() {
    let reports = vec![
        report("slow", true, Some(200), false),
        report("fast", true, Some(35), false),
        report("mid", true, Some(90), false),
    ];
    assert_eq!(
        analyze_single_sample(&reports, CheckStrategy::Race, 3),
        Some(35)
    );
}

#[test]
fn test_compute_latency_stats_empty_series() {
    let stats = compute_latency_stats(&vec![], 5);
    assert_eq!(stats.min_latency_ms, None);
    assert_eq!(stats.max_latency_ms, None);
    assert_eq!(stats.avg_latency_ms, None);
    assert_eq!(stats.latency_ms, 0);
    assert_eq!(stats.jitter_ms, 0);
    assert_eq!(stats.packet_loss_permille, 1000);
    // Sequential jitter and spike stay full, latency stability and loss
    // bottom out: round(0.25 * 100 + 0.10 * 100) = 35.
    assert_eq!(stats.stability_score, 35);
}

#[test]
fn test_compute_latency_stats_no_expected_samples() {
    let stats = compute_latency_stats(&vec![], 0);
    assert_eq!(stats.packet_loss_permille, 0);
    assert_eq!(stats.stability_score, 100);
}

#[test]
fn test_compute_latency_stats_constant_series() {
    let stats = compute_latency_stats(&vec![50, 50, 50, 50], 4);
    assert_eq!(stats.min_latency_ms, Some(50));
    assert_eq!(stats.max_latency_ms, Some(50));
    assert_eq!(stats.avg_latency_ms, Some(50));
    assert_eq!(stats.jitter_ms, 0);
    assert_eq!(stats.packet_loss_permille, 0);
    assert_eq!(stats.stability_score, 100);
}

#[test]
fn test_compute_latency_stats_jittery_series() {
    // mean 200; sample variance (100^2 + 100^2) / 1 = 20000, so the
    // coefficient-of-variation penalty and the sequential-jitter penalty
    // both bottom out; loss and spike stay full.
    let stats = compute_latency_stats(&vec![100, 300], 2);
    assert_eq!(stats.latency_ms, 200);
    assert_eq!(stats.packet_loss_permille, 0);
    assert_eq!(stats.stability_score, 40);
}

#[test]
fn test_compute_latency_stats_loss_permille() {
    let stats = compute_latency_stats(&vec![100], 4);
    assert_eq!(stats.packet_loss_permille, 750);
}

#[test]
fn test_stability_score_in_range_for_random_series() {
    // A deterministic linear congruential generator drives series of
    // many lengths and value ranges; the score must always stay within
    // 0..=100.
    let mut seed: u64 = 0x1234_5678_9abc_def0;
    let mut case: u32 = 0;
    while case < 200 {
        seed = seed.wrapping_mul(6364136223846793005).wrapping_add(1442695040888963407);
        let len = (seed >> 48) as usize % 41;
        let expected = ((seed >> 40) % 256) as u8;
        let mut series: Vec<u64> = Vec::new();
        let mut k = 0;
        while k < len {
            seed = seed.wrapping_mul(6364136223846793005).wrapping_add(1442695040888963407);
            series.push((seed >> 20) % 1_000_000_001);
            k += 1;
        }
        let stats = compute_latency_stats(&series, expected);
        assert!(stats.stability_score <= 100);
        case += 1;
    }
}

fn config_with(stability_threshold: u8, critical_loss_permille: u16) -> NetworkConfiguration {
    NetworkConfiguration {
        targets: vec![target("a", false)],
        check_interval_ms: 5000,
        quality_threshold: QualityThresholds::default(),
        security: SecurityConfig::default(),
        resilience: ResilienceConfig {
            strategy: CheckStrategy::Race,
            circuit_breaker_threshold: 0,
            num_jitter_samples: 5,
            jitter_threshold_permille: 200,
            stability_threshold,
            critical_packet_loss_permille: critical_loss_permille,
        },
    }
}

fn stats_with(latency_ms: u64, loss_permille: u16, stability: u8) -> LatencyStats {
    LatencyStats {
        latency_ms,
        jitter_ms: 0,
        packet_loss_permille: loss_permille,
        min_latency_ms: Some(latency_ms),
        avg_latency_ms: Some(latency_ms),
        max_latency_ms: Some(latency_ms),
        stability_score: stability,
    }
}

#[test]
fn test_quality_downgrade_order() {
    let config = config_with(70, 150);

    // Disconnected always means Offline.
    assert_eq!(
        evaluate_network_quality(false, &stats_with(10, 0, 100), &config),
        ConnectionQuality::Offline
    );

    // Critical loss forces Unstable even at excellent latency.
    assert_eq!(
        evaluate_network_quality(true, &stats_with(10, 200, 100), &config),
        ConnectionQuality::Unstable
    );

    // Low stability caps the verdict at Good: a better tier drops…
    assert_eq!(
        evaluate_network_quality(true, &stats_with(10, 0, 60), &config),
        ConnectionQuality::Good
    );
    assert_eq!(
        evaluate_network_quality(true, &stats_with(80, 0, 60), &config),
        ConnectionQuality::Good
    );
    // …but a cap never upgrades: tiers at or below Good stay put.
    assert_eq!(
        evaluate_network_quality(true, &stats_with(150, 0, 60), &config),
        ConnectionQuality::Good
    );
    assert_eq!(
        evaluate_network_quality(true, &stats_with(350, 0, 60), &config),
        ConnectionQuality::Moderate
    );
    assert_eq!(
        evaluate_network_quality(true, &stats_with(900, 0, 60), &config),
        ConnectionQuality::Poor
    );

    // An Excellent latency with stability below 85 drops to Good.
    assert_eq!(
        evaluate_network_quality(true, &stats_with(10, 0, 80), &config),
        ConnectionQuality::Good
    );

    // High stability keeps Excellent.
    assert_eq!(
        evaluate_network_quality(true, &stats_with(10, 0, 90), &config),
        ConnectionQuality::Excellent
    );

    // A non-excellent tier is not subject to the 85-point rule.
    assert_eq!(
        evaluate_network_quality(true, &stats_with(150, 0, 80), &config),
        ConnectionQuality::Good
    );
    assert_eq!(
        evaluate_network_quality(true, &stats_with(350, 0, 90), &config),
        ConnectionQuality::Moderate
    );
}

#[test]
fn test_get_winner_target_picks_first_success() {
    let reports = vec![
        report("a", false, None, false),
        report("b", true, Some(40), false),
        report("c", true, Some(10), false),
    ];
    assert_eq!(get_winner_target(&reports), "b");

    let no_success = vec![report("a", false, None, false)];
    assert_eq!(get_winner_target(&no_success), "");
}

#[test]
fn test_select_dns_check_target() {
    let targets = vec![target("a", false), target("b", true), target("c", true)];
    assert_eq!(select_dns_check_target(&targets), Some(1));

    let no_essential = vec![target("a", false), target("b", false)];
    assert_eq!(select_dns_check_target(&no_essential), Some(0));

    let empty: Vec<NetworkTarget> = vec![];
    assert_eq!(select_dns_check_target(&empty), None);
}

#[test]
fn test_sample_collector_keeps_final_round() {
    let mut config = NetworkConfiguration::default();
    config.resilience.num_jitter_samples = 3;
    let mut collector = SampleCollector::new(&config);
    assert!(!collector.is_complete());

    collector.record_round(vec![report("a", true, Some(30), false), report("b", false, None, false)]);
    collector.record_round(vec![report("a", false, None, false), report("b", false, None, false)]);
    collector.record_round(vec![report("a", true, Some(20), false), report("b", true, Some(25), false)]);

    assert!(collector.is_complete());
    assert_eq!(collector.latencies, vec![30, 20]);
    assert_eq!(collector.final_reports.len(), 2);
    assert!(collector.final_reports[0].success);
    assert_eq!(collector.final_reports[0].latency_ms, Some(20));
}

#[test]
fn test_sample_collector_coerces_zero_samples() {
    let mut config = NetworkConfiguration::default();
    config.resilience.num_jitter_samples = 0;
    let mut collector = SampleCollector::new(&config);
    assert!(!collector.is_complete());
    collector.record_round(vec![report("a", true, Some(12), false), report("b", false, None, false)]);
    assert!(collector.is_complete());
    assert_eq!(collector.latencies, vec![12]);
}

#[test]
fn test_assemble_report_connected() {
    let mut config = config_with(70, 150);
    // Three expected samples, all successful: no packet loss.
    config.resilience.num_jitter_samples = 3;
    let latencies = vec![40, 42, 44];
    let finals = vec![report("a", true, Some(40), false)];
    let r = assemble_report(
        123456,
        &latencies,
        finals,
        &config,
        SecurityFlags::default(),
        ConnectionType::Wifi,
    );
    assert_eq!(r.timestamp_ms, 123456);
    assert!(r.status.is_connected);
    assert_eq!(r.status.winner_target, "a");
    assert_eq!(r.connection_type, ConnectionType::Wifi);
    assert_eq!(r.status.latency_stats.avg_latency_ms, Some(42));
    assert_eq!(r.status.quality, ConnectionQuality::Excellent);
    assert_eq!(r.target_reports.len(), 1);
}

#[test]
fn test_assemble_report_disconnected() {
    let config = config_with(70, 150);
    let latencies: Vec<u64> = vec![];
    let finals = vec![report("a", false, None, false)];
    let r = assemble_report(
        7,
        &latencies,
        finals,
        &config,
        SecurityFlags::default(),
        ConnectionType::Unknown,
    );
    assert!(!r.status.is_connected);
    assert_eq!(r.status.quality, ConnectionQuality::Offline);
    assert_eq!(r.status.winner_target, "");
}
