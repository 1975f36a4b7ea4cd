use network_reachability::config::{CheckStrategy, NetworkConfiguration, QualityThresholds, SecurityConfig};
use network_reachability::constants::AppConstants;
use network_reachability::net_info::SecurityFlags;

#[test]
fn config_test_quality_thresholds_default() {
    let thresholds = QualityThresholds::default();
    assert_eq!(thresholds.excellent, AppConstants::DEFAULT_EXCELLENT_THRESHOLD);
    assert_eq!(thresholds.great, AppConstants::DEFAULT_GREAT_THRESHOLD);
    assert_eq!(thresholds.good, AppConstants::DEFAULT_GOOD_THRESHOLD);
    assert_eq!(thresholds.moderate, AppConstants::DEFAULT_MODERATE_THRESHOLD);
    assert_eq!(thresholds.poor, AppConstants::DEFAULT_POOR_THRESHOLD);
}

#[test]
fn tests_test_quality_thresholds_default() {
    let thresholds = QualityThresholds::default();

    assert_eq!(thresholds.excellent, AppConstants::DEFAULT_EXCELLENT_THRESHOLD);
    assert_eq!(thresholds.great, AppConstants::DEFAULT_GREAT_THRESHOLD);
    assert_eq!(thresholds.good, AppConstants::DEFAULT_GOOD_THRESHOLD);
    assert_eq!(thresholds.moderate, AppConstants::DEFAULT_MODERATE_THRESHOLD);
    assert_eq!(thresholds.poor, AppConstants::DEFAULT_POOR_THRESHOLD);
}

#[test]
fn config_test_network_configuration_default() {
    let config = NetworkConfiguration::default();
    assert_eq!(config.targets.len(), 2);
    assert_eq!(config.targets[0].label, AppConstants::CLOUDFLARE_NAME);
    assert_eq!(config.targets[1].label, AppConstants::GOOGLE_NAME);
    assert_eq!(config.resilience.strategy, CheckStrategy::Race);
    assert!(!config.security.block_vpn);
}

#[test]
fn test_network_configuration_default_values() {
    let config = NetworkConfiguration::default();
    assert_eq!(config.targets[0].host, AppConstants::CLOUDFLARE_DNS);
    assert_eq!(config.targets[1].host, AppConstants::GOOGLE_DNS);
    assert_eq!(config.targets[0].port, AppConstants::DEFAULT_PORT);
    assert_eq!(config.check_interval_ms, AppConstants::DEFAULT_CHECK_INTERVAL_MS);
    assert_eq!(config.resilience.num_jitter_samples, AppConstants::DEFAULT_JITTER_SAMPLES);
    assert_eq!(
        config.resilience.jitter_threshold_permille,
        AppConstants::DEFAULT_JITTER_THRESHOLD_PERMILLE
    );
    assert_eq!(
        config.resilience.stability_threshold,
        AppConstants::DEFAULT_STABILITY_THRESHOLD
    );
    assert_eq!(
        config.resilience.critical_packet_loss_permille,
        AppConstants::DEFAULT_CRITICAL_PACKET_LOSS_PERMILLE
    );
}

#[test]
fn test_security_config_default() {
    let sec = SecurityConfig::default();
    assert!(!sec.block_vpn);
    assert!(!sec.detect_dns_hijack);
    assert!(sec.allowed_interfaces.is_empty());
}

#[test]
fn test_security_flags_default() {
    let flags = SecurityFlags::default();
    assert!(!flags.is_vpn_detected);
    assert!(!flags.is_dns_spoofed);
    assert!(!flags.is_proxy_detected);
    assert_eq!(flags.interface_name, "unknown");
}
