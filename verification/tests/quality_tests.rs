use network_reachability::config::{ConnectionQuality, QualityThresholds};
use network_reachability::quality::{calculate_jitter_stats, evaluate_quality};

#[test]
fn test_evaluate_quality_logic() {
    let thresholds = QualityThresholds { excellent: 50, great: 100, good: 200, moderate: 400, poor: 1000 };

    assert_eq!(evaluate_quality(49, &thresholds), ConnectionQuality::Excellent);
    assert_eq!(evaluate_quality(50, &thresholds), ConnectionQuality::Excellent);
    assert_eq!(evaluate_quality(100, &thresholds), ConnectionQuality::Great);
    assert_eq!(evaluate_quality(250, &thresholds), ConnectionQuality::Moderate);
    assert_eq!(evaluate_quality(1001, &thresholds), ConnectionQuality::Offline);
}

#[test]
fn test_calculate_jitter_stats_logic() {
    // Empty case
    let (min, max, mean, std_dev) = calculate_jitter_stats(&vec![]);
    assert_eq!(min, None);
    assert_eq!(max, None);
    assert_eq!(mean, None);
    assert_eq!(std_dev, None);

    // Single item case
    let (min, max, mean, std_dev) = calculate_jitter_stats(&vec![100]);
    assert_eq!(min, Some(100));
    assert_eq!(max, Some(100));
    assert_eq!(mean, Some(100));
    assert_eq!(std_dev, None);

    // Normal case
    let latencies = vec![100, 110, 90, 105, 95];
    let (min, max, mean, std_dev) = calculate_jitter_stats(&latencies);

    assert_eq!(min, Some(90));
    assert_eq!(max, Some(110));
    assert_eq!(mean, Some(100));
    assert!(std_dev.is_some());
    let sd = std_dev.unwrap() as f64 / 1000.0;
    assert!((sd - 7.905).abs() < 0.01);

    // Zero jitter case
    let latencies = vec![50, 50, 50, 50];
    let (_, _, _, std_dev) = calculate_jitter_stats(&latencies);
    assert!(std_dev.is_some());
    let sd = std_dev.unwrap() as f64 / 1000.0;
    assert!((sd - 0.0).abs() < 0.01);
}

#[test]
fn test_calculate_jitter() {
    // Empty latencies
    let (min, max, mean, std_dev) = calculate_jitter_stats(&vec![]);
    assert_eq!(min, None);
    assert_eq!(max, None);
    assert_eq!(mean, None);
    assert_eq!(std_dev, None);

    // Single latency
    let (min, max, mean, std_dev) = calculate_jitter_stats(&vec![100]);
    assert_eq!(min, Some(100));
    assert_eq!(max, Some(100));
    assert_eq!(mean, Some(100));
    assert_eq!(std_dev, None); // Std dev requires at least 2 samples

    // Multiple latencies
    let latencies = vec![100, 110, 90, 105, 95];
    let (min, max, mean, std_dev) = calculate_jitter_stats(&latencies);
    assert_eq!(min, Some(90));
    assert_eq!(max, Some(110));
    assert_eq!(mean, Some(100));
    assert!(std_dev.is_some());
    // Exact value for std_dev is 7.905694150420948, allow for comparison
    let sd = std_dev.unwrap() as f64 / 1000.0;
    assert!((sd - 7.905).abs() < 0.01);

    // All same latencies
    let latencies = vec![50, 50, 50, 50];
    let (min, max, mean, std_dev) = calculate_jitter_stats(&latencies);
    assert_eq!(min, Some(50));
    assert_eq!(max, Some(50));
    assert_eq!(mean, Some(50));
    assert!(std_dev.is_some());
    let sd = std_dev.unwrap() as f64 / 1000.0;
    assert!((sd - 0.0).abs() < 0.01);
}

#[test]
fn test_evaluate_quality() {
    let thresholds = QualityThresholds::default();

    // Test excellent
    assert_eq!(
        network_reachability::utils::evaluate_quality(thresholds.excellent - 1, &thresholds),
        ConnectionQuality::Excellent
    );
    assert_eq!(
        network_reachability::utils::evaluate_quality(thresholds.excellent, &thresholds),
        ConnectionQuality::Excellent
    );

    // Test great
    assert_eq!(
        network_reachability::utils::evaluate_quality(thresholds.great - 1, &thresholds),
        ConnectionQuality::Great
    );
    assert_eq!(
        network_reachability::utils::evaluate_quality(thresholds.great, &thresholds),
        ConnectionQuality::Great
    );

    // Test good
    assert_eq!(
        network_reachability::utils::evaluate_quality(thresholds.good - 1, &thresholds),
        ConnectionQuality::Good
    );
    assert_eq!(
        network_reachability::utils::evaluate_quality(thresholds.good, &thresholds),
        ConnectionQuality::Good
    );

    // Test moderate
    assert_eq!(
        network_reachability::utils::evaluate_quality(thresholds.moderate - 1, &thresholds),
        ConnectionQuality::Moderate
    );
    assert_eq!(
        network_reachability::utils::evaluate_quality(thresholds.moderate, &thresholds),
        ConnectionQuality::Moderate
    );

    // Test poor
    assert_eq!(
        network_reachability::utils::evaluate_quality(thresholds.poor - 1, &thresholds),
        ConnectionQuality::Poor
    );
    assert_eq!(
        network_reachability::utils::evaluate_quality(thresholds.poor, &thresholds),
        ConnectionQuality::Poor
    );

    // Test dead
    assert_eq!(
        network_reachability::utils::evaluate_quality(thresholds.poor + 1, &thresholds),
        ConnectionQuality::Dead
    );
}
