//! Built-in defaults: well-known resolver endpoints, ports and the
//! thresholds that the quality classifier starts from.

use vstd::prelude::*;

verus! {

/// The table of built-in defaults used when a caller does not supply its
/// own configuration values.
pub struct AppConstants;

impl AppConstants {
    pub const CLOUDFLARE_NAME: &'static str = "Cloudflare";

    pub const GOOGLE_NAME: &'static str = "Google";

    pub const DEFAULT_PORT: u16 = 53;

    pub const DEFAULT_TIMEOUT_MS: u64 = 1000;

    pub const DEFAULT_CHECK_INTERVAL_MS: u64 = 5000;

    pub const CLOUDFLARE_DNS: &'static str = "1.1.1.1";

    pub const GOOGLE_DNS: &'static str = "8.8.8.8";

    pub const DEFAULT_EXCELLENT_THRESHOLD: u64 = 50;

    pub const DEFAULT_GREAT_THRESHOLD: u64 = 100;

    pub const DEFAULT_GOOD_THRESHOLD: u64 = 200;

    pub const DEFAULT_MODERATE_THRESHOLD: u64 = 400;

    pub const DEFAULT_POOR_THRESHOLD: u64 = 1000;

    pub const DEFAULT_JITTER_SAMPLES: u8 = 5;

    /// Relative jitter (standard deviation over mean), in permille.
    pub const DEFAULT_JITTER_THRESHOLD_PERMILLE: u16 = 200;

    pub const DEFAULT_STABILITY_THRESHOLD: u8 = 70;

    /// Critical packet loss, in permille of the expected samples.
    pub const DEFAULT_CRITICAL_PACKET_LOSS_PERMILLE: u16 = 150;

    pub const DEFAULT_MAX_TRACEROUTE_HOPS: u8 = 30;

    /// The largest latency sample, in milliseconds, that the statistics
    /// engine accepts; about eleven days.  Probes cap their elapsed time
    /// here, which keeps every intermediate of the jitter and stability
    /// arithmetic within machine range.
    pub const MAX_SAMPLE_LATENCY_MS: u64 = 1_000_000_000;

    pub const CAPTIVE_PORTAL_DETECTION_URL: &'static str = "http://neverssl.com";
}

} // verus!
