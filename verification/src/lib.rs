//! A network reachability and quality-assessment library.
//!
//! The crate decides whether a host has usable internet connectivity,
//! quantifies the quality of that connectivity (latency, jitter, packet
//! loss, stability) and flags network-level anomalies (VPN interfaces,
//! DNS tampering, routing path).  All decision logic is verified; the
//! socket work itself is performed by a thin unverified shell around the
//! library.

pub mod config;
pub mod constants;
pub mod engine;
pub mod error;
pub mod net_info;
pub mod probes;
pub mod quality;
pub mod report;
pub mod target;
pub mod text;
pub mod utils;

pub use config::{
    CheckStrategy, ConnectionQuality, NetworkConfiguration, QualityThresholds, ResilienceConfig,
    SecurityConfig,
};
pub use constants::AppConstants;
pub use error::NetworkError;
pub use net_info::{
    CaptivePortalStatus, ConnectionType, IpAddress, LocalDevice, NetworkMetadata, SecurityFlags,
    TraceHop,
};
pub use report::{LatencyStats, NetworkReport, NetworkStatus, TargetReport};
pub use target::{NetworkTarget, TargetProtocol};
