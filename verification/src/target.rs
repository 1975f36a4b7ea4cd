//! Definition of a single network endpoint to be probed.

use vstd::prelude::*;

verus! {

/// The transport protocol used when probing a target.
#[derive(Debug, Clone, Copy, PartialEq, Eq, Structural)]
pub enum TargetProtocol {
    /// Probe by establishing a TCP connection; success means the
    /// connection was accepted.
    Tcp,
    /// Probe by sending a single UDP datagram; success means the send
    /// completed.  No reply is awaited.
    Udp,
}

/// One network endpoint that the engine probes.
#[derive(Debug, Clone)]
pub struct NetworkTarget {
    /// A unique, human-readable label for this target (e.g. "Google DNS").
    pub label: String,
    /// The hostname or IP address of the target.
    pub host: String,
    /// The port number to connect to.
    pub port: u16,
    /// The protocol used for the probe.
    pub protocol: TargetProtocol,
    /// The timeout in milliseconds for this specific target, covering
    /// name resolution and the connection attempt together.
    pub timeout_ms: u64,
    /// Caller-defined priority; the engine itself never reads it.
    pub priority: u8,
    /// If true, a failure of this target alone fails an entire sampling
    /// round, whatever the strategy says.
    pub is_essential: bool,
}

} // verus!
