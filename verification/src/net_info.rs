//! Low-level network information: connection types, interface security
//! flags, addresses and traceroute hops.

use vstd::prelude::*;

verus! {

/// The type of the active physical or logical network connection.
#[derive(Debug, Clone, Copy, PartialEq, Eq, Structural)]
pub enum ConnectionType {
    /// A WiFi connection.
    Wifi,
    /// A mobile data connection (e.g. LTE, 5G).
    Cellular,
    /// A wired Ethernet connection.
    Ethernet,
    /// A virtual private network connection.
    Vpn,
    /// A Bluetooth tethering connection.
    Bluetooth,
    /// The connection type could not be determined.
    Unknown,
}

/// The result of a captive portal check.
#[derive(Debug, Clone)]
pub struct CaptivePortalStatus {
    /// True if the probe was redirected, which indicates a portal.
    pub is_captive_portal: bool,
    /// Where the probe was redirected to, if it was.
    pub redirect_url: Option<String>,
}

/// An IP address, as the verified logic sees it: four octets for IPv4, a
/// single 128-bit value for IPv6.
#[derive(Debug, Clone, Copy, PartialEq, Eq, Structural)]
pub enum IpAddress {
    /// An IPv4 address, most significant octet first.
    V4(u8, u8, u8, u8),
    /// An IPv6 address as one 128-bit value, most significant bit first.
    V6(u128),
}

/// One hop of a traceroute path.
#[derive(Debug, Clone)]
pub struct TraceHop {
    /// The hop number, i.e. the time-to-live value that was probed.
    pub hop_number: u8,
    /// The address of the router at this hop, or "*" if it never replied.
    pub ip_address: String,
    /// The hostname resolved from the address, where available.
    pub hostname: Option<String>,
    /// The round-trip time to this hop in milliseconds, absent when the
    /// hop timed out.
    pub latency_ms: Option<u64>,
}

/// Security-related attributes of the current connection.
#[derive(Debug, Clone)]
pub struct SecurityFlags {
    /// True if the active interface is a known VPN/tunnel type.
    pub is_vpn_detected: bool,
    /// True if system DNS answers disagreed with a trusted resolver.
    pub is_dns_spoofed: bool,
    /// True if a system-level proxy is detected (not yet implemented).
    pub is_proxy_detected: bool,
    /// The name of the active network interface (e.g. "wlan0", "tun0").
    pub interface_name: String,
}

impl Default for SecurityFlags {
    /// No flag raised, interface not yet known.
    fn default() -> (r: Self)
        ensures
            !r.is_vpn_detected,
            !r.is_dns_spoofed,
            !r.is_proxy_detected,
            r.interface_name@ == "unknown"@,
    {
        SecurityFlags {
            is_vpn_detected: false,
            is_dns_spoofed: false,
            is_proxy_detected: false,
            interface_name: "unknown".to_owned(),
        }
    }
}

/// A compact summary of the active interface, reported beside the
/// connection type by the interface inspection helpers.
#[derive(Debug, Clone)]
pub struct NetworkMetadata {
    /// True if the active interface is a known VPN/tunnel type.
    pub is_vpn: bool,
    /// The name of the active network interface.
    pub interface_name: String,
}

/// One device discovered by a local subnet scan.
#[derive(Debug, Clone)]
pub struct LocalDevice {
    /// The address the device answered on.
    pub ip_address: String,
    /// Its hostname, where a reverse lookup supplied one.
    pub hostname: Option<String>,
    /// Its hardware address, where the platform supplied one.
    pub mac_address: Option<String>,
}

} // verus!
