//! The interface classifier: deciding the connection type and the
//! security flags from the names of the local network interfaces.

use vstd::prelude::*;

use crate::net_info::{ConnectionType, NetworkMetadata, SecurityFlags};
use crate::text::{chars_of, contains_chars, lower_chars_of, spec_contains_seq, spec_lower};

verus! {

/// One local network interface, as the verified classifier sees it: its
/// name and whether it carries at least one address.
#[derive(Debug, Clone)]
pub struct InterfaceInfo {
    /// The interface name (e.g. "wlan0", "tun0").
    pub name: String,
    /// Whether the interface has at least one address assigned.
    pub has_address: bool,
}

/// Whether an ASCII-lowered name marks a VPN or tunnel interface.
pub open spec fn spec_is_vpn_name(n: Seq<char>) -> bool {
    ||| spec_contains_seq(spec_lower(n), "tun"@)
    ||| spec_contains_seq(spec_lower(n), "tap"@)
    ||| spec_contains_seq(spec_lower(n), "ppp"@)
    ||| spec_contains_seq(spec_lower(n), "vpn"@)
}

/// Whether an ASCII-lowered name marks a WiFi interface.
pub open spec fn spec_is_wifi_name(n: Seq<char>) -> bool {
    ||| spec_contains_seq(spec_lower(n), "wlan"@)
    ||| spec_contains_seq(spec_lower(n), "wifi"@)
}

/// Whether an ASCII-lowered name marks a wired Ethernet interface.
pub open spec fn spec_is_ethernet_name(n: Seq<char>) -> bool {
    ||| spec_contains_seq(spec_lower(n), "eth"@)
    ||| spec_contains_seq(spec_lower(n), "en"@)
}

/// Whether an ASCII-lowered name marks a cellular interface.
pub open spec fn spec_is_cellular_name(n: Seq<char>) -> bool {
    ||| spec_contains_seq(spec_lower(n), "rmnet"@)
    ||| spec_contains_seq(spec_lower(n), "wwan"@)
}

/// The category of an interface name, by the priority-ordered keyword
/// table: VPN first, then WiFi, Ethernet and Cellular.
pub open spec fn spec_iface_category(n: Seq<char>) -> Option<ConnectionType> {
    if spec_is_vpn_name(n) {
        Some(ConnectionType::Vpn)
    } else if spec_is_wifi_name(n) {
        Some(ConnectionType::Wifi)
    } else if spec_is_ethernet_name(n) {
        Some(ConnectionType::Ethernet)
    } else if spec_is_cellular_name(n) {
        Some(ConnectionType::Cellular)
    } else {
        None
    }
}

/// Whether the scan considers an interface at all: it must carry an
/// address and its name must not contain "lo".
pub open spec fn spec_considered(x: InterfaceInfo) -> bool {
    x.has_address && !spec_contains_seq(x.name@, "lo"@)
}

/// A considered interface whose name marks a VPN.
pub open spec fn spec_vpn_considered(x: InterfaceInfo) -> bool {
    spec_considered(x) && spec_is_vpn_name(x.name@)
}

/// A considered interface whose name falls in any category.
pub open spec fn spec_cat_considered(x: InterfaceInfo) -> bool {
    spec_considered(x) && spec_iface_category(x.name@) is Some
}

/// The index of the first considered VPN interface, or the length of the
/// list when there is none.
pub open spec fn spec_vpn_index(s: Seq<InterfaceInfo>) -> int
    decreases s.len(),
{
    if s.len() == 0 {
        0
    } else if spec_vpn_considered(s[0]) {
        0
    } else {
        1 + spec_vpn_index(s.drop_first())
    }
}

/// The index of the first considered interface of any category, or the
/// length of the list when there is none.
pub open spec fn spec_cat_index(s: Seq<InterfaceInfo>) -> int
    decreases s.len(),
{
    if s.len() == 0 {
        0
    } else if spec_cat_considered(s[0]) {
        0
    } else {
        1 + spec_cat_index(s.drop_first())
    }
}

proof fn lemma_vpn_index_at(s: Seq<InterfaceInfo>, i: int)
    requires
        0 <= i < s.len(),
        spec_vpn_considered(s[i]),
        forall|j: int| 0 <= j < i ==> !spec_vpn_considered(s[j]),
    ensures
        spec_vpn_index(s) == i,
    decreases i,
{
    if i > 0 {
        lemma_vpn_index_at(s.drop_first(), i - 1);
    }
}

proof fn lemma_vpn_index_none(s: Seq<InterfaceInfo>)
    requires
        forall|j: int| 0 <= j < s.len() ==> !spec_vpn_considered(s[j]),
    ensures
        spec_vpn_index(s) == s.len(),
    decreases s.len(),
{
    if s.len() > 0 {
        lemma_vpn_index_none(s.drop_first());
    }
}

proof fn lemma_cat_index_at(s: Seq<InterfaceInfo>, i: int)
    requires
        0 <= i < s.len(),
        spec_cat_considered(s[i]),
        forall|j: int| 0 <= j < i ==> !spec_cat_considered(s[j]),
    ensures
        spec_cat_index(s) == i,
    decreases i,
{
    if i > 0 {
        lemma_cat_index_at(s.drop_first(), i - 1);
    }
}

proof fn lemma_cat_index_none(s: Seq<InterfaceInfo>)
    requires
        forall|j: int| 0 <= j < s.len() ==> !spec_cat_considered(s[j]),
    ensures
        spec_cat_index(s) == s.len(),
    decreases s.len(),
{
    if s.len() > 0 {
        lemma_cat_index_none(s.drop_first());
    }
}

/// Whether an interface name, ASCII-lowered, marks a VPN.
fn is_vpn_name(name: &str) -> (r: bool)
    ensures
        r == spec_is_vpn_name(name@),
{
    let low = lower_chars_of(name);
    let tun = chars_of("tun");
    let tap = chars_of("tap");
    let ppp = chars_of("ppp");
    let vpn = chars_of("vpn");
    contains_chars(&low, &tun) || contains_chars(&low, &tap) || contains_chars(&low, &ppp)
        || contains_chars(&low, &vpn)
}

/// The category of an interface name that is not a VPN name.
fn non_vpn_category(name: &str) -> (r: Option<ConnectionType>)
    requires
        !spec_is_vpn_name(name@),
    ensures
        r == spec_iface_category(name@),
{
    let low = lower_chars_of(name);
    let wlan = chars_of("wlan");
    let wifi = chars_of("wifi");
    if contains_chars(&low, &wlan) || contains_chars(&low, &wifi) {
        return Some(ConnectionType::Wifi);
    }
    let eth = chars_of("eth");
    let en = chars_of("en");
    if contains_chars(&low, &eth) || contains_chars(&low, &en) {
        return Some(ConnectionType::Ethernet);
    }
    let rmnet = chars_of("rmnet");
    let wwan = chars_of("wwan");
    if contains_chars(&low, &rmnet) || contains_chars(&low, &wwan) {
        return Some(ConnectionType::Cellular);
    }
    None
}

/// Classifies the local interfaces: the first considered VPN interface
/// decides the whole scan; otherwise the first considered interface of
/// any category gives the connection type; otherwise everything stays
/// unknown.
pub fn classify_interfaces(interfaces: &Vec<InterfaceInfo>) -> (r: (SecurityFlags, ConnectionType))
    ensures
        !r.0.is_dns_spoofed,
        !r.0.is_proxy_detected,
        r.0.is_vpn_detected <==> spec_vpn_index(interfaces@) < interfaces@.len(),
        spec_vpn_index(interfaces@) < interfaces@.len() ==> {
            &&& r.1 == ConnectionType::Vpn
            &&& r.0.interface_name@ == interfaces@[spec_vpn_index(interfaces@)].name@
        },
        spec_vpn_index(interfaces@) == interfaces@.len() && spec_cat_index(interfaces@)
            < interfaces@.len() ==> {
            &&& r.1 == spec_iface_category(interfaces@[spec_cat_index(interfaces@)].name@)->0
            &&& r.0.interface_name@ == interfaces@[spec_cat_index(interfaces@)].name@
        },
        spec_vpn_index(interfaces@) == interfaces@.len() && spec_cat_index(interfaces@)
            == interfaces@.len() ==> {
            &&& r.1 == ConnectionType::Unknown
            &&& r.0.interface_name@ == "unknown"@
        },
{
    let mut flags = SecurityFlags::default();
    let mut conn = ConnectionType::Unknown;
    let ghost mut found: Option<int> = None;
    let n = interfaces.len();
    let lo = chars_of("lo");
    let mut i: usize = 0;
    while i < n
        invariant
            0 <= i <= n,
            n == interfaces@.len(),
            lo@ == "lo"@,
            !flags.is_vpn_detected,
            !flags.is_dns_spoofed,
            !flags.is_proxy_detected,
            forall|j: int| 0 <= j < i ==> !spec_vpn_considered(interfaces@[j]),
            match found {
                None => {
                    &&& conn == ConnectionType::Unknown
                    &&& flags.interface_name@ == "unknown"@
                    &&& forall|j: int| 0 <= j < i ==> !spec_cat_considered(interfaces@[j])
                },
                Some(f) => {
                    &&& 0 <= f < i
                    &&& spec_cat_considered(interfaces@[f])
                    &&& spec_iface_category(interfaces@[f].name@) == Some(conn)
                    &&& flags.interface_name@ == interfaces@[f].name@
                    &&& forall|j: int| 0 <= j < f ==> !spec_cat_considered(interfaces@[j])
                },
            },
        decreases n - i,
    {
        let iface = &interfaces[i];
        let name_chars = chars_of(iface.name.as_str());
        let considered = iface.has_address && !contains_chars(&name_chars, &lo);
        if considered {
            if is_vpn_name(iface.name.as_str()) {
                flags.is_vpn_detected = true;
                flags.interface_name = iface.name.clone();
                proof {
                    lemma_vpn_index_at(interfaces@, i as int);
                }
                return (flags, ConnectionType::Vpn);
            }
            if matches!(conn, ConnectionType::Unknown) {
                if let Some(category) = non_vpn_category(iface.name.as_str()) {
                    conn = category;
                    flags.interface_name = iface.name.clone();
                    proof {
                        found = Some(i as int);
                    }
                }
            }
        }
        i = i + 1;
    }
    proof {
        lemma_vpn_index_none(interfaces@);
        match found {
            None => {
                lemma_cat_index_none(interfaces@);
            },
            Some(f) => {
                lemma_cat_index_at(interfaces@, f);
            },
        }
    }
    (flags, conn)
}

/// The same classification, reported as the compact metadata summary
/// beside the connection type.
pub fn classify_metadata(interfaces: &Vec<InterfaceInfo>) -> (r: (NetworkMetadata, ConnectionType))
    ensures
        r.0.is_vpn <==> spec_vpn_index(interfaces@) < interfaces@.len(),
        spec_vpn_index(interfaces@) < interfaces@.len() ==> {
            &&& r.1 == ConnectionType::Vpn
            &&& r.0.interface_name@ == interfaces@[spec_vpn_index(interfaces@)].name@
        },
        spec_vpn_index(interfaces@) == interfaces@.len() && spec_cat_index(interfaces@)
            < interfaces@.len() ==> {
            &&& r.1 == spec_iface_category(interfaces@[spec_cat_index(interfaces@)].name@)->0
            &&& r.0.interface_name@ == interfaces@[spec_cat_index(interfaces@)].name@
        },
        spec_vpn_index(interfaces@) == interfaces@.len() && spec_cat_index(interfaces@)
            == interfaces@.len() ==> {
            &&& r.1 == ConnectionType::Unknown
            &&& r.0.interface_name@ == "unknown"@
        },
{
    let (flags, conn) = classify_interfaces(interfaces);
    (NetworkMetadata { is_vpn: flags.is_vpn_detected, interface_name: flags.interface_name }, conn)
}

} // verus!
