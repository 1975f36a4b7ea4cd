//! The traceroute prober's decision logic: hop recording, numbering and
//! the stopping rule, one TTL at a time.

use vstd::prelude::*;

use crate::net_info::{IpAddress, TraceHop};
use crate::text::{push_decimal, push_hex_group, spec_decimal, spec_hex_group};
use vstd::string::StringExecFns;

verus! {

/// The textual form of an address: dotted decimal for IPv4, eight
/// zero-padded hexadecimal groups for IPv6.
pub open spec fn spec_ip_string(ip: IpAddress) -> Seq<char> {
    match ip {
        IpAddress::V4(a, b, c, d) => spec_decimal(a as int) + "."@ + spec_decimal(b as int) + "."@
            + spec_decimal(c as int) + "."@ + spec_decimal(d as int),
        IpAddress::V6(v) => spec_hex_group(((v >> 112) & 0xFFFF) as int) + ":"@ + spec_hex_group(
            ((v >> 96) & 0xFFFF) as int,
        ) + ":"@ + spec_hex_group(((v >> 80) & 0xFFFF) as int) + ":"@ + spec_hex_group(
            ((v >> 64) & 0xFFFF) as int,
        ) + ":"@ + spec_hex_group(((v >> 48) & 0xFFFF) as int) + ":"@ + spec_hex_group(
            ((v >> 32) & 0xFFFF) as int,
        ) + ":"@ + spec_hex_group(((v >> 16) & 0xFFFF) as int) + ":"@ + spec_hex_group(
            (v & 0xFFFF) as int,
        ),
    }
}

proof fn lemma_mask16_bound(x: u128)
    ensures
        x & 0xFFFF < 65536,
{
    assert(x & 0xFFFF < 65536) by (bit_vector);
}

/// Renders an address as text.
pub fn ip_display(ip: &IpAddress) -> (r: String)
    ensures
        r@ == spec_ip_string(*ip),
{
    let mut s = String::new();
    match ip {
        IpAddress::V4(a, b, c, d) => {
            proof {
                reveal_strlit(".");
            }
            push_decimal(&mut s, *a as u64);
            s.append(".");
            push_decimal(&mut s, *b as u64);
            s.append(".");
            push_decimal(&mut s, *c as u64);
            s.append(".");
            push_decimal(&mut s, *d as u64);
            proof {
                assert(s@ =~= spec_ip_string(*ip));
            }
        },
        IpAddress::V6(v) => {
            proof {
                reveal_strlit(":");
                lemma_mask16_bound(*v >> 112);
                lemma_mask16_bound(*v >> 96);
                lemma_mask16_bound(*v >> 80);
                lemma_mask16_bound(*v >> 64);
                lemma_mask16_bound(*v >> 48);
                lemma_mask16_bound(*v >> 32);
                lemma_mask16_bound(*v >> 16);
                lemma_mask16_bound(*v);
            }
            push_hex_group(&mut s, ((*v >> 112) & 0xFFFF) as u64);
            s.append(":");
            push_hex_group(&mut s, ((*v >> 96) & 0xFFFF) as u64);
            s.append(":");
            push_hex_group(&mut s, ((*v >> 80) & 0xFFFF) as u64);
            s.append(":");
            push_hex_group(&mut s, ((*v >> 64) & 0xFFFF) as u64);
            s.append(":");
            push_hex_group(&mut s, ((*v >> 48) & 0xFFFF) as u64);
            s.append(":");
            push_hex_group(&mut s, ((*v >> 32) & 0xFFFF) as u64);
            s.append(":");
            push_hex_group(&mut s, ((*v >> 16) & 0xFFFF) as u64);
            s.append(":");
            push_hex_group(&mut s, (*v & 0xFFFF) as u64);
            proof {
                assert(s@ =~= spec_ip_string(*ip));
            }
        },
    }
    s
}

/// The traceroute session: the hops discovered so far, in TTL order,
/// and whether the trace has finished.  The caller sends one probe per
/// TTL and records each outcome here; the session decides what the hop
/// looks like and when to stop.
pub struct TraceRoute {
    /// The resolved destination address.
    pub target: IpAddress,
    /// The largest TTL that will be probed.
    pub max_hops: u8,
    /// The hops recorded so far; hop k (0-based) carries hop number
    /// k + 1.
    pub hops: Vec<TraceHop>,
    /// True once the destination replied or the hop budget is spent.
    pub done: bool,
}

impl TraceRoute {
    /// The session invariant: the hop list never exceeds the budget, an
    /// unfinished session has budget left, and hops are numbered
    /// consecutively from one.
    pub open spec fn wf(self) -> bool {
        &&& self.hops@.len() <= self.max_hops
        &&& (!self.done ==> self.hops@.len() < self.max_hops)
        &&& forall|i: int|
            0 <= i < self.hops@.len() ==> #[trigger] self.hops@[i].hop_number as int == i + 1
    }

    /// A fresh session towards `target`.  A budget of zero hops is
    /// complete before it starts.
    pub fn new(target: IpAddress, max_hops: u8) -> (t: Self)
        ensures
            t.wf(),
            t.target == target,
            t.max_hops == max_hops,
            t.hops@.len() == 0,
            t.done == (max_hops == 0),
    {
        TraceRoute { target, max_hops, hops: Vec::new(), done: max_hops == 0 }
    }

    /// The TTL the next probe must carry.
    pub fn next_ttl(&self) -> (r: u8)
        requires
            self.wf(),
            !self.done,
        ensures
            r as int == self.hops@.len() + 1,
    {
        (self.hops.len() as u8) + 1
    }

    /// Records the outcome of the probe for the current TTL: a reply
    /// becomes a hop with the replier's address and latency, a timeout
    /// becomes a wildcard hop.  The session finishes when the replier
    /// is the destination itself or the hop budget is spent.
    pub fn record_reply(&mut self, reply: Option<(IpAddress, u64)>)
        requires
            old(self).wf(),
            !old(self).done,
        ensures
            final(self).wf(),
            final(self).target == old(self).target,
            final(self).max_hops == old(self).max_hops,
            final(self).hops@.len() == old(self).hops@.len() + 1,
            final(self).hops@.drop_last() == old(self).hops@,
            ({
                let h = final(self).hops@.last();
                &&& h.hop_number as int == old(self).hops@.len() + 1
                &&& h.hostname is None
                &&& match reply {
                    Some(r2) => h.ip_address@ == spec_ip_string(r2.0) && h.latency_ms == Some(
                        r2.1,
                    ),
                    None => h.ip_address@ == "*"@ && h.latency_ms is None,
                }
            }),
            final(self).done == match reply {
                Some(r2) => r2.0 == old(self).target || old(self).hops@.len() + 1 == old(
                    self,
                ).max_hops as int,
                None => old(self).hops@.len() + 1 == old(self).max_hops as int,
            },
    {
        let ttl = (self.hops.len() as u8) + 1;
        match reply {
            Some((addr, latency)) => {
                let rendered = ip_display(&addr);
                self.hops.push(
                    TraceHop {
                        hop_number: ttl,
                        ip_address: rendered,
                        hostname: None,
                        latency_ms: Some(latency),
                    },
                );
                let reached = addr == self.target;
                self.done = reached || self.hops.len() == self.max_hops as usize;
            },
            None => {
                self.hops.push(
                    TraceHop {
                        hop_number: ttl,
                        ip_address: "*".to_owned(),
                        hostname: None,
                        latency_ms: None,
                    },
                );
                self.done = self.hops.len() == self.max_hops as usize;
            },
        }
        proof {
            assert(final(self).hops@.drop_last() =~= old(self).hops@);
        }
    }
}

} // verus!
