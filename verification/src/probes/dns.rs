//! The DNS hijack comparator: judging the system resolver's answers
//! against a trusted resolver's.

use vstd::prelude::*;

use crate::net_info::IpAddress;

verus! {

/// The hijack judgement.  True when some system-returned address is
/// absent from the trusted resolver's answer set.  An empty system
/// answer is clean, and the trusted set may hold any number of extra
/// addresses.
pub open spec fn spec_dns_hijacked(system: Seq<IpAddress>, trusted: Seq<IpAddress>) -> bool {
    exists|i: int| 0 <= i < system.len() && !trusted.contains(system[i])
}

/// Law: when every system-returned address appears in the trusted set,
/// the answers are judged clean.
pub proof fn lemma_subset_is_clean(system: Seq<IpAddress>, trusted: Seq<IpAddress>)
    requires
        forall|i: int| 0 <= i < system.len() ==> trusted.contains(system[i]),
    ensures
        !spec_dns_hijacked(system, trusted),
{
}

/// Whether an address list holds the given address.
fn list_contains(list: &Vec<IpAddress>, addr: IpAddress) -> (r: bool)
    ensures
        r == list@.contains(addr),
{
    let n = list.len();
    let mut i: usize = 0;
    while i < n
        invariant
            0 <= i <= n,
            n == list@.len(),
            forall|j: int| 0 <= j < i ==> list@[j] != addr,
        decreases n - i,
    {
        if list[i] == addr {
            return true;
        }
        i = i + 1;
    }
    false
}

/// The full comparison with its fail-open policy: when either
/// resolution path produced no answer set, the absence of a signal is
/// never treated as evidence of tampering, and the result is false.
pub fn dns_check_outcome(
    system_ips: Option<Vec<IpAddress>>,
    trusted_ips: Option<Vec<IpAddress>>,
) -> (r: bool)
    ensures
        system_ips is None || trusted_ips is None ==> !r,
        system_ips is Some && trusted_ips is Some ==> r == spec_dns_hijacked(
            system_ips->0@,
            trusted_ips->0@,
        ),
{
    match (system_ips, trusted_ips) {
        (Some(system), Some(trusted)) => is_dns_hijacked(&system, &trusted),
        _ => false,
    }
}

/// Compares the system resolver's answers with a trusted resolver's:
/// true exactly when the system returned an address the trusted
/// resolver did not.
pub fn is_dns_hijacked(system_ips: &Vec<IpAddress>, trusted_ips: &Vec<IpAddress>) -> (r: bool)
    ensures
        r == spec_dns_hijacked(system_ips@, trusted_ips@),
{
    let n = system_ips.len();
    let mut i: usize = 0;
    while i < n
        invariant
            0 <= i <= n,
            n == system_ips@.len(),
            forall|j: int| 0 <= j < i ==> trusted_ips@.contains(system_ips@[j]),
        decreases n - i,
    {
        if !list_contains(trusted_ips, system_ips[i]) {
            return true;
        }
        i = i + 1;
    }
    false
}

} // verus!
