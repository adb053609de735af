//! Planning how a host becomes connectable addresses.
//!
//! A host that is already a literal IP address needs no name lookup: it maps
//! to exactly one address, and a lookup must never be made for it. Any other
//! host needs a DNS query; the caller performs the query (it is network
//! I/O) and combines the answer with the target's port through
//! `addrs_from_ips`. Resolution is re-planned on every polling attempt, so
//! a changed DNS answer is picked up; nothing here caches.

use vstd::prelude::*;

verus! {

/// An IP address as a plain value: the 32 bits of a v4 address or the 128
/// bits of a v6 address.
#[derive(Debug, Clone, Copy, PartialEq, Eq, Structural)]
pub enum IpRepr {
    V4(u32),
    V6(u128),
}

/// One concrete transport address a probe can try.
#[derive(Debug, Clone, Copy, PartialEq, Eq, Structural)]
pub struct ResolvedAddr {
    pub ip: IpRepr,
    pub port: u16,
}

/// How one polling attempt obtains its candidate addresses.
#[derive(Debug, Clone, Copy, PartialEq, Eq, Structural)]
pub enum ResolvePlan {
    /// The host is a literal IP address: this single address, no lookup.
    Literal(ResolvedAddr),
    /// The host is a name: a DNS query is needed.
    Lookup,
}

/// Decide how a host is resolved, from whether it parses as a literal IP
/// address (`literal`) and the target's port.
///
/// A literal host never leads to a lookup: the plan is its single address.
/// Only a non-literal host is sent to DNS.
pub fn plan_resolution(literal: Option<IpRepr>, port: u16) -> (r: ResolvePlan)
    ensures
        literal matches Some(ip) ==> r == ResolvePlan::Literal(ResolvedAddr { ip, port }),
        literal is None ==> r == ResolvePlan::Lookup,
{
    match literal {
        Some(ip) => ResolvePlan::Literal(ResolvedAddr { ip, port }),
        None => ResolvePlan::Lookup,
    }
}

/// The addresses of a DNS answer, each combined with the same port.
pub open spec fn combined(ips: Seq<IpRepr>, port: u16) -> Seq<ResolvedAddr> {
    ips.map_values(|ip: IpRepr| ResolvedAddr { ip, port })
}

/// Combine a DNS answer with the target's port, keeping the answer's order.
pub fn addrs_from_ips(ips: &Vec<IpRepr>, port: u16) -> (r: Vec<ResolvedAddr>)
    ensures
        r@ == combined(ips@, port),
        r@.len() == ips@.len(),
        forall|i: int| 0 <= i < ips@.len() ==> r@[i] == (ResolvedAddr {
            ip: #[trigger] ips@[i],
            port,
        }),
{
    let n = ips.len();
    let mut out: Vec<ResolvedAddr> = Vec::new();
    let mut i: usize = 0;
    while i < n
        invariant
            0 <= i <= n,
            n == ips@.len(),
            out@.len() == i,
            forall|j: int| 0 <= j < i ==> out@[j] == (ResolvedAddr {
                ip: #[trigger] ips@[j],
                port,
            }),
        decreases n - i,
    {
        out.push(ResolvedAddr { ip: ips[i], port });
        i = i + 1;
    }
    proof {
        assert(out@ =~= combined(ips@, port));
    }
    out
}

/// The fixed fallback resolvers, used when the system's own are unusable:
/// three well-known public DNS servers, queried in this order, each on the
/// standard DNS port.
pub fn fallback_dns_servers() -> (r: Vec<ResolvedAddr>)
    ensures
        r@.len() == 3,
        r@[0] == (ResolvedAddr { ip: IpRepr::V4(0x01010101), port: 53 }),  // 1.1.1.1
        r@[1] == (ResolvedAddr { ip: IpRepr::V4(0x08080808), port: 53 }),  // 8.8.8.8
        r@[2] == (ResolvedAddr { ip: IpRepr::V4(0x04040404), port: 53 }),  // 4.4.4.4
{
    let mut out: Vec<ResolvedAddr> = Vec::new();
    out.push(ResolvedAddr { ip: IpRepr::V4(0x01010101), port: 53 });
    out.push(ResolvedAddr { ip: IpRepr::V4(0x08080808), port: 53 });
    out.push(ResolvedAddr { ip: IpRepr::V4(0x04040404), port: 53 });
    out
}

} // verus!
