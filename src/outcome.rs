use vstd::prelude::*;

verus! {

/// A routable address: an IPv4 address as its 32 bits, or an IPv6 address
/// as its 128 bits (both in network order, most significant first).
#[derive(Clone, Copy, Debug, PartialEq, Eq, Structural)]
pub enum Address {
    V4(u32),
    V6(u128),
}

/// Where a reply came from, with the fields that its address family carries.
#[allow(inconsistent_fields)]
#[derive(Clone, Copy, Debug, PartialEq, Eq, Structural)]
pub enum ReplySource {
    V4 { source: u32, ttl: u8 },
    V6 { source: u128 },
}

impl ReplySource {
    /// An IPv4 source; a TTL that the transport could not report is taken as 0.
    pub fn ipv4(source: u32, ttl: Option<u8>) -> (r: ReplySource)
        ensures
            r == (ReplySource::V4 {
                source,
                ttl: match ttl {
                    Some(t) => t,
                    None => 0,
                },
            }),
    {
        match ttl {
            Some(t) => ReplySource::V4 { source, ttl: t },
            None => ReplySource::V4 { source, ttl: 0 },
        }
    }
}

/// A matching echo reply that arrived within the timeout.
#[derive(Clone, Copy, Debug, PartialEq, Eq, Structural)]
pub struct Reply {
    pub from: ReplySource,
    /// Size of the reply in bytes.
    pub size: usize,
    /// Measured round-trip time in microseconds.
    pub rtt_us: u64,
}

/// The result of one echo exchange: exactly one per probe.
#[derive(Clone, Debug)]
pub enum ProbeOutcome {
    Reply(Reply),
    TransportError(String),
    TimedOut,
}

impl ProbeOutcome {
    /// What the statistics see of an outcome: the round-trip time of a
    /// reply, nothing for a lost probe.
    pub open spec fn sample(&self) -> Option<u64> {
        match *self {
            ProbeOutcome::Reply(r) => Some(r.rtt_us),
            _ => None,
        }
    }
}

/// The samples of a sequence of outcomes, in order.
pub open spec fn samples_of(outcomes: Seq<ProbeOutcome>) -> Seq<Option<u64>> {
    outcomes.map_values(|o: ProbeOutcome| o.sample())
}

} // verus!
