use vstd::prelude::*;

verus! {

/// Interval at which the readiness gate re-checks its two conditions, in
/// milliseconds. Lease acquisition is a background, timer-driven process
/// inside the network stack, so readiness is polled rather than
/// event-driven.
pub const GATE_POLL_MS: u64 = 500;

/// An IPv4 lease produced by the DHCP client inside the network stack,
/// consumed read-only. It exists only while a lease is held and vanishes
/// on link-down, which merely blocks the readiness wait — never crashes
/// anything.
#[derive(Clone, Copy, Debug, PartialEq, Eq, Structural)]
pub struct LeaseInfo {
    /// The leased IPv4 address, as its 32-bit numeric value.
    pub address: u32,
    /// Network prefix length, at most 32 bits.
    pub prefix_len: u8,
    /// Default gateway, if the lease named one.
    pub gateway: Option<u32>,
    /// DNS server, if the lease named one.
    pub dns_server: Option<u32>,
}

impl LeaseInfo {
    /// A usable lease: a real (non-empty) address and a sensible prefix.
    pub open spec fn spec_usable(self) -> bool {
        self.address != 0 && self.prefix_len <= 32
    }

    /// Whether this lease is usable.
    pub fn usable(&self) -> (r: bool)
        ensures
            r == self.spec_usable(),
    {
        self.address != 0 && self.prefix_len <= 32
    }
}

/// One poll of the two readiness signals: the link-layer state and
/// the current lease, read from the network stack at the same instant.
#[derive(Clone, Copy, Debug)]
pub struct LinkObservation {
    /// Whether the link layer reports up.
    pub link_up: bool,
    /// The lease held at this instant, if any.
    pub lease: Option<LeaseInfo>,
}

/// The readiness condition: the link is up and a non-empty lease is held,
/// both observed simultaneously.
pub open spec fn spec_ready(o: LinkObservation) -> bool {
    o.link_up && (o.lease matches Some(l) && l.spec_usable())
}

/// What the readiness wait does after one poll.
#[derive(Clone, Copy, Debug, PartialEq, Eq, Structural)]
pub enum GateStep {
    /// Both conditions hold: the caller may proceed.
    Ready,
    /// Not ready yet: sleep this many milliseconds, then poll again.
    Recheck { millis: u64 },
}

/// Decide from one poll whether the network is usable or when to look
/// again. This wait never times out by itself: a caller has nothing useful to
/// do before the network exists.
pub fn gate_step(o: &LinkObservation) -> (g: GateStep)
    ensures
        spec_ready(*o) ==> g == GateStep::Ready,
        !spec_ready(*o) ==> g == (GateStep::Recheck { millis: GATE_POLL_MS }),
{
    if o.link_up {
        match &o.lease {
            Some(lease) => {
                if lease.usable() {
                    return GateStep::Ready;
                }
            },
            None => {},
        }
    }
    GateStep::Recheck { millis: GATE_POLL_MS }
}

/// Law (readiness blocks until both signals hold): an observation is
/// ready exactly when the link is up and, at the same instant, a lease
/// with a real address and a sensible prefix is held — with the link down
/// or the lease missing or empty, the decision is always another poll.
pub proof fn lemma_ready_characterized(o: LinkObservation)
    ensures
        spec_ready(o) <==> (o.link_up && (o.lease matches Some(l) && l.address != 0
            && l.prefix_len <= 32)),
{
}

} // verus!
