use vstd::prelude::*;

verus! {

/// Two independent 64-bit seeds, drawn once at boot and never reused across
/// reconnects: one seeds the network stack's transport-layer randomness
/// (port and sequence-number unpredictability), the other the TLS client.
pub struct RandomSeeds {
    pub net_seed: u64,
    pub tls_seed: u64,
}

/// The 64-bit value assembled from two 32-bit hardware draws: the first
/// draw fills the low half, the second the high half.
pub open spec fn spec_combined(lo: u32, hi: u32) -> int {
    lo + hi * 0x1_0000_0000
}

/// Pack two 32-bit random draws into one 64-bit seed without losing entropy.
pub fn combine_draws(lo: u32, hi: u32) -> (r: u64)
    ensures
        r == spec_combined(lo, hi),
{
    let r: u64 = (lo as u64) | ((hi as u64) << 32u64);
    proof {
        assert((lo as u64) | ((hi as u64) << 32u64) == lo + (hi as u64) * 0x1_0000_0000) by (bit_vector);
    }
    r
}

/// No two distinct pairs of draws collapse to the same seed: the packing
/// loses no entropy.
pub proof fn lemma_combined_injective(lo1: u32, hi1: u32, lo2: u32, hi2: u32)
    ensures
        spec_combined(lo1, hi1) == spec_combined(lo2, hi2) <==> (lo1 == lo2 && hi1 == hi2),
{
}

impl RandomSeeds {
    /// Build both seeds from four independent 32-bit draws; the network
    /// seed and the TLS seed come from disjoint draws, so neither protocol's
    /// randomness is shared with the other.
    pub fn from_draws(net_lo: u32, net_hi: u32, tls_lo: u32, tls_hi: u32) -> (s: RandomSeeds)
        ensures
            s.net_seed == spec_combined(net_lo, net_hi),
            s.tls_seed == spec_combined(tls_lo, tls_hi),
    {
        RandomSeeds {
            net_seed: combine_draws(net_lo, net_hi),
            tls_seed: combine_draws(tls_lo, tls_hi),
        }
    }
}

} // verus!
