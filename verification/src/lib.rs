//! Connectivity manager for a wireless LED-matrix firmware.
//!
//! The crate verifies the decision logic that brings a station-mode radio
//! from power-on to an authenticated, IP-addressed, request-capable network
//! endpoint and keeps it there: the association state machine and its
//! fixed-interval retry policy, the readiness gate (link up and a lease
//! held), and the HTTP request executor's staged error handling together
//! with its deadline-bounded read loop and socket teardown discipline.
//!
//! The radio driver, the packet-level network stack, the TLS layer and the
//! timers are event-driven collaborators: the surrounding firmware performs
//! each action this crate decides on and hands the resulting event back.
use vstd::prelude::*;

pub mod association;
pub mod manager;
pub mod readiness;
pub mod request;
pub mod seeds;

verus! {

/// The fatal-error policy, consulted by the firmware's panic handler after
/// each idle spin: whether to go on halting.
///
/// The answer is always to go on. Fatal configuration errors (credentials
/// rejected at setup, allocation failure) are unrecoverable in unattended
/// firmware: there is no operator to intervene and no safe degraded mode,
/// so a halted process never resumes. The unbounded spin itself lives with
/// the handler, which repeats it for as long as this function says so.
pub fn panic() -> (halt_again: bool)
    ensures
        halt_again,
{
    true
}

} // verus!
