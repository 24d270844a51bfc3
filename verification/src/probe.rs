//! The liveness probe's verdict.
//!
//! The probe is one receive attempt on a UDP socket for a datagram from the
//! candidate address, made without waiting. The embedding application makes
//! the attempt; what it found decides here.

use vstd::prelude::*;

verus! {

/// What the receive attempt found.
#[derive(Clone, Copy, Debug, PartialEq, Eq, Structural)]
pub enum ProbeOutcome {
    /// A datagram of the given length arrived. Its content is not looked at.
    Datagram(usize),
    /// No datagram was there, or no attempt could be made.
    Silence,
}

/// Whether the address counts as reachable: any datagram is proof of life,
/// an empty one too, and silence is none.
pub fn is_reachable(outcome: ProbeOutcome) -> (reachable: bool)
    ensures
        reachable == (outcome is Datagram),
{
    match outcome {
        ProbeOutcome::Datagram(_) => true,
        ProbeOutcome::Silence => false,
    }
}

} // verus!
