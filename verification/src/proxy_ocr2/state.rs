use vstd::prelude::*;

verus! {

/// The answer of one round, with the round's number tagged by the phase of the
/// aggregator that produced it.
#[derive(Clone, Copy, Debug, PartialEq, Eq, Structural)]
pub struct Round {
    pub round_id: u64,
    pub answer: i128,
    pub observations_timestamp: u32,
    pub transmission_timestamp: u32,
}

} // verus!
