//! Fault injection: the rate at which a relay discards fragments, and the
//! decision it takes for one fragment.

use vstd::prelude::*;

verus! {

/// The number of parts that make up a drop rate of one.
pub const DROP_SCALE: u64 = 0x1_0000_0000;

/// The probability with which a relay discards a fragment that it could
/// forward, counted in parts of [`DROP_SCALE`].
///
/// A fragment is discarded when a number drawn evenly from all of `u32` lies
/// below the rate's threshold, so a threshold of `t` discards `t` fragments
/// out of `DROP_SCALE`.
#[derive(Clone, Copy, Debug, PartialEq, Eq)]
pub struct DropRate {
    threshold: u64,
}

impl DropRate {
    #[verifier::type_invariant]
    spec fn bounded(self) -> bool {
        self.threshold <= DROP_SCALE
    }

    /// The number of draws, out of [`DROP_SCALE`], on which a fragment is
    /// discarded.
    pub closed spec fn threshold(self) -> nat {
        self.threshold as nat
    }

    /// Whether a fragment is discarded on this draw.
    pub open spec fn drops(self, draw: u32) -> bool {
        (draw as nat) < self.threshold()
    }

    /// The rate with the given threshold; `None` if it exceeds
    /// [`DROP_SCALE`].
    pub fn new(threshold: u64) -> (rate: Option<DropRate>)
        ensures
            threshold <= DROP_SCALE ==> rate is Some && rate->0.threshold() == threshold,
            threshold > DROP_SCALE ==> rate is None,
    {
        if threshold <= DROP_SCALE {
            Some(DropRate { threshold })
        } else {
            None
        }
    }

    /// The rate zero: no fragment is discarded.
    pub fn never() -> (rate: DropRate)
        ensures
            rate.threshold() == 0,
    {
        DropRate { threshold: 0 }
    }

    /// The rate one: every fragment is discarded.
    pub fn always() -> (rate: DropRate)
        ensures
            rate.threshold() == DROP_SCALE,
    {
        DropRate { threshold: DROP_SCALE }
    }

    /// The threshold of this rate.
    pub fn parts(&self) -> (parts: u64)
        ensures
            parts == self.threshold(),
            parts <= DROP_SCALE,
    {
        proof {
            use_type_invariant(self);
        }
        self.threshold
    }

    /// Decides for one draw whether the fragment is discarded.
    pub fn decide(&self, draw: u32) -> (drop: bool)
        ensures
            drop == self.drops(draw),
    {
        (draw as u64) < self.threshold
    }
}

/// A rate of zero discards on no draw, and a rate of one on every draw.
pub proof fn law_rates_zero_and_one(rate: DropRate, draw: u32)
    ensures
        rate.threshold() == 0 ==> !rate.drops(draw),
        rate.threshold() == DROP_SCALE ==> rate.drops(draw),
{
}

} // verus!
