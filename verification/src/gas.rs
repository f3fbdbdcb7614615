//! Metering of the gas that a run uses.
use vstd::prelude::*;

verus! {

/// Whether there was gas enough for a charge.
#[derive(Clone, Copy, Debug, PartialEq, Eq, Structural)]
pub enum ChargeResult {
    /// The gas was taken.
    Enough,
    /// There was less gas left than asked for; none was taken.
    NotEnough,
}

/// A gas counter that starts at a limit and counts down.
#[derive(Clone, Copy, Debug)]
pub struct GasCounterLimited {
    limit: u64,
    left: u64,
}

impl GasCounterLimited {
    /// The gas that the counter started with.
    pub closed spec fn spec_limit(&self) -> u64 {
        self.limit
    }

    /// The gas that is left.
    pub closed spec fn spec_left(&self) -> u64 {
        self.left
    }

    /// There is never more gas left than the counter started with.
    pub open spec fn wf(&self) -> bool {
        self.spec_left() <= self.spec_limit()
    }

    /// A counter with `limit` gas.
    pub fn new(limit: u64) -> (counter: GasCounterLimited)
        ensures
            counter.wf(),
            counter.spec_limit() == limit,
            counter.spec_left() == limit,
    {
        GasCounterLimited { limit, left: limit }
    }

    /// Takes `val` gas, if there is so much left.
    pub fn charge(&mut self, val: u32) -> (result: ChargeResult)
        requires
            old(self).wf(),
        ensures
            final(self).wf(),
            final(self).spec_limit() == old(self).spec_limit(),
            match result {
                ChargeResult::Enough => {
                    &&& val <= old(self).spec_left()
                    &&& final(self).spec_left() == old(self).spec_left() - val
                },
                ChargeResult::NotEnough => {
                    &&& val > old(self).spec_left()
                    &&& final(self).spec_left() == old(self).spec_left()
                },
            },
    {
        if val as u64 > self.left {
            ChargeResult::NotEnough
        } else {
            self.left = self.left - val as u64;
            ChargeResult::Enough
        }
    }

    /// The gas that is left.
    pub fn left(&self) -> (left: u64)
        ensures
            left == self.spec_left(),
    {
        self.left
    }
}

} // verus!
