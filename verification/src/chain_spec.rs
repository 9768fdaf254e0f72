//! The chain's constants that the tasks read.

use vstd::prelude::*;

use crate::duration::{Duration, MAX_NANOS};

verus! {

/// The chain's constants that the tasks read.
#[derive(Clone, Copy, Debug, PartialEq, Eq)]
pub struct ChainSpec {
    pub slot_duration: Duration,
    pub slots_per_epoch: u64,
}

impl ChainSpec {
    /// The number of slots that an epoch is taken to last where the clock does
    /// not say: the low 32 bits of `slots_per_epoch`.
    pub open spec fn epoch_factor(self) -> u32 {
        (self.slots_per_epoch % 0x1_0000_0000) as u32
    }

    /// Whether an epoch's length can be computed from the slot duration.
    pub open spec fn has_epoch_duration(self) -> bool {
        self.slot_duration.repeats(self.epoch_factor())
    }

    /// An epoch's length, computed from the slot duration.
    pub open spec fn spec_epoch_duration(self) -> Duration {
        self.slot_duration.repeated(self.epoch_factor())
    }

    fn slots_factor(&self) -> (factor: u32)
        ensures
            factor == self.epoch_factor(),
            factor == self.slots_per_epoch % 0x1_0000_0000,
    {
        let slots: u64 = self.slots_per_epoch;
        (slots % 0x1_0000_0000) as u32
    }

    /// Whether an epoch's length can be computed from the slot duration.
    pub fn epoch_duration_fits(&self) -> (fits: bool)
        ensures
            fits == self.has_epoch_duration(),
            fits == (self.slot_duration@ * (self.slots_per_epoch % 0x1_0000_0000) <= MAX_NANOS),
    {
        self.slot_duration.can_repeat(self.slots_factor())
    }

    /// An epoch's length, computed from the slot duration.
    pub fn epoch_duration(&self) -> (d: Duration)
        requires
            self.has_epoch_duration(),
        ensures
            d == self.spec_epoch_duration(),
            d@ == self.slot_duration@ * self.epoch_factor(),
            d@ == self.slot_duration@ * (self.slots_per_epoch % 0x1_0000_0000),
    {
        self.slot_duration.repeat(self.slots_factor())
    }
}

/// An epoch's length is the slot's, times the low half of the number of slots
/// per epoch, wherever that is a span of time.
pub proof fn epoch_is_slots_long(chain_spec: ChainSpec)
    ensures
        ({
            let nanos = chain_spec.slot_duration@ * (chain_spec.slots_per_epoch % 0x1_0000_0000);
            &&& chain_spec.has_epoch_duration() <==> nanos <= MAX_NANOS
            &&& nanos <= MAX_NANOS ==> chain_spec.spec_epoch_duration()@ == nanos
        }),
{
    if chain_spec.has_epoch_duration() {
        crate::duration::repeated_length(chain_spec.slot_duration, chain_spec.epoch_factor());
    }
}

} // verus!
