//! Waiting for the start of the next slot.

use vstd::prelude::*;

use crate::chain_spec::ChainSpec;
use crate::duration::Duration;
use crate::types::{ForkName, Slot};

verus! {

/// The wait for the next slot. It ends with the slot that has started, or with
/// `None` where this round has nothing to produce.
pub enum WaitToNextSlot {
    /// Waits for the clock's distance to the next slot.
    ReadDurationToNextSlot(ReadDurationToNextSlot),
    /// Waits for the clock's current slot.
    ReadCurrentSlot(ReadCurrentSlot),
    /// Waits for the name of the fork at the current slot.
    ReadFork(ReadFork),
    /// Waits for the clock's distance to the next epoch.
    ReadDurationToNextEpoch(ReadDurationToNextEpoch),
    /// Sleeps; this round then ends without a slot.
    SleepWithoutSlot(SleepWithoutSlot),
    /// Sleeps until the next slot starts.
    SleepToNextSlot(SleepToNextSlot),
    /// Waits for the clock's current slot after the sleep.
    ReadStartedSlot(ReadStartedSlot),
    /// Over.
    Done(Option<Slot>),
}

/// The clock is to be asked how far the next slot is.
pub struct ReadDurationToNextSlot {
    pub chain_spec: ChainSpec,
}

/// The clock is to be asked for the current slot.
pub struct ReadCurrentSlot {
    pub chain_spec: ChainSpec,
    pub duration_to_next_slot: Duration,
}

/// The fork at `current_slot` is to be looked up.
pub struct ReadFork {
    pub chain_spec: ChainSpec,
    pub duration_to_next_slot: Duration,
    pub current_slot: Slot,
}

/// The clock is to be asked how far the next epoch is.
pub struct ReadDurationToNextEpoch {
    pub chain_spec: ChainSpec,
}

/// `duration` is to be slept.
pub struct SleepWithoutSlot {
    pub duration: Duration,
}

/// `duration` is to be slept.
pub struct SleepToNextSlot {
    pub duration: Duration,
}

/// The clock is to be asked for the slot that has started.
pub struct ReadStartedSlot {}

impl ReadDurationToNextSlot {
    /// What follows the clock's answer: without one, a slot's time is slept.
    pub open spec fn next(self, reply: Option<Duration>) -> WaitToNextSlot {
        match reply {
            None => WaitToNextSlot::SleepWithoutSlot(
                SleepWithoutSlot { duration: self.chain_spec.slot_duration },
            ),
            Some(duration_to_next_slot) => WaitToNextSlot::ReadCurrentSlot(
                ReadCurrentSlot { chain_spec: self.chain_spec, duration_to_next_slot },
            ),
        }
    }

    /// Takes the clock's distance to the next slot, `None` where the clock
    /// cannot be read.
    pub fn resume(self, reply: Option<Duration>) -> (task: WaitToNextSlot)
        ensures
            task == self.next(reply),
            reply is None ==> task == WaitToNextSlot::SleepWithoutSlot(
                SleepWithoutSlot { duration: self.chain_spec.slot_duration },
            ),
            reply matches Some(distance) ==> task == WaitToNextSlot::ReadCurrentSlot(
                ReadCurrentSlot { chain_spec: self.chain_spec, duration_to_next_slot: distance },
            ),
    {
        match reply {
            None => WaitToNextSlot::SleepWithoutSlot(
                SleepWithoutSlot { duration: self.chain_spec.slot_duration },
            ),
            Some(duration_to_next_slot) => WaitToNextSlot::ReadCurrentSlot(
                ReadCurrentSlot { chain_spec: self.chain_spec, duration_to_next_slot },
            ),
        }
    }
}

impl ReadCurrentSlot {
    /// What follows the clock's answer: without one, the round is over.
    pub open spec fn next(self, reply: Option<Slot>) -> WaitToNextSlot {
        match reply {
            None => WaitToNextSlot::Done(None),
            Some(current_slot) => WaitToNextSlot::ReadFork(
                ReadFork {
                    chain_spec: self.chain_spec,
                    duration_to_next_slot: self.duration_to_next_slot,
                    current_slot,
                },
            ),
        }
    }

    /// Takes the clock's current slot, `None` where the clock cannot be read.
    pub fn resume(self, reply: Option<Slot>) -> (task: WaitToNextSlot)
        ensures
            task == self.next(reply),
            reply is None ==> task == WaitToNextSlot::Done(None),
            reply matches Some(shown) ==> task == WaitToNextSlot::ReadFork(
                ReadFork {
                    chain_spec: self.chain_spec,
                    duration_to_next_slot: self.duration_to_next_slot,
                    current_slot: shown,
                },
            ),
    {
        match reply {
            None => WaitToNextSlot::Done(None),
            Some(current_slot) => WaitToNextSlot::ReadFork(
                ReadFork {
                    chain_spec: self.chain_spec,
                    duration_to_next_slot: self.duration_to_next_slot,
                    current_slot,
                },
            ),
        }
    }
}

impl ReadFork {
    /// What follows the fork's name: from Heze on the next slot is waited for,
    /// before it the next epoch.
    pub open spec fn next(self, fork_name: ForkName) -> WaitToNextSlot {
        if fork_name is Heze {
            WaitToNextSlot::SleepToNextSlot(
                SleepToNextSlot { duration: self.duration_to_next_slot },
            )
        } else {
            WaitToNextSlot::ReadDurationToNextEpoch(
                ReadDurationToNextEpoch { chain_spec: self.chain_spec },
            )
        }
    }

    /// Takes the name of the fork at `current_slot`.
    pub fn resume(self, fork_name: ForkName) -> (task: WaitToNextSlot)
        ensures
            task == self.next(fork_name),
            fork_name is Heze ==> task == WaitToNextSlot::SleepToNextSlot(
                SleepToNextSlot { duration: self.duration_to_next_slot },
            ),
            !(fork_name is Heze) ==> task == WaitToNextSlot::ReadDurationToNextEpoch(
                ReadDurationToNextEpoch { chain_spec: self.chain_spec },
            ),
    {
        if fork_name.heze_enabled() {
            WaitToNextSlot::SleepToNextSlot(
                SleepToNextSlot { duration: self.duration_to_next_slot },
            )
        } else {
            WaitToNextSlot::ReadDurationToNextEpoch(
                ReadDurationToNextEpoch { chain_spec: self.chain_spec },
            )
        }
    }
}

impl ReadDurationToNextEpoch {
    /// What follows the clock's answer: the time to the next epoch is slept, or,
    /// without an answer, the time that a whole epoch takes.
    pub open spec fn next(self, reply: Option<Duration>) -> WaitToNextSlot {
        WaitToNextSlot::SleepWithoutSlot(
            SleepWithoutSlot {
                duration: match reply {
                    Some(duration) => duration,
                    None => self.chain_spec.spec_epoch_duration(),
                },
            },
        )
    }

    /// Takes the clock's distance to the next epoch, `None` where the clock
    /// cannot be read.
    pub fn resume(self, reply: Option<Duration>) -> (task: WaitToNextSlot)
        requires
            reply is None ==> self.chain_spec.has_epoch_duration(),
        ensures
            task == self.next(reply),
            task is SleepWithoutSlot,
            reply matches Some(distance) ==> task->SleepWithoutSlot_0.duration == distance,
            reply is None ==> task->SleepWithoutSlot_0.duration@ == self.chain_spec.slot_duration@
                * (self.chain_spec.slots_per_epoch % 0x1_0000_0000),
    {
        let duration = match reply {
            Some(duration) => duration,
            None => self.chain_spec.epoch_duration(),
        };
        WaitToNextSlot::SleepWithoutSlot(SleepWithoutSlot { duration })
    }
}

impl SleepWithoutSlot {
    /// What follows the sleep.
    pub open spec fn next(self) -> WaitToNextSlot {
        WaitToNextSlot::Done(None)
    }

    /// The sleep is over.
    pub fn resume(self) -> (task: WaitToNextSlot)
        ensures
            task == self.next(),
            task == WaitToNextSlot::Done(None),
    {
        WaitToNextSlot::Done(None)
    }
}

impl SleepToNextSlot {
    /// What follows the sleep: the clock is read again.
    pub open spec fn next(self) -> WaitToNextSlot {
        WaitToNextSlot::ReadStartedSlot(ReadStartedSlot {  })
    }

    /// The sleep is over.
    pub fn resume(self) -> (task: WaitToNextSlot)
        ensures
            task == self.next(),
            task is ReadStartedSlot,
    {
        WaitToNextSlot::ReadStartedSlot(ReadStartedSlot {  })
    }
}

impl ReadStartedSlot {
    /// What follows the clock's answer: it is the wait's outcome.
    pub open spec fn next(self, reply: Option<Slot>) -> WaitToNextSlot {
        WaitToNextSlot::Done(reply)
    }

    /// Takes the clock's current slot, `None` where the clock cannot be read.
    pub fn resume(self, reply: Option<Slot>) -> (task: WaitToNextSlot)
        ensures
            task == self.next(reply),
            task == WaitToNextSlot::Done(reply),
    {
        WaitToNextSlot::Done(reply)
    }
}

} // verus!
