//! One round of the service, and the endless sequence of rounds.

use vstd::prelude::*;

use crate::inclusion_list_service::InclusionListService;
use crate::produce::{LookUpDuties, ProduceInclusionListData};
use crate::sign_and_publish::{SignAndPublish, SigningView};
use crate::types::{InclusionListData, InclusionListDuty, Slot};
use crate::wait::{ReadDurationToNextSlot, WaitToNextSlot};

verus! {

/// One round of a service: wait for a slot, produce its data, hand it to a task
/// of its own that signs and publishes. Each state holds the service whose round
/// it is.
pub enum InclusionListTasks {
    /// Waits for the end of the wait for the next slot.
    WaitToNextSlot(AwaitSlot),
    /// Waits for the slot's data.
    ProduceData(AwaitData),
    /// A task that signs and publishes is to be spawned.
    SpawnProducer(Producer),
    /// The round is over.
    Done(Result<(), String>),
}

/// The next slot is to be waited for.
pub struct AwaitSlot {
    pub service: InclusionListService,
}

/// The data for `slot` are to be produced.
pub struct AwaitData {
    pub service: InclusionListService,
    pub slot: Slot,
}

/// The lists for `duties` at `slot` are to be signed and published.
pub struct Producer {
    pub service: InclusionListService,
    pub slot: Slot,
    pub duties: Vec<InclusionListDuty>,
    pub data: InclusionListData,
}

/// A task to hand to the executor, and the name to hand it over under.
pub struct Spawn<T> {
    pub name: &'static str,
    pub task: T,
}

impl AwaitSlot {
    /// What follows the wait: without a slot, the round is over.
    pub open spec fn next(self, waited: Option<Slot>) -> InclusionListTasks {
        match waited {
            None => InclusionListTasks::Done(Ok(())),
            Some(slot) => InclusionListTasks::ProduceData(
                AwaitData { service: self.service, slot },
            ),
        }
    }

    /// The wait to run: the service's own.
    pub fn task(&self) -> (task: WaitToNextSlot)
        ensures
            task == WaitToNextSlot::ReadDurationToNextSlot(
                ReadDurationToNextSlot { chain_spec: self.service@.chain_spec },
            ),
    {
        self.service.wait_to_next_slot()
    }

    /// Takes the outcome of the wait for the next slot.
    pub fn resume(self, waited: Option<Slot>) -> (tasks: InclusionListTasks)
        ensures
            tasks == self.next(waited),
            waited is None ==> tasks == InclusionListTasks::Done(Ok(())),
            waited matches Some(started) ==> tasks == InclusionListTasks::ProduceData(
                AwaitData { service: self.service, slot: started },
            ),
    {
        match waited {
            None => InclusionListTasks::Done(Ok(())),
            Some(slot) => InclusionListTasks::ProduceData(
                AwaitData { service: self.service, slot },
            ),
        }
    }
}

impl AwaitData {
    /// What follows the production: a failure ends the round as a failure,
    /// nothing to produce ends it well, and anything else is handed on.
    pub open spec fn next(
        self,
        produced: Result<Option<(Vec<InclusionListDuty>, InclusionListData)>, String>,
    ) -> InclusionListTasks {
        match produced {
            Err(e) => InclusionListTasks::Done(Err(e)),
            Ok(None) => InclusionListTasks::Done(Ok(())),
            Ok(Some((duties, data))) => InclusionListTasks::SpawnProducer(
                Producer { service: self.service, slot: self.slot, duties, data },
            ),
        }
    }

    /// The production to run.
    pub fn task(&self) -> (task: ProduceInclusionListData)
        ensures
            task == ProduceInclusionListData::LookUpDuties(LookUpDuties { slot: self.slot }),
    {
        self.service.produce_inclusion_list_duties_data(self.slot)
    }

    /// Takes the outcome of the production for the slot.
    pub fn resume(
        self,
        produced: Result<Option<(Vec<InclusionListDuty>, InclusionListData)>, String>,
    ) -> (tasks: InclusionListTasks)
        ensures
            tasks == self.next(produced),
            produced matches Err(e) ==> tasks == InclusionListTasks::Done(Err(e)),
            produced matches Ok(None) ==> tasks == InclusionListTasks::Done(Ok(())),
            produced matches Ok(Some((duties, data))) ==> tasks
                == InclusionListTasks::SpawnProducer(
                Producer { service: self.service, slot: self.slot, duties, data },
            ),
    {
        match produced {
            Err(e) => InclusionListTasks::Done(Err(e)),
            Ok(None) => InclusionListTasks::Done(Ok(())),
            Ok(Some((duties, data))) => InclusionListTasks::SpawnProducer(
                Producer { service: self.service, slot: self.slot, duties, data },
            ),
        }
    }
}

impl Producer {
    /// The task to spawn, and the end of the round, which does not wait for it.
    pub fn spawn(self) -> (split: (Spawn<SignAndPublish>, InclusionListTasks))
        ensures
            split.0.name@ == "inclusion_list_producer"@,
            split.0.task@ == crate::sign_and_publish::first_position(
                self.slot,
                self.duties@,
                self.data,
            ),
            self.duties@.len() == 0 ==> split.0.task == SignAndPublish::Done(Ok(())),
            self.duties@.len() > 0 ==> split.0.task is Sign && split.0.task->Sign_0@ == (
            SigningView {
                slot: self.slot,
                duties: self.duties@,
                data: self.data,
                next: 0,
                signed: Seq::empty(),
            }),
            split.1 == InclusionListTasks::Done(Ok(())),
    {
        let task = self.service.sign_and_publish(self.slot, self.duties, self.data);
        (Spawn { name: "inclusion_list_producer", task }, InclusionListTasks::Done(Ok(())))
    }
}

/// The endless sequence of rounds.
pub struct UpdateService {
    pub service: InclusionListService,
}

impl UpdateService {
    /// The next round: one of this service.
    pub fn round(&self) -> (tasks: InclusionListTasks)
        ensures
            tasks == InclusionListTasks::WaitToNextSlot(AwaitSlot { service: self.service }),
    {
        self.service.spawn_inclusion_list_tasks()
    }

    /// Takes the outcome of a round. A failed round does not stop the service.
    pub fn resume(self, outcome: Result<(), String>) -> (service: UpdateService)
        ensures
            service == self,
    {
        self
    }
}

} // verus!
