//! The service of a validator client that produces its inclusion lists.

use std::sync::Arc;

use vstd::prelude::*;

use crate::chain_spec::ChainSpec;
use crate::produce::{LookUpDuties, ProduceInclusionListData};
use crate::publish::{PostSsz, PublishInclusionList};
use crate::sign_and_publish::{SignAndPublish, SigningView};
use crate::tasks::{AwaitSlot, InclusionListTasks, Spawn, UpdateService};
use crate::types::{ForkName, InclusionListData, InclusionListDuty, SignedInclusionList, Slot};
use crate::wait::{ReadDurationToNextSlot, WaitToNextSlot};

verus! {

/// What the service's decisions rest on.
#[derive(Clone, Copy, Debug, PartialEq, Eq)]
pub struct Inner {
    pub chain_spec: ChainSpec,
}

/// The service of a validator client that produces its inclusion lists. Its
/// tasks are values that name the outside call they wait for; see the modules
/// of the types that the methods return.
#[derive(Debug)]
pub struct InclusionListService {
    inner: Arc<Inner>,
}

/// A service is seen as what its decisions rest on.
impl View for InclusionListService {
    type V = Inner;

    closed spec fn view(&self) -> Inner {
        *self.inner
    }
}

/// A copy shares what the service rests on.
impl Clone for InclusionListService {
    fn clone(&self) -> (copy: Self)
        ensures
            copy == *self,
    {
        InclusionListService { inner: self.inner.clone() }
    }
}

impl std::ops::Deref for InclusionListService {
    type Target = Inner;

    fn deref(&self) -> (inner: &Inner)
        ensures
            *inner == self@,
    {
        &self.inner
    }
}

impl InclusionListService {
    /// A service for the chain with these constants.
    pub fn new(chain_spec: ChainSpec) -> (service: Self)
        ensures
            service@ == (Inner { chain_spec }),
    {
        InclusionListService { inner: Arc::new(Inner { chain_spec }) }
    }

    /// Starts the endless sequence of rounds, as a task of its own.
    pub fn start_update_service(self) -> (started: Result<Spawn<UpdateService>, String>)
        ensures
            started is Ok,
            started->Ok_0.name@ == "inclusion_list_service"@,
            started->Ok_0.task == (UpdateService { service: self }),
    {
        Ok(Spawn { name: "inclusion_list_service", task: UpdateService { service: self } })
    }

    /// One round of this service: a slot is waited for first.
    pub fn spawn_inclusion_list_tasks(&self) -> (tasks: InclusionListTasks)
        ensures
            tasks == InclusionListTasks::WaitToNextSlot(AwaitSlot { service: *self }),
    {
        InclusionListTasks::WaitToNextSlot(AwaitSlot { service: self.clone() })
    }

    /// The wait for the next slot: the clock is asked how far it is.
    pub fn wait_to_next_slot(&self) -> (task: WaitToNextSlot)
        ensures
            task == WaitToNextSlot::ReadDurationToNextSlot(
                ReadDurationToNextSlot { chain_spec: self@.chain_spec },
            ),
    {
        WaitToNextSlot::ReadDurationToNextSlot(
            ReadDurationToNextSlot { chain_spec: self.inner.chain_spec },
        )
    }

    /// The production of the inclusion list data for `slot`: the duties are
    /// looked up.
    pub fn produce_inclusion_list_duties_data(&self, slot: Slot) -> (task: ProduceInclusionListData)
        ensures
            task == ProduceInclusionListData::LookUpDuties(LookUpDuties { slot }),
    {
        ProduceInclusionListData::LookUpDuties(LookUpDuties { slot })
    }

    /// The signing and publishing of the lists for `duties` at `slot`: the first
    /// duty is to be signed for.
    pub fn sign_and_publish(
        &self,
        slot: Slot,
        duties: Vec<InclusionListDuty>,
        inclusion_list_data: InclusionListData,
    ) -> (task: SignAndPublish)
        ensures
            task@ == crate::sign_and_publish::first_position(slot, duties@, inclusion_list_data),
            duties@.len() == 0 ==> task == SignAndPublish::Done(Ok(())),
            duties@.len() > 0 ==> task is Sign && task->Sign_0@ == (SigningView {
                slot,
                duties: duties@,
                data: inclusion_list_data,
                next: 0,
                signed: Seq::empty(),
            }),
    {
        SignAndPublish::new(slot, duties, inclusion_list_data)
    }

    /// The publication of one signed list: it is posted as SSZ.
    pub fn publish_inclusion_list<'a>(
        &self,
        signed_il: &'a SignedInclusionList,
        fork_name: ForkName,
    ) -> (task: PublishInclusionList<'a>)
        ensures
            task == PublishInclusionList::PostSsz(PostSsz { signed_il, fork_name }),
    {
        PublishInclusionList::PostSsz(PostSsz { signed_il, fork_name })
    }
}

} // verus!
