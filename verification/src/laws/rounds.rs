//! Whole runs of the wait, of the production and of a round.

use vstd::prelude::*;

use crate::chain_spec::{epoch_is_slots_long, ChainSpec};
use crate::duration::{Duration, MAX_NANOS};
use crate::inclusion_list_service::InclusionListService;
use crate::laws::signing::{after_replies, every_duty_is_signed_for};
use crate::produce::{LookUpDuties, ProduceInclusionListData};
use crate::sign_and_publish::{first_position, SignAndPublishView};
use crate::tasks::{AwaitSlot, InclusionListTasks, Producer};
use crate::types::{
    transaction_bytes, DependentRoot, ForkName, InclusionListData, InclusionListDuty,
    InclusionListTransactions, InclusionListView, SignedInclusionList, Slot,
};
use crate::wait::{ReadDurationToNextSlot, WaitToNextSlot};

verus! {

/// What the clock and the fork schedule say. The clock's word depends on the
/// sleeps taken before it is asked and, of the next epoch, on the number of
/// slots in an epoch that it is asked for. The schedule names the fork of the
/// slot that it is asked for.
pub struct ClockReplies {
    pub to_next_slot: spec_fn(Seq<Duration>) -> Option<Duration>,
    pub now: spec_fn(Seq<Duration>) -> Option<Slot>,
    pub fork_at: spec_fn(Slot) -> ForkName,
    pub to_next_epoch: spec_fn(Seq<Duration>, u64) -> Option<Duration>,
}

/// The most steps that a wait still takes.
pub open spec fn steps_left(task: WaitToNextSlot) -> nat {
    match task {
        WaitToNextSlot::ReadDurationToNextSlot(_) => 5,
        WaitToNextSlot::ReadCurrentSlot(_) => 4,
        WaitToNextSlot::ReadFork(_) => 3,
        WaitToNextSlot::ReadDurationToNextEpoch(_) => 2,
        WaitToNextSlot::SleepToNextSlot(_) => 2,
        WaitToNextSlot::SleepWithoutSlot(_) => 1,
        WaitToNextSlot::ReadStartedSlot(_) => 1,
        WaitToNextSlot::Done(_) => 0,
    }
}

/// All sleeps of a wait, in order, and its outcome; `slept` are the sleeps
/// that it took already.
pub open spec fn wait_run(
    task: WaitToNextSlot,
    replies: ClockReplies,
    slept: Seq<Duration>,
) -> (Seq<Duration>, Option<Slot>)
    decreases steps_left(task),
{
    match task {
        WaitToNextSlot::ReadDurationToNextSlot(read) => wait_run(
            read.next((replies.to_next_slot)(slept)),
            replies,
            slept,
        ),
        WaitToNextSlot::ReadCurrentSlot(read) => wait_run(
            read.next((replies.now)(slept)),
            replies,
            slept,
        ),
        WaitToNextSlot::ReadFork(read) => wait_run(
            read.next((replies.fork_at)(read.current_slot)),
            replies,
            slept,
        ),
        WaitToNextSlot::ReadDurationToNextEpoch(read) => wait_run(
            read.next((replies.to_next_epoch)(slept, read.chain_spec.slots_per_epoch)),
            replies,
            slept,
        ),
        WaitToNextSlot::SleepWithoutSlot(sleep) => wait_run(
            sleep.next(),
            replies,
            slept.push(sleep.duration),
        ),
        WaitToNextSlot::SleepToNextSlot(sleep) => wait_run(
            sleep.next(),
            replies,
            slept.push(sleep.duration),
        ),
        WaitToNextSlot::ReadStartedSlot(read) => wait_run(
            read.next((replies.now)(slept)),
            replies,
            slept,
        ),
        WaitToNextSlot::Done(slot) => (slept, slot),
    }
}

/// The wait for the next slot of a service for this chain.
pub open spec fn first_wait(chain_spec: ChainSpec) -> WaitToNextSlot {
    WaitToNextSlot::ReadDurationToNextSlot(ReadDurationToNextSlot { chain_spec })
}

/// Whether a wait can be taken to its end: where it has to fall back on a
/// whole epoch's time, that time is a span.
pub open spec fn wait_can_end(chain_spec: ChainSpec, replies: ClockReplies) -> bool {
    (replies.to_next_slot)(Seq::empty()) is Some && ((replies.now)(Seq::empty()) matches Some(
        current,
    ) && !((replies.fork_at)(current) is Heze)) && (replies.to_next_epoch)(
        Seq::empty(),
        chain_spec.slots_per_epoch,
    ) is None ==> chain_spec.slot_duration@ * (chain_spec.slots_per_epoch % 0x1_0000_0000)
        <= MAX_NANOS
}

/// How a wait goes. With a clock that does not know the next slot, a slot's
/// time is slept; with one that does not know the current slot, nothing is.
/// Where the schedule has a fork before Heze for the current slot, the time to
/// the next epoch is slept, for epochs of the chain's own length, or that many
/// slots' time where the clock does not know it. In none of these cases is
/// there a slot. From Heze on the time to the next slot is slept, and the
/// outcome is the slot that the clock shows after that sleep.
pub proof fn wait_outcome(chain_spec: ChainSpec, replies: ClockReplies)
    requires
        wait_can_end(chain_spec, replies),
    ensures
        ({
            let awake = Seq::<Duration>::empty();
            let (slept, slot) = wait_run(first_wait(chain_spec), replies, awake);
            match (replies.to_next_slot)(awake) {
                None => slept == seq![chain_spec.slot_duration] && slot is None,
                Some(to_next_slot) => match (replies.now)(awake) {
                    None => slept == awake && slot is None,
                    Some(current) => if (replies.fork_at)(current) is Heze {
                        slept == seq![to_next_slot] && slot == (replies.now)(seq![to_next_slot])
                    } else {
                        &&& slot is None
                        &&& slept.len() == 1
                        &&& match (replies.to_next_epoch)(awake, chain_spec.slots_per_epoch) {
                            Some(to_next_epoch) => slept[0] == to_next_epoch,
                            None => slept[0]@ == chain_spec.slot_duration@ * (
                            chain_spec.slots_per_epoch % 0x1_0000_0000),
                        }
                    },
                },
            }
        }),
{
    reveal_with_fuel(wait_run, 7);
    epoch_is_slots_long(chain_spec);
}

/// What the duties store holds for the slot that it is asked for.
pub type DutiesAt = spec_fn(Slot) -> Option<(DependentRoot, Vec<InclusionListDuty>)>;

/// What the beacon nodes answer for the slot that they are asked for.
pub type TransactionsAt = spec_fn(Slot) -> Result<InclusionListTransactions, String>;

/// The outcome of a production whose questions would be answered by `found`
/// and `fetched`, each for the slot that the question is about.
pub open spec fn produce_run(
    task: ProduceInclusionListData,
    found: DutiesAt,
    fetched: TransactionsAt,
) -> Result<Option<(Vec<InclusionListDuty>, InclusionListData)>, String>
    decreases
            (match task {
                ProduceInclusionListData::LookUpDuties(_) => 2nat,
                ProduceInclusionListData::FetchTransactions(_) => 1nat,
                ProduceInclusionListData::Done(_) => 0nat,
            }),
{
    match task {
        ProduceInclusionListData::LookUpDuties(look_up) => produce_run(
            look_up.next(found(look_up.slot)),
            found,
            fetched,
        ),
        ProduceInclusionListData::FetchTransactions(fetch) => produce_run(
            fetch.next(fetched(fetch.slot)),
            found,
            fetched,
        ),
        ProduceInclusionListData::Done(outcome) => outcome,
    }
}

/// Whether a local validator has a duty.
pub open spec fn has_duty(found: Option<(DependentRoot, Vec<InclusionListDuty>)>) -> bool {
    found matches Some((_, duties)) && duties@.len() > 0
}

/// The beacon nodes are asked for transactions only where a local validator has
/// a duty at the slot, and then for that slot.
pub proof fn no_fetch_without_duty(
    look_up: LookUpDuties,
    found: Option<(DependentRoot, Vec<InclusionListDuty>)>,
)
    ensures
        look_up.next(found) is FetchTransactions <==> has_duty(found),
        look_up.next(found) matches ProduceInclusionListData::FetchTransactions(fetch) ==> fetch.slot
            == look_up.slot,
{
}

/// How a production ends: with `Ok(None)` where no local validator has a duty
/// at the slot, with the failure where the fetch for the slot failed, else with
/// the duties as they were found for the slot, their root and the transactions
/// as they were fetched for it.
pub proof fn production_outcome(
    slot: Slot,
    found: DutiesAt,
    fetched: TransactionsAt,
)
    ensures
        produce_run(
            ProduceInclusionListData::LookUpDuties(LookUpDuties { slot }),
            found,
            fetched,
        ) == (if !has_duty(found(slot)) {
            Ok(None)
        } else {
            match fetched(slot) {
                Err(e) => Err(e),
                Ok(transactions) => Ok(
                    Some(
                        (
                            found(slot).unwrap().1,
                            InclusionListData { dependent_root: found(slot).unwrap().0, transactions },
                        ),
                    ),
                ),
            }
        }),
{
    reveal_with_fuel(produce_run, 3);
}

/// Where a round ends, or hands on to a task of its own.
pub open spec fn round_run(
    service: InclusionListService,
    clock: ClockReplies,
    found: DutiesAt,
    fetched: TransactionsAt,
) -> InclusionListTasks {
    match (AwaitSlot { service }).next(
        wait_run(first_wait(service@.chain_spec), clock, Seq::empty()).1,
    ) {
        InclusionListTasks::ProduceData(await_data) => await_data.next(
            produce_run(
                ProduceInclusionListData::LookUpDuties(LookUpDuties { slot: await_data.slot }),
                found,
                fetched,
            ),
        ),
        other => other,
    }
}

/// The slot that a round produces for, if any: the one that the clock shows
/// after the sleep to the next slot.
pub open spec fn slot_to_produce(clock: ClockReplies) -> Option<Slot> {
    match ((clock.to_next_slot)(Seq::empty()), (clock.now)(Seq::empty())) {
        (Some(to_next_slot), Some(current)) => if (clock.fork_at)(current) is Heze {
            (clock.now)(seq![to_next_slot])
        } else {
            None
        },
        _ => None,
    }
}

/// How a round goes. Signing and publishing are handed on, for the slot that
/// has started and with the duties and the data found for it, where there is a
/// slot, a duty and an answer of the beacon nodes. A failed fetch ends the round
/// as a failure; all else ends it well.
pub proof fn round_outcome(
    service: InclusionListService,
    clock: ClockReplies,
    found: DutiesAt,
    fetched: TransactionsAt,
)
    requires
        wait_can_end(service@.chain_spec, clock),
    ensures
        round_run(service, clock, found, fetched) == (match slot_to_produce(clock) {
            None => InclusionListTasks::Done(Ok(())),
            Some(slot) => if !has_duty(found(slot)) {
                InclusionListTasks::Done(Ok(()))
            } else {
                match fetched(slot) {
                    Err(e) => InclusionListTasks::Done(Err(e)),
                    Ok(transactions) => InclusionListTasks::SpawnProducer(
                        Producer {
                            service,
                            slot,
                            duties: found(slot).unwrap().1,
                            data: InclusionListData {
                                dependent_root: found(slot).unwrap().0,
                                transactions,
                            },
                        },
                    ),
                }
            },
        }),
{
    wait_outcome(service@.chain_spec, clock);
    if let Some(slot) = slot_to_produce(clock) {
        production_outcome(slot, found, fetched);
    }
}

/// After a wait that yields a slot, the data of that very slot are produced, and
/// what is handed on is for that slot too, whatever the production found; a
/// wait without a slot ends the round well.
pub proof fn a_round_keeps_its_slot(
    round: AwaitSlot,
    waited: Option<Slot>,
    produced: Result<Option<(Vec<InclusionListDuty>, InclusionListData)>, String>,
)
    ensures
        waited is None ==> round.next(waited) == InclusionListTasks::Done(Ok(())),
        waited matches Some(slot) ==> {
            &&& round.next(waited) matches InclusionListTasks::ProduceData(await_data)
            &&& await_data.slot == slot
            &&& await_data.service == round.service
            &&& match produced {
                Ok(Some((duties, data))) => {
                    &&& await_data.next(produced) matches InclusionListTasks::SpawnProducer(
                        producer,
                    )
                    &&& producer.slot == slot
                    &&& producer.service == round.service
                    &&& producer.duties == duties
                    &&& producer.data == data
                },
                Ok(None) => await_data.next(produced) == InclusionListTasks::Done(Ok(())),
                Err(e) => await_data.next(produced) == InclusionListTasks::Done(Err(e)),
            }
        },
{
}

/// Where the clock shows a slot, the schedule is asked for the fork of that very
/// slot, and before Heze the clock is asked for the next epoch of the service's
/// own chain.
pub proof fn a_wait_asks_for_what_it_was_told(
    read: ReadDurationToNextSlot,
    to_next_slot: Duration,
    current: Slot,
    fork_name: ForkName,
)
    ensures
        read.next(Some(to_next_slot)) matches WaitToNextSlot::ReadCurrentSlot(read_current)
            && read_current.next(Some(current)) matches WaitToNextSlot::ReadFork(read_fork) && {
            &&& read_fork.current_slot == current
            &&& fork_name is Heze <==> read_fork.next(fork_name) is SleepToNextSlot
            &&& read_fork.next(fork_name) matches WaitToNextSlot::SleepToNextSlot(sleep)
                ==> sleep.duration == to_next_slot
            &&& !(fork_name is Heze) <==> read_fork.next(fork_name) is ReadDurationToNextEpoch
            &&& read_fork.next(fork_name) matches WaitToNextSlot::ReadDurationToNextEpoch(
                read_epoch,
            ) ==> read_epoch.chain_spec == read.chain_spec
        },
{
}

/// Before Heze a round ends well and without a word to anyone but the clock and
/// the schedule, whatever duties there are.
pub proof fn nothing_is_produced_before_heze(service: InclusionListService, clock: ClockReplies)
    requires
        wait_can_end(service@.chain_spec, clock),
        (clock.now)(Seq::empty()) matches Some(current) ==> !((clock.fork_at)(current) is Heze),
    ensures
        (AwaitSlot { service }).next(
            wait_run(first_wait(service@.chain_spec), clock, Seq::empty()).1,
        ) == InclusionListTasks::Done(Ok(())),
{
    wait_outcome(service@.chain_spec, clock);
}

/// What a round has signed: one list per duty found for the slot that has
/// started, in order, with that duty's key and validator index, the duties' root
/// and the transactions fetched for that slot, whatever the key store's answers
/// for the duties before it were.
pub proof fn a_round_signs_what_was_found(
    service: InclusionListService,
    clock: ClockReplies,
    found: DutiesAt,
    fetched: TransactionsAt,
    slot: Slot,
    replies: Seq<Option<SignedInclusionList>>,
)
    requires
        slot_to_produce(clock) == Some(slot),
        found(slot) is Some,
        fetched(slot) is Ok,
        replies.len() < found(slot).unwrap().1@.len(),
    ensures
        round_run(service, clock, found, fetched) matches InclusionListTasks::SpawnProducer(
            producer,
        ) && after_replies(
            first_position(producer.slot, producer.duties@, producer.data),
            replies,
        ) matches SignAndPublishView::Sign(signing) && signing.request() == (
            found(slot).unwrap().1@[replies.len() as int].pubkey,
            InclusionListView {
                slot,
                validator_index: found(slot).unwrap().1@[replies.len() as int].validator_index,
                dependent_root: found(slot).unwrap().0,
                transactions: transaction_bytes(fetched(slot).unwrap().transactions@),
            },
        ),
{
    round_outcome(service, clock, found, fetched);
    every_duty_is_signed_for(
        slot,
        found(slot).unwrap().1@,
        InclusionListData {
            dependent_root: found(slot).unwrap().0,
            transactions: fetched(slot).unwrap(),
        },
        replies,
    );
}

} // verus!
