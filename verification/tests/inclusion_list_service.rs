//! The service against a manual clock, an in-memory key store and two scripted
//! beacon nodes.

use std::collections::HashMap;

use inclusion_list::chain_spec::ChainSpec;
use inclusion_list::duration::Duration;
use inclusion_list::inclusion_list_service::InclusionListService;
use inclusion_list::produce::ProduceInclusionListData;
use inclusion_list::publish::{Encoding, PublishInclusionList};
use inclusion_list::sign_and_publish::SignAndPublish;
use inclusion_list::tasks::InclusionListTasks;
use inclusion_list::types::{
    ForkName, Hash256, InclusionList, InclusionListData, InclusionListDuty,
    InclusionListTransactions, PublicKeyBytes, Signature, SignedInclusionList, Slot,
};
use inclusion_list::wait::WaitToNextSlot;

const SECONDS_PER_SLOT: u64 = 12;
const SLOTS_PER_EPOCH: u64 = 32;

/// One route of a beacon node: scripted answers first, then the same answer for
/// good. Without a lasting answer the route does not exist.
#[derive(Default)]
struct Route {
    script: Vec<bool>,
    lasting: Option<bool>,
    hits: usize,
}

impl Route {
    fn lasting(accepts: bool) -> Self {
        Route {
            script: vec![],
            lasting: Some(accepts),
            hits: 0,
        }
    }

    fn answer(&mut self) -> bool {
        if self.hits < self.script.len() {
            self.hits += 1;
            return self.script[self.hits - 1];
        }
        match self.lasting {
            Some(accepts) => {
                self.hits += 1;
                accepts
            }
            None => false,
        }
    }
}

#[derive(Default)]
struct BeaconNode {
    get: Route,
    get_slot: Option<Slot>,
    transactions: Vec<Vec<u8>>,
    ssz: Route,
    json: Route,
    received: Vec<(SignedInclusionList, ForkName)>,
}

struct TestHarness {
    service: InclusionListService,
    heze_fork_epoch: u64,
    now_secs: u64,
    sleeps: Vec<Duration>,
    pubkeys: Vec<PublicKeyBytes>,
    il_duties: HashMap<u64, (Hash256, Vec<InclusionListDuty>)>,
    lookups: usize,
    nodes: [BeaconNode; 2],
}

type Produced = Result<Option<(Vec<InclusionListDuty>, InclusionListData)>, String>;

fn pubkey(index: u8) -> PublicKeyBytes {
    PublicKeyBytes([index; 48])
}

fn root(byte: u8) -> Hash256 {
    Hash256([byte; 32])
}

impl TestHarness {
    fn new_with_validators(num_validators: u8) -> Self {
        Self::new_with_heze_at(num_validators, 0)
    }

    fn new_with_heze_at(num_validators: u8, heze_fork_epoch: u64) -> Self {
        TestHarness {
            service: InclusionListService::new(ChainSpec {
                slot_duration: Duration::from_secs(SECONDS_PER_SLOT),
                slots_per_epoch: SLOTS_PER_EPOCH,
            }),
            heze_fork_epoch,
            now_secs: 0,
            sleeps: vec![],
            pubkeys: (0..num_validators).map(pubkey).collect(),
            il_duties: HashMap::new(),
            lookups: 0,
            nodes: Default::default(),
        }
    }

    fn insert_il_duties(&mut self, slot: Slot, dependent_root: Hash256) {
        let duties = self
            .pubkeys
            .iter()
            .enumerate()
            .map(|(i, pubkey)| InclusionListDuty {
                pubkey: *pubkey,
                validator_index: i as u64,
                slot,
                inclusion_list_committee_root: root(0),
            })
            .collect();
        self.il_duties
            .insert(slot.0 / SLOTS_PER_EPOCH, (dependent_root, duties));
    }

    /// The node serves the transactions for `slot`, and for no other.
    fn serve_transactions(
        &mut self,
        node: usize,
        transactions: &InclusionListTransactions,
        slot: Slot,
    ) {
        self.nodes[node].get = Route::lasting(true);
        self.nodes[node].get_slot = Some(slot);
        self.nodes[node].transactions = transactions.transactions.clone();
    }

    fn now(&self) -> Slot {
        Slot(self.now_secs / SECONDS_PER_SLOT)
    }

    fn duration_to_next_slot(&self) -> Duration {
        Duration::from_secs(SECONDS_PER_SLOT - self.now_secs % SECONDS_PER_SLOT)
    }

    fn duration_to_next_epoch(&self) -> Duration {
        let epoch_secs = SECONDS_PER_SLOT * SLOTS_PER_EPOCH;
        Duration::from_secs(epoch_secs - self.now_secs % epoch_secs)
    }

    fn fork_name_at_slot(&self, slot: Slot) -> ForkName {
        if slot.0 / SLOTS_PER_EPOCH >= self.heze_fork_epoch {
            ForkName::Heze
        } else {
            ForkName::Gloas
        }
    }

    fn get_il_duties_for_slot(&mut self, slot: Slot) -> Option<(Hash256, Vec<InclusionListDuty>)> {
        self.lookups += 1;
        let (dependent_root, duties) = self.il_duties.get(&(slot.0 / SLOTS_PER_EPOCH))?;
        let at_slot = duties.iter().filter(|d| d.slot == slot).copied().collect();
        Some((*dependent_root, at_slot))
    }

    /// Two passes over the beacon nodes; the first that accepts ends them.
    fn first_success(&mut self, mut ask: impl FnMut(&mut BeaconNode) -> bool) -> Option<usize> {
        for _ in 0..2 {
            for (i, node) in self.nodes.iter_mut().enumerate() {
                if ask(node) {
                    return Some(i);
                }
            }
        }
        None
    }

    fn sign_inclusion_list(
        &self,
        pubkey: PublicKeyBytes,
        message: InclusionList,
    ) -> Result<SignedInclusionList, &'static str> {
        if !self.pubkeys.contains(&pubkey) {
            return Err("unknown public key");
        }
        let mut signature = [0u8; 96];
        signature[..48].copy_from_slice(&pubkey.0);
        signature[48] = 1;
        Ok(SignedInclusionList {
            message,
            signature: Signature(signature),
        })
    }

    fn sleep(&mut self, duration: Duration) {
        self.sleeps.push(duration);
        self.now_secs += (duration.as_nanos() / 1_000_000_000) as u64;
    }

    fn wait(&mut self, mut task: WaitToNextSlot) -> Option<Slot> {
        loop {
            task = match task {
                WaitToNextSlot::ReadDurationToNextSlot(t) => {
                    t.resume(Some(self.duration_to_next_slot()))
                }
                WaitToNextSlot::ReadCurrentSlot(t) => t.resume(Some(self.now())),
                WaitToNextSlot::ReadFork(t) => {
                    let fork_name = self.fork_name_at_slot(t.current_slot);
                    t.resume(fork_name)
                }
                WaitToNextSlot::ReadDurationToNextEpoch(t) => {
                    t.resume(Some(self.duration_to_next_epoch()))
                }
                WaitToNextSlot::SleepWithoutSlot(t) => {
                    self.sleep(t.duration);
                    t.resume()
                }
                WaitToNextSlot::SleepToNextSlot(t) => {
                    self.sleep(t.duration);
                    t.resume()
                }
                WaitToNextSlot::ReadStartedSlot(t) => t.resume(Some(self.now())),
                WaitToNextSlot::Done(slot) => return slot,
            }
        }
    }

    fn produce(&mut self, mut task: ProduceInclusionListData) -> Produced {
        loop {
            task = match task {
                ProduceInclusionListData::LookUpDuties(t) => {
                    let found = self.get_il_duties_for_slot(t.slot);
                    t.resume(found)
                }
                ProduceInclusionListData::FetchTransactions(t) => {
                    let reply = match self
                        .first_success(|node| node.get_slot == Some(t.slot) && node.get.answer())
                    {
                        Some(i) => Ok(InclusionListTransactions {
                            transactions: self.nodes[i].transactions.clone(),
                        }),
                        None => Err("all beacon nodes failed".to_string()),
                    };
                    t.resume(reply)
                }
                ProduceInclusionListData::Done(outcome) => return outcome,
            }
        }
    }

    fn produce_at(&mut self, slot: Slot) -> Produced {
        let task = self.service.produce_inclusion_list_duties_data(slot);
        self.produce(task)
    }

    fn publish(&mut self, mut task: PublishInclusionList<'_>) -> Result<(), String> {
        loop {
            task = match task {
                PublishInclusionList::PostSsz(t) => {
                    let reply = match self.first_success(|node| node.ssz.answer()) {
                        Some(i) => {
                            let received = (t.signed_il.clone(), t.fork_name);
                            self.nodes[i].received.push(received);
                            Ok(())
                        }
                        None => Err(Encoding::Ssz.refusal_message("refused")),
                    };
                    t.resume(reply)
                }
                PublishInclusionList::PostJson(t) => {
                    let reply = match self.first_success(|node| node.json.answer()) {
                        Some(i) => {
                            let received = (t.signed_il.clone(), t.fork_name);
                            self.nodes[i].received.push(received);
                            Ok(())
                        }
                        None => Err(Encoding::Json.refusal_message("refused")),
                    };
                    t.resume(reply)
                }
                PublishInclusionList::Done(outcome) => return outcome,
            }
        }
    }

    fn sign_and_publish(
        &mut self,
        slot: Slot,
        duties: Vec<InclusionListDuty>,
        data: InclusionListData,
    ) -> Result<(), String> {
        let task = self.service.sign_and_publish(slot, duties, data);
        self.run_producer(task)
    }

    fn run_producer(&mut self, mut task: SignAndPublish) -> Result<(), String> {
        loop {
            task = match task {
                SignAndPublish::Sign(t) => {
                    let (pubkey, message) = t.request();
                    let reply = self.sign_inclusion_list(pubkey, message);
                    t.resume(reply)
                }
                SignAndPublish::ReadFork(t) => {
                    let fork_name = self.fork_name_at_slot(t.slot());
                    t.resume(fork_name)
                }
                SignAndPublish::Publish(t) => {
                    let service = self.service.clone();
                    let outcome = self.publish(t.task(&service));
                    t.resume(outcome)
                }
                SignAndPublish::Done(outcome) => return outcome,
            }
        }
    }

    /// One round; what it hands on is run to its end.
    fn round(&mut self) -> (Result<(), String>, Option<Result<(), String>>) {
        let service = self.service.clone();
        let mut producer = None;
        let mut tasks = service.spawn_inclusion_list_tasks();
        loop {
            tasks = match tasks {
                InclusionListTasks::WaitToNextSlot(t) => {
                    let waited = self.wait(t.task());
                    t.resume(waited)
                }
                InclusionListTasks::ProduceData(t) => {
                    let produced = self.produce(t.task());
                    t.resume(produced)
                }
                InclusionListTasks::SpawnProducer(t) => {
                    let (spawn, tasks) = t.spawn();
                    producer = Some(self.run_producer(spawn.task));
                    tasks
                }
                InclusionListTasks::Done(outcome) => return (outcome, producer),
            }
        }
    }
}

fn no_transactions() -> InclusionListTransactions {
    InclusionListTransactions {
        transactions: Default::default(),
    }
}

/// Before Heze the wait sleeps to the next epoch and yields no slot. No duties
/// are read and no beacon node is asked.
#[test]
fn waits_until_next_epoch_before_heze_fork() {
    let mut harness = TestHarness::new_with_heze_at(1, 1);
    harness.insert_il_duties(Slot(1), root(0xab));
    harness.serve_transactions(0, &no_transactions(), Slot(1));
    harness.nodes[0].ssz = Route::lasting(true);

    assert_eq!(harness.round(), (Ok(()), None));

    // A whole epoch was slept, not just a slot.
    assert_eq!(
        harness.sleeps,
        vec![Duration::from_secs(SECONDS_PER_SLOT * SLOTS_PER_EPOCH)]
    );
    assert_eq!(harness.lookups, 0);
    assert_eq!(harness.nodes[0].get.hits, 0);
    assert_eq!(harness.nodes[0].ssz.hits, 0);

    // The clock now stands in the fork's first epoch.
    let task = harness.service.wait_to_next_slot();
    assert_eq!(harness.wait(task), Some(Slot(33)));
}

#[test]
fn waits_until_next_slot() {
    let mut harness = TestHarness::new_with_validators(1);
    let task = harness.service.wait_to_next_slot();
    assert_eq!(harness.wait(task), Some(Slot(1)));
    assert_eq!(harness.sleeps, vec![Duration::from_secs(12)]);
}

#[test]
fn no_duties_no_fetch_no_publish() {
    let mut harness = TestHarness::new_with_validators(3);
    let current_slot = harness.now();
    harness.serve_transactions(0, &no_transactions(), current_slot);
    harness.nodes[0].ssz = Route::lasting(true);

    // Duties for the slot's epoch not downloaded yet.
    let result = harness.produce_at(current_slot);
    assert!(result.unwrap().is_none());

    // A duty for the next slot, not for the current one.
    harness.insert_il_duties(Slot(current_slot.0 + 1), root(0xab));
    let result = harness.produce_at(current_slot);
    assert!(result.unwrap().is_none());

    assert_eq!(harness.lookups, 2);
    assert_eq!(harness.nodes[0].get.hits, 0);
    assert_eq!(harness.nodes[0].ssz.hits, 0);
}

/// The fetch fails on all beacon nodes: the production fails, nothing is signed
/// or published, and the service goes on.
#[test]
fn produce_fetch_error_aborts_slot() {
    let mut harness = TestHarness::new_with_validators(3);
    let slot = Slot(1);
    harness.insert_il_duties(slot, root(0xab));
    for node in harness.nodes.iter_mut() {
        node.get = Route::lasting(false);
        node.get_slot = Some(slot);
    }
    harness.nodes[0].ssz = Route::lasting(true);

    let result = harness.produce_at(slot);
    assert!(result.is_err());

    let (outcome, producer) = harness.round();
    assert_eq!(outcome, Err("all beacon nodes failed".to_string()));
    assert_eq!(producer, None);
    assert_eq!(harness.nodes[0].ssz.hits, 0);

    let spawn = harness.service.clone().start_update_service().ok().unwrap();
    let update = spawn.task.resume(outcome);
    assert!(matches!(
        update.round(),
        InclusionListTasks::WaitToNextSlot(_)
    ));
}

/// The first beacon node fails the fetch and the second serves it: the
/// transactions come from the second.
#[test]
fn produce_falls_back_to_second_bn() {
    let mut harness = TestHarness::new_with_validators(3);
    let slot = Slot(1);
    let dependent_root = root(0xab);
    harness.insert_il_duties(slot, dependent_root);

    let transactions = InclusionListTransactions {
        transactions: vec![vec![0xaa; 3]],
    };
    harness.nodes[0].get = Route::lasting(false);
    harness.nodes[0].get_slot = Some(slot);
    harness.serve_transactions(1, &transactions, slot);

    let (duties, data) = harness.produce_at(slot).unwrap().unwrap();
    assert_eq!(duties.len(), 3);
    assert_eq!(data.dependent_root, dependent_root);
    assert_eq!(data.transactions, transactions);
    assert_eq!(harness.nodes[1].get.hits, 1);
}

#[test]
fn publishes_each_inclusion_list_via_ssz() {
    let mut harness = TestHarness::new_with_validators(3);
    let slot = Slot(1);
    let dependent_root = root(0xab);
    harness.insert_il_duties(slot, dependent_root);

    let transactions = InclusionListTransactions {
        transactions: vec![vec![0xaa; 3]],
    };
    harness.serve_transactions(0, &transactions, slot);
    harness.nodes[0].ssz = Route::lasting(true);
    harness.nodes[0].json = Route::lasting(true);

    let (duties, data) = harness.produce_at(slot).unwrap().unwrap();
    harness.sign_and_publish(slot, duties, data).unwrap();

    // One request per duty, and no JSON fallback.
    assert_eq!(harness.nodes[0].ssz.hits, 3);
    assert_eq!(harness.nodes[0].json.hits, 0);

    let messages = &harness.nodes[0].received;
    assert_eq!(messages.len(), 3);
    for (i, (signed_il, fork_name)) in messages.iter().enumerate() {
        assert_eq!(signed_il.message.validator_index, i as u64);
        assert_eq!(signed_il.message.slot, slot);
        assert_eq!(signed_il.message.dependent_root, dependent_root);
        assert_eq!(signed_il.message.transactions, transactions.transactions);
        assert_eq!(*fork_name, ForkName::Heze);
    }
    // Each message carries its own validator's signature.
    assert_ne!(messages[0].0.signature, messages[1].0.signature);
    assert_ne!(messages[1].0.signature, messages[2].0.signature);
}

#[test]
fn inclusion_list_ssz_publish_falls_back_to_json() {
    let mut harness = TestHarness::new_with_validators(1);
    let slot = Slot(1);
    harness.insert_il_duties(slot, root(0xab));
    harness.serve_transactions(0, &no_transactions(), slot);
    harness.nodes[0].ssz = Route::lasting(false);
    harness.nodes[0].json = Route::lasting(true);

    let (duties, data) = harness.produce_at(slot).unwrap().unwrap();
    harness.sign_and_publish(slot, duties, data).unwrap();

    // Two passes over the beacon nodes hit the failing SSZ route twice.
    assert_eq!(harness.nodes[0].ssz.hits, 2);
    assert_eq!(harness.nodes[0].json.hits, 1);
    assert_eq!(harness.nodes[0].received.len(), 1);
}

/// One duty's publication fails in both encodings, and its sibling's succeeds.
#[test]
fn partial_publish_failure_still_publishes_siblings() {
    let mut harness = TestHarness::new_with_validators(2);
    let slot = Slot(1);
    harness.insert_il_duties(slot, root(0xab));
    harness.serve_transactions(0, &no_transactions(), slot);

    // The first duty's publication fails on both passes of both encodings.
    harness.nodes[0].ssz = Route {
        script: vec![false, false],
        lasting: Some(true),
        hits: 0,
    };
    harness.nodes[0].json = Route {
        script: vec![false, false],
        lasting: None,
        hits: 0,
    };

    let (duties, data) = harness.produce_at(slot).unwrap().unwrap();
    harness.sign_and_publish(slot, duties, data).unwrap();

    assert_eq!(harness.nodes[0].ssz.hits, 3);
    assert_eq!(harness.nodes[0].json.hits, 2);
    let indices: Vec<u64> = harness.nodes[0]
        .received
        .iter()
        .map(|(il, _)| il.message.validator_index)
        .collect();
    assert_eq!(indices, vec![1]);
}

#[test]
fn total_publish_failure_returns_error() {
    let mut harness = TestHarness::new_with_validators(2);
    let slot = Slot(1);
    harness.insert_il_duties(slot, root(0xab));
    // No routes to post to: every publication fails in both encodings.
    harness.serve_transactions(0, &no_transactions(), slot);

    let (duties, data) = harness.produce_at(slot).unwrap().unwrap();
    let result = harness.sign_and_publish(slot, duties, data);
    assert!(result.is_err());
    assert_eq!(
        result,
        Err("Failed to publish any of the 2 signed inclusion lists".to_string())
    );
}

#[test]
fn sign_failure_for_unknown_validator_skips_publish() {
    let mut harness = TestHarness::new_with_validators(1);
    let slot = Slot(1);

    // A duty for a validator the key store does not hold.
    let duty = InclusionListDuty {
        pubkey: pubkey(99),
        validator_index: 99,
        slot,
        inclusion_list_committee_root: root(0),
    };
    harness
        .il_duties
        .insert(slot.0 / SLOTS_PER_EPOCH, (root(0xab), vec![duty]));
    harness.serve_transactions(0, &no_transactions(), slot);
    harness.nodes[0].ssz = Route::lasting(true);

    let (duties, data) = harness.produce_at(slot).unwrap().unwrap();
    let result = harness.sign_and_publish(slot, duties, data);

    // Nothing signed means nothing to publish, not a total failure to publish.
    assert_eq!(result, Ok(()));
    assert_eq!(harness.nodes[0].ssz.hits, 0);
}

/// A failure to sign for one duty leaves its siblings' lists, in their order.
#[test]
fn sign_failure_leaves_siblings() {
    let mut harness = TestHarness::new_with_validators(3);
    let slot = Slot(1);
    harness.insert_il_duties(slot, root(0xab));
    harness.serve_transactions(0, &no_transactions(), slot);
    harness.nodes[0].ssz = Route::lasting(true);
    harness.pubkeys.remove(1);

    assert_eq!(harness.round(), (Ok(()), Some(Ok(()))));
    let indices: Vec<u64> = harness.nodes[0]
        .received
        .iter()
        .map(|(il, _)| il.message.validator_index)
        .collect();
    assert_eq!(indices, vec![0, 2]);
    // Each published list is what the key store answered for its duty.
    for (il, _) in &harness.nodes[0].received {
        let own = harness.sign_inclusion_list(
            pubkey(il.message.validator_index as u8),
            il.message.clone(),
        );
        assert_eq!(own, Ok(il.clone()));
    }
}

/// The outcome of the spawned task is not the round's.
#[test]
fn round_does_not_wait_for_its_producer() {
    let mut harness = TestHarness::new_with_validators(1);
    harness.insert_il_duties(Slot(1), root(0xab));
    harness.serve_transactions(0, &no_transactions(), Slot(1));
    let (outcome, producer) = harness.round();
    assert_eq!(outcome, Ok(()));
    assert_eq!(
        producer,
        Some(Err(
            "Failed to publish any of the 1 signed inclusion lists".to_string()
        ))
    );
}

/// The fork name given to the beacon nodes is that of the duties' slot.
#[test]
fn publishes_for_the_fork_of_the_slot() {
    let mut harness = TestHarness::new_with_heze_at(1, 1);
    let slot = Slot(31);
    harness.insert_il_duties(slot, root(0xab));
    harness.serve_transactions(0, &no_transactions(), slot);
    harness.nodes[0].ssz = Route::lasting(true);
    let (duties, data) = harness.produce_at(slot).unwrap().unwrap();
    harness.sign_and_publish(slot, duties, data).unwrap();
    assert_eq!(harness.nodes[0].received[0].1, ForkName::Gloas);
}
