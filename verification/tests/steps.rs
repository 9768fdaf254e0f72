//! Single steps and values.

use std::sync::Arc;

use inclusion_list::chain_spec::ChainSpec;
use inclusion_list::duration::{Duration, MAX_NANOS};
use inclusion_list::inclusion_list_service::{InclusionListService, Inner};
use inclusion_list::inclusion_list_verification::gossip_verified_inclusion_list::{
    BeaconChain, GossipVerificationContext, GossipVerifiedInclusionList,
};
use inclusion_list::inclusion_list_verification::{
    BeaconChainError, BeaconStateError, InclusionListVerificationError,
};
use inclusion_list::produce::ProduceInclusionListData;
use inclusion_list::publish::{Encoding, PublishInclusionList};
use inclusion_list::sign_and_publish::SignAndPublish;
use inclusion_list::tasks::InclusionListTasks;
use inclusion_list::text::push_decimal;
use inclusion_list::types::{
    clone_transactions, ForkName, Hash256, InclusionList, InclusionListData, InclusionListDuty,
    InclusionListTransactions, PublicKeyBytes, Signature, SignedInclusionList, Slot,
};
use inclusion_list::wait::WaitToNextSlot;

fn chain_spec() -> ChainSpec {
    ChainSpec {
        slot_duration: Duration::from_secs(12),
        slots_per_epoch: 32,
    }
}

fn service() -> InclusionListService {
    InclusionListService::new(chain_spec())
}

fn signed(validator_index: u64) -> SignedInclusionList {
    SignedInclusionList {
        message: InclusionList {
            slot: Slot(7),
            validator_index,
            dependent_root: Hash256([1; 32]),
            transactions: vec![vec![1, 2], vec![]],
        },
        signature: Signature([9; 96]),
    }
}

fn duty(validator_index: u64) -> InclusionListDuty {
    InclusionListDuty {
        pubkey: PublicKeyBytes([validator_index as u8; 48]),
        validator_index,
        slot: Slot(7),
        inclusion_list_committee_root: Hash256([0; 32]),
    }
}

fn data() -> InclusionListData {
    InclusionListData {
        dependent_root: Hash256([1; 32]),
        transactions: InclusionListTransactions {
            transactions: vec![vec![1, 2], vec![]],
        },
    }
}

#[test]
fn unreadable_distance_sleeps_a_slot() {
    let WaitToNextSlot::ReadDurationToNextSlot(t) = service().wait_to_next_slot() else {
        panic!()
    };
    let WaitToNextSlot::SleepWithoutSlot(t) = t.resume(None) else {
        panic!()
    };
    assert_eq!(t.duration, Duration::from_secs(12));
    assert!(matches!(t.resume(), WaitToNextSlot::Done(None)));
}

#[test]
fn unreadable_current_slot_ends_the_wait_at_once() {
    let WaitToNextSlot::ReadDurationToNextSlot(t) = service().wait_to_next_slot() else {
        panic!()
    };
    let WaitToNextSlot::ReadCurrentSlot(t) = t.resume(Some(Duration::from_secs(5))) else {
        panic!()
    };
    assert!(matches!(t.resume(None), WaitToNextSlot::Done(None)));
}

#[test]
fn unreadable_epoch_before_heze_sleeps_a_whole_epoch() {
    let WaitToNextSlot::ReadDurationToNextSlot(t) = service().wait_to_next_slot() else {
        panic!()
    };
    let WaitToNextSlot::ReadCurrentSlot(t) = t.resume(Some(Duration::from_secs(5))) else {
        panic!()
    };
    let WaitToNextSlot::ReadFork(t) = t.resume(Some(Slot(3))) else {
        panic!()
    };
    assert_eq!(t.current_slot, Slot(3));
    let WaitToNextSlot::ReadDurationToNextEpoch(t) = t.resume(ForkName::Gloas) else {
        panic!()
    };
    let WaitToNextSlot::SleepWithoutSlot(t) = t.resume(None) else {
        panic!()
    };
    assert_eq!(t.duration, Duration::from_secs(384));
    assert!(matches!(t.resume(), WaitToNextSlot::Done(None)));
}

#[test]
fn unreadable_slot_after_the_sleep_ends_without_a_slot() {
    let WaitToNextSlot::ReadDurationToNextSlot(t) = service().wait_to_next_slot() else {
        panic!()
    };
    let WaitToNextSlot::ReadCurrentSlot(t) = t.resume(Some(Duration::from_secs(5))) else {
        panic!()
    };
    let WaitToNextSlot::ReadFork(t) = t.resume(Some(Slot(3))) else {
        panic!()
    };
    let WaitToNextSlot::SleepToNextSlot(t) = t.resume(ForkName::Heze) else {
        panic!()
    };
    assert_eq!(t.duration, Duration::from_secs(5));
    let WaitToNextSlot::ReadStartedSlot(t) = t.resume() else {
        panic!()
    };
    assert!(matches!(t.resume(None), WaitToNextSlot::Done(None)));
}

#[test]
fn only_heze_enables_inclusion_lists() {
    assert!(ForkName::Heze.heze_enabled());
    for fork_name in [
        ForkName::Base,
        ForkName::Altair,
        ForkName::Bellatrix,
        ForkName::Capella,
        ForkName::Deneb,
        ForkName::Electra,
        ForkName::Fulu,
        ForkName::Gloas,
    ] {
        assert!(!fork_name.heze_enabled());
    }
}

#[test]
fn empty_duties_are_not_fetched_for() {
    let ProduceInclusionListData::LookUpDuties(t) =
        service().produce_inclusion_list_duties_data(Slot(7))
    else {
        panic!()
    };
    assert_eq!(t.slot, Slot(7));
    assert!(matches!(
        t.resume(Some((Hash256([1; 32]), vec![]))),
        ProduceInclusionListData::Done(Ok(None))
    ));
}

#[test]
fn duties_are_fetched_for_at_their_slot() {
    let ProduceInclusionListData::LookUpDuties(t) =
        service().produce_inclusion_list_duties_data(Slot(7))
    else {
        panic!()
    };
    let ProduceInclusionListData::FetchTransactions(t) =
        t.resume(Some((Hash256([5; 32]), vec![duty(4), duty(2)])))
    else {
        panic!()
    };
    assert_eq!(t.slot, Slot(7));
    assert_eq!(t.dependent_root, Hash256([5; 32]));
    assert_eq!(t.duties, vec![duty(4), duty(2)]);
}

#[test]
fn signing_without_duties_is_done() {
    assert!(matches!(
        service().sign_and_publish(Slot(7), vec![], data()),
        SignAndPublish::Done(Ok(()))
    ));
}

#[test]
fn requests_follow_the_duties() {
    let mut task = service().sign_and_publish(Slot(7), vec![duty(4), duty(5)], data());
    for index in [4u64, 5] {
        let SignAndPublish::Sign(t) = task else {
            panic!()
        };
        let (pubkey, list) = t.request();
        assert_eq!(pubkey, duty(index).pubkey);
        assert_eq!(list, signed(index).message);
        task = t.resume::<()>(Ok(signed(index)));
    }
    let SignAndPublish::ReadFork(t) = task else {
        panic!()
    };
    assert_eq!(t.slot(), Slot(7));
    task = t.resume(ForkName::Heze);
    for index in [4u64, 5] {
        let SignAndPublish::Publish(t) = task else {
            panic!()
        };
        assert_eq!(t.signed_il(), &signed(index));
        let service = service();
        let PublishInclusionList::PostSsz(post) = t.task(&service) else {
            panic!()
        };
        assert_eq!(post.signed_il, &signed(index));
        assert_eq!(post.fork_name, ForkName::Heze);
        // The first list is accepted, the second refused.
        let outcome = if index == 4 { Ok(()) } else { Err(()) };
        assert_eq!(t.total(), 2);
        assert_eq!(t.published_after(&outcome), 1);
        assert_eq!(t.published_after::<()>(&Ok(())), if index == 4 { 1 } else { 2 });
        task = t.resume(outcome);
    }
    assert!(matches!(task, SignAndPublish::Done(Ok(()))));
}

#[test]
fn ten_refused_lists_are_counted() {
    let mut task = service().sign_and_publish(Slot(7), vec![duty(1); 10], data());
    let outcome = loop {
        task = match task {
            SignAndPublish::Sign(t) => t.resume::<()>(Ok(signed(1))),
            SignAndPublish::ReadFork(t) => t.resume(ForkName::Heze),
            SignAndPublish::Publish(t) => t.resume::<()>(Err(())),
            SignAndPublish::Done(outcome) => break outcome,
        }
    };
    assert_eq!(
        outcome,
        Err("Failed to publish any of the 10 signed inclusion lists".to_string())
    );
}

#[test]
fn refused_twice_reports_the_json_refusal() {
    let list = signed(1);
    let service = service();
    let PublishInclusionList::PostSsz(t) = service.publish_inclusion_list(&list, ForkName::Heze)
    else {
        panic!()
    };
    let PublishInclusionList::PostJson(t) = t.resume(Err(Encoding::Ssz.refusal_message("a")))
    else {
        panic!()
    };
    assert_eq!(t.signed_il, &list);
    assert_eq!(t.fork_name, ForkName::Heze);
    let PublishInclusionList::Done(outcome) = t.resume(Err(Encoding::Json.refusal_message("b")))
    else {
        panic!()
    };
    assert_eq!(
        outcome,
        Err("Failed to publish inclusion list (JSON): b".to_string())
    );
    assert_eq!(
        Encoding::Ssz.refusal_message("a"),
        "Failed to publish inclusion list (SSZ): a"
    );
}

#[test]
fn round_without_a_slot_is_over() {
    let InclusionListTasks::WaitToNextSlot(t) = service().spawn_inclusion_list_tasks() else {
        panic!()
    };
    assert_eq!(t.service.chain_spec, chain_spec());
    assert!(matches!(t.resume(None), InclusionListTasks::Done(Ok(()))));
}

/// A round, and every round after it, is one of the service it was started on.
#[test]
fn rounds_keep_their_service() {
    let spec = ChainSpec {
        slot_duration: Duration::from_secs(5),
        slots_per_epoch: 8,
    };
    let spawn = InclusionListService::new(spec)
        .start_update_service()
        .unwrap();
    assert_eq!(spawn.name, "inclusion_list_service");
    let mut update = spawn.task;
    for outcome in [Ok(()), Err("no answer".to_string())] {
        let InclusionListTasks::WaitToNextSlot(t) = update.round() else {
            panic!()
        };
        let WaitToNextSlot::ReadDurationToNextSlot(wait) = t.task() else {
            panic!()
        };
        assert_eq!(wait.chain_spec, spec);
        let InclusionListTasks::ProduceData(t) = t.resume(Some(Slot(7))) else {
            panic!()
        };
        assert_eq!(t.service.chain_spec, spec);
        let InclusionListTasks::SpawnProducer(t) = t.resume(Ok(Some((vec![duty(4)], data()))))
        else {
            panic!()
        };
        assert_eq!(t.service.chain_spec, spec);
        assert_eq!(t.slot, Slot(7));
        let (spawn, tasks) = t.spawn();
        assert_eq!(spawn.name, "inclusion_list_producer");
        assert!(matches!(spawn.task, SignAndPublish::Sign(_)));
        assert!(matches!(tasks, InclusionListTasks::Done(Ok(()))));
        update = update.resume(outcome);
    }
}

#[test]
fn service_and_its_copy_share_the_chain() {
    let service = service();
    let copy = service.clone();
    let expected = Inner {
        chain_spec: chain_spec(),
    };
    assert_eq!(*service, expected);
    assert_eq!(*copy, expected);
    let (inner, shared): (&Inner, &Inner) = (&service, &copy);
    assert!(std::ptr::eq(inner, shared));
}

#[test]
fn durations_are_in_nanoseconds() {
    assert_eq!(Duration::new(1, 5).as_nanos(), 1_000_000_005);
    assert_eq!(Duration::new(7, 999_999_999).as_secs(), 7);
    assert_eq!(Duration::new(7, 999_999_999).subsec_nanos(), 999_999_999);
    assert_eq!(Duration::from_secs(12).repeat(32), Duration::from_secs(384));
    let longest = Duration::new(u64::MAX, 999_999_999);
    assert_eq!(longest.as_nanos(), MAX_NANOS);
    assert_eq!(longest.as_nanos(), std::time::Duration::MAX.as_nanos());
    assert_eq!(longest.as_secs(), u64::MAX);
    assert!(longest.can_repeat(1));
    assert!(!longest.can_repeat(2));
}

#[test]
fn epoch_length_takes_the_low_half_of_the_slot_count() {
    assert!(chain_spec().epoch_duration_fits());
    assert_eq!(chain_spec().epoch_duration(), Duration::from_secs(384));
    let wide = ChainSpec {
        slots_per_epoch: 0x1_0000_0003,
        ..chain_spec()
    };
    assert_eq!(wide.epoch_duration(), Duration::from_secs(36));
    let long = ChainSpec {
        slot_duration: Duration::from_secs(u64::MAX),
        slots_per_epoch: 2,
    };
    assert!(!long.epoch_duration_fits());
}

#[test]
fn numerals_are_decimal() {
    for n in [0u64, 7, 10, 99, 1234567890, u64::MAX] {
        let mut out = String::from("n=");
        push_decimal(&mut out, n);
        assert_eq!(out, format!("n={}", n));
    }
}

#[test]
fn transactions_are_copied_byte_for_byte() {
    let transactions = vec![vec![0xaa; 3], vec![], vec![1, 2, 3]];
    assert_eq!(clone_transactions(&transactions), transactions);
    assert_eq!(signed(3).clone(), signed(3));
    assert_eq!(data().clone(), data());
}

#[test]
fn gossip_accepts_every_list_unchanged() {
    let chain = BeaconChain {
        slot_clock: Slot(5),
        spec: chain_spec(),
    };
    let ctx = chain.inclusion_list_gossip_verification_context();
    assert_eq!(*ctx.slot_clock, Slot(5));
    assert_eq!(*ctx.spec, chain_spec());

    let list = Arc::new(signed(3));
    let verified = chain.verify_inclusion_list_for_gossip(list.clone()).ok().unwrap();
    assert!(Arc::ptr_eq(&verified.signed_inclusion_list, &list));

    let other = ChainSpec {
        slot_duration: Duration::from_secs(1),
        slots_per_epoch: 8,
    };
    let ctx = GossipVerificationContext {
        slot_clock: &(),
        spec: &other,
    };
    let verified = GossipVerifiedInclusionList::new(list.clone(), &ctx).ok().unwrap();
    assert_eq!(*verified.signed_inclusion_list, signed(3));
}

#[test]
fn verification_errors_read_as_their_names() {
    let seen = InclusionListVerificationError::AlreadySeenTwice {
        validator_index: 12,
        slot: Slot(345),
    };
    assert_eq!(
        seen.to_string(),
        "AlreadySeenTwice { validator_index: 12, slot: Slot(345) }"
    );
    assert_eq!(
        InclusionListVerificationError::UnableToReadSlot.to_string(),
        "UnableToReadSlot"
    );
    let chain = BeaconChainError {
        account: "NoStateForSlot(Slot(1))".to_string(),
    };
    let error = InclusionListVerificationError::from(chain);
    assert!(matches!(
        &error,
        InclusionListVerificationError::BeaconChainError(e)
            if e.account == "NoStateForSlot(Slot(1))"
    ));
    assert_eq!(
        error.to_string(),
        "BeaconChainError(NoStateForSlot(Slot(1)))"
    );
    let state = BeaconStateError {
        account: "UnknownValidator(7)".to_string(),
    };
    let error = InclusionListVerificationError::from(state);
    assert!(matches!(
        &error,
        InclusionListVerificationError::BeaconStateError(e) if e.account == "UnknownValidator(7)"
    ));
    assert_eq!(error.to_string(), "BeaconStateError(UnknownValidator(7))");
}
