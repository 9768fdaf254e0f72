//! Whole runs of the signing and publishing of a slot.

use vstd::prelude::*;

use crate::publish::{publish_outcome, PostSsz, PublishInclusionList};
use crate::sign_and_publish::{
    first_position, none_published_message, PublishingView, ReadForkView, SignAndPublishView,
    SigningView,
};
use crate::types::{
    transaction_bytes, ForkName, InclusionListData, InclusionListDuty, InclusionListView,
    SignedInclusionList, Slot,
};

verus! {

/// The lists that were signed, in the order of the replies.
pub open spec fn signed_lists(replies: Seq<Option<SignedInclusionList>>) -> Seq<SignedInclusionList>
    decreases replies.len(),
{
    if replies.len() == 0 {
        Seq::empty()
    } else {
        match replies.last() {
            Some(signed_il) => signed_lists(replies.drop_last()).push(signed_il),
            None => signed_lists(replies.drop_last()),
        }
    }
}

/// The number of publications that were accepted.
pub open spec fn accepted_count(accepted: Seq<bool>) -> nat
    decreases accepted.len(),
{
    if accepted.len() == 0 {
        0
    } else {
        accepted_count(accepted.drop_last()) + if accepted.last() {
            1nat
        } else {
            0nat
        }
    }
}

/// Where a task stands after the key store's replies. A task that waits for
/// something else does not take them.
pub open spec fn after_replies(
    task: SignAndPublishView,
    replies: Seq<Option<SignedInclusionList>>,
) -> SignAndPublishView
    decreases replies.len(),
{
    if replies.len() == 0 {
        task
    } else {
        match after_replies(task, replies.drop_last()) {
            SignAndPublishView::Sign(signing) => signing.after(replies.last()),
            other => other,
        }
    }
}

/// Where a task stands after the fork's name.
pub open spec fn after_fork(task: SignAndPublishView, fork_name: ForkName) -> SignAndPublishView {
    match task {
        SignAndPublishView::ReadFork(read) => read.after(fork_name),
        other => other,
    }
}

/// Where a task stands after the outcomes of publications.
pub open spec fn after_publications(
    task: SignAndPublishView,
    accepted: Seq<bool>,
) -> SignAndPublishView
    decreases accepted.len(),
{
    if accepted.len() == 0 {
        task
    } else {
        match after_publications(task, accepted.drop_last()) {
            SignAndPublishView::Publish(publishing) => publishing.after(accepted.last()),
            other => other,
        }
    }
}

/// Every duty is signed for, once and in order, whatever the answers for the
/// duties before it were: after `k` answers, duty `k` is up with its own key and
/// validator index and with the slot, the root and the transactions that all
/// lists of the slot share, and the lists signed so far are kept.
pub proof fn every_duty_is_signed_for(
    slot: Slot,
    duties: Seq<InclusionListDuty>,
    data: InclusionListData,
    replies: Seq<Option<SignedInclusionList>>,
)
    requires
        replies.len() < duties.len(),
    ensures
        ({
            let signing = SigningView {
                slot,
                duties,
                data,
                next: replies.len(),
                signed: signed_lists(replies),
            };
            let duty = duties[replies.len() as int];
            &&& after_replies(first_position(slot, duties, data), replies)
                == SignAndPublishView::Sign(signing)
            &&& signing.request() == (
                duty.pubkey,
                InclusionListView {
                    slot,
                    validator_index: duty.validator_index,
                    dependent_root: data.dependent_root,
                    transactions: transaction_bytes(data.transactions.transactions@),
                },
            )
        }),
    decreases replies.len(),
{
    if replies.len() > 0 {
        every_duty_is_signed_for(slot, duties, data, replies.drop_last());
    }
}

/// Once every duty has its answer, the lists that were signed go on to be
/// published, none of them lost and none added; where none was signed, the slot
/// ends well and nothing is published.
pub proof fn what_was_signed_goes_on(
    slot: Slot,
    duties: Seq<InclusionListDuty>,
    data: InclusionListData,
    replies: Seq<Option<SignedInclusionList>>,
)
    requires
        replies.len() == duties.len(),
    ensures
        after_replies(first_position(slot, duties, data), replies) == (if signed_lists(replies).len()
            == 0 {
            SignAndPublishView::Done(Ok(()))
        } else {
            SignAndPublishView::ReadFork(ReadForkView { slot, signed: signed_lists(replies) })
        }),
{
    if replies.len() > 0 {
        every_duty_is_signed_for(slot, duties, data, replies.drop_last());
    }
}

/// The answers for some duties do not touch the lists of the others, nor
/// their order.
pub proof fn signed_lists_are_independent(
    before: Seq<Option<SignedInclusionList>>,
    after: Seq<Option<SignedInclusionList>>,
)
    ensures
        signed_lists(before + after) == signed_lists(before) + signed_lists(after),
    decreases after.len(),
{
    if after.len() == 0 {
        assert(before + after =~= before);
        assert(signed_lists(before) + signed_lists(after) =~= signed_lists(before));
    } else {
        signed_lists_are_independent(before, after.drop_last());
        assert((before + after).drop_last() =~= before + after.drop_last());
        assert((before + after).last() == after.last());
        assert(signed_lists(before + after) =~= signed_lists(before) + signed_lists(after));
    }
}

/// Each list that the key store signed is among those to publish; a failure
/// adds nothing.
pub proof fn every_signed_list_is_kept(replies: Seq<Option<SignedInclusionList>>, i: int)
    requires
        0 <= i < replies.len(),
    ensures
        signed_lists(replies.take(i + 1)) == signed_lists(replies.take(i)) + (match replies[i] {
            Some(signed_il) => seq![signed_il],
            None => Seq::empty(),
        }),
        replies[i] matches Some(signed_il) ==> signed_lists(replies).contains(signed_il),
{
    let upto = replies.take(i + 1);
    assert(upto.drop_last() =~= replies.take(i));
    assert(upto.last() == replies[i]);
    assert(signed_lists(upto) =~= signed_lists(replies.take(i)) + (match replies[i] {
        Some(signed_il) => seq![signed_il],
        None => Seq::empty(),
    }));
    assert(upto + replies.skip(i + 1) =~= replies);
    signed_lists_are_independent(upto, replies.skip(i + 1));
    if let Some(signed_il) = replies[i] {
        let at = signed_lists(replies.take(i)).len() as int;
        assert(signed_lists(replies)[at] == signed_il);
    }
}

/// Each list to publish is what the key store answered for some duty: nothing
/// is published that it did not sign.
pub proof fn every_kept_list_was_signed(replies: Seq<Option<SignedInclusionList>>, j: int)
    requires
        0 <= j < signed_lists(replies).len(),
    ensures
        exists|k: int|
            0 <= k < replies.len() && #[trigger] replies[k] == Some(signed_lists(replies)[j]),
    decreases replies.len(),
{
    let before = replies.drop_last();
    if j < signed_lists(before).len() {
        every_kept_list_was_signed(before, j);
        let k = choose|k: int|
            0 <= k < before.len() && #[trigger] before[k] == Some(signed_lists(before)[j]);
        assert(replies[k] == Some(signed_lists(replies)[j]));
    } else {
        assert(replies[replies.len() - 1] == Some(signed_lists(replies)[j]));
    }
}

/// Every signed list is published, once and in order and for the same fork,
/// whatever became of the lists before it.
pub proof fn every_signed_list_is_published(
    read: ReadForkView,
    fork_name: ForkName,
    accepted: Seq<bool>,
)
    requires
        accepted.len() < read.signed.len(),
    ensures
        after_publications(after_fork(SignAndPublishView::ReadFork(read), fork_name), accepted)
            == SignAndPublishView::Publish(
            PublishingView {
                fork_name,
                signed: read.signed,
                next: accepted.len(),
                published: accepted_count(accepted),
            },
        ),
    decreases accepted.len(),
{
    if accepted.len() > 0 {
        every_signed_list_is_published(read, fork_name, accepted.drop_last());
    }
}

/// The number shown with each publication's outcome is that of the lists accepted
/// so far, this one among them.
pub proof fn the_count_is_of_accepted_lists(
    read: ReadForkView,
    fork_name: ForkName,
    accepted: Seq<bool>,
    outcome: bool,
)
    requires
        accepted.len() < read.signed.len(),
    ensures
        after_publications(after_fork(SignAndPublishView::ReadFork(read), fork_name), accepted)
            matches SignAndPublishView::Publish(publishing) && publishing.published_after(outcome)
            == accepted.push(outcome).filter(|a: bool| a).len(),
{
    every_signed_list_is_published(read, fork_name, accepted);
    accepted_count_is_of_accepted(accepted.push(outcome));
    assert(accepted.push(outcome).drop_last() =~= accepted);
}

proof fn accepted_count_is_of_accepted(accepted: Seq<bool>)
    ensures
        accepted_count(accepted) == accepted.filter(|a: bool| a).len(),
    decreases accepted.len(),
{
    reveal(Seq::filter);
    if accepted.len() > 0 {
        accepted_count_is_of_accepted(accepted.drop_last());
    }
}

proof fn accepted_count_is_positive(accepted: Seq<bool>)
    ensures
        accepted_count(accepted) > 0 <==> accepted.contains(true),
    decreases accepted.len(),
{
    if accepted.len() > 0 {
        let before = accepted.drop_last();
        accepted_count_is_positive(before);
        assert(accepted =~= before.push(accepted.last()));
        if before.contains(true) {
            let i = choose|i: int| 0 <= i < before.len() && before[i] == true;
            assert(accepted[i] == true);
        }
        if accepted.last() {
            assert(accepted[accepted.len() - 1] == true);
        }
        if accepted.contains(true) && !accepted.last() {
            let i = choose|i: int| 0 <= i < accepted.len() && accepted[i] == true;
            assert(before[i] == true);
        }
    }
}

/// How a slot ends once every signed list had its publication: well where one
/// of them was accepted; else with the report that none of them was.
pub proof fn one_accepted_list_is_enough(
    read: ReadForkView,
    fork_name: ForkName,
    accepted: Seq<bool>,
)
    requires
        read.signed.len() > 0,
        accepted.len() == read.signed.len(),
    ensures
        after_publications(after_fork(SignAndPublishView::ReadFork(read), fork_name), accepted)
            == SignAndPublishView::Done(
            if accepted.contains(true) {
                Ok(())
            } else {
                Err(none_published_message(read.signed.len()))
            },
        ),
{
    every_signed_list_is_published(read, fork_name, accepted.drop_last());
    accepted_count_is_positive(accepted);
}

/// How a whole slot ends. It fails where lists were signed and not one of them
/// was accepted, and only there.
pub proof fn slot_outcome(
    slot: Slot,
    duties: Seq<InclusionListDuty>,
    data: InclusionListData,
    replies: Seq<Option<SignedInclusionList>>,
    fork_name: ForkName,
    accepted: Seq<bool>,
)
    requires
        replies.len() == duties.len(),
        accepted.len() == signed_lists(replies).len(),
    ensures
        after_publications(
            after_fork(after_replies(first_position(slot, duties, data), replies), fork_name),
            accepted,
        ) == SignAndPublishView::Done(
            if signed_lists(replies).len() > 0 && !accepted.contains(true) {
                Err(none_published_message(signed_lists(replies).len()))
            } else {
                Ok(())
            },
        ),
{
    what_was_signed_goes_on(slot, duties, data, replies);
    if signed_lists(replies).len() > 0 {
        let read = ReadForkView { slot, signed: signed_lists(replies) };
        one_accepted_list_is_enough(read, fork_name, accepted);
    }
}

/// The outcomes of publishing each of `signed`, where the beacon nodes would
/// answer the requests for list `k` by `ssz[k]` and `json[k]`.
pub open spec fn publications<E>(
    signed: Seq<SignedInclusionList>,
    fork_name: ForkName,
    ssz: Seq<Result<(), E>>,
    json: Seq<Result<(), String>>,
) -> Seq<bool> {
    Seq::new(
        signed.len(),
        |k: int|
            publish_outcome(
                PublishInclusionList::PostSsz(PostSsz { signed_il: &signed[k], fork_name }),
                ssz[k],
                json[k],
            ) is Ok,
    )
}

/// One list accepted in one encoding is enough for a slot to end well, and
/// where lists were signed nothing less is.
pub proof fn one_encoding_of_one_list_is_enough<E>(
    slot: Slot,
    duties: Seq<InclusionListDuty>,
    data: InclusionListData,
    replies: Seq<Option<SignedInclusionList>>,
    fork_name: ForkName,
    ssz: Seq<Result<(), E>>,
    json: Seq<Result<(), String>>,
)
    requires
        replies.len() == duties.len(),
        ssz.len() == signed_lists(replies).len(),
        json.len() == signed_lists(replies).len(),
    ensures
        after_publications(
            after_fork(after_replies(first_position(slot, duties, data), replies), fork_name),
            publications(signed_lists(replies), fork_name, ssz, json),
        ) == SignAndPublishView::Done(
            if signed_lists(replies).len() == 0 || (exists|k: int|
                0 <= k < ssz.len() && (#[trigger] ssz[k] is Ok || json[k] is Ok)) {
                Ok(())
            } else {
                Err(none_published_message(signed_lists(replies).len()))
            },
        ),
{
    let signed = signed_lists(replies);
    let accepted = publications(signed, fork_name, ssz, json);
    slot_outcome(slot, duties, data, replies, fork_name, accepted);
    if exists|k: int| 0 <= k < ssz.len() && (#[trigger] ssz[k] is Ok || json[k] is Ok) {
        let k = choose|k: int| 0 <= k < ssz.len() && (#[trigger] ssz[k] is Ok || json[k] is Ok);
        assert(accepted[k] == true);
    }
    if accepted.contains(true) {
        let k = choose|k: int| 0 <= k < accepted.len() && accepted[k] == true;
        assert(ssz[k] is Ok || json[k] is Ok);
    }
}

} // verus!
