//! The signing and publishing of a slot against a key store, a fork schedule and
//! beacon nodes that answer each request by what it asks.

use vstd::prelude::*;

use crate::inclusion_list_service::InclusionListService;
use crate::laws::rounds::{
    has_duty, round_outcome, round_run, slot_to_produce, ClockReplies, DutiesAt, TransactionsAt,
};
use crate::laws::signing::{accepted_count, signed_lists};
use crate::publish::{PostSsz, PublishInclusionList};
use crate::sign_and_publish::{
    first_position, PublishingView, SignAndPublishView, SigningView,
};
use crate::tasks::InclusionListTasks;
use crate::text::decimal;
use crate::types::{
    transaction_bytes, ForkName, InclusionListData, InclusionListDuty, InclusionListView,
    PublicKeyBytes, SignedInclusionList, Slot,
};

verus! {

/// Who answers while a slot is signed for and published: the key store for a
/// key and a list, the schedule for a slot, the beacon nodes for a signed list
/// in SSZ or in JSON and the fork that it is posted for.
pub struct Answers {
    pub sign: spec_fn(PublicKeyBytes, InclusionListView) -> Option<SignedInclusionList>,
    pub fork_at: spec_fn(Slot) -> ForkName,
    pub ssz: spec_fn(SignedInclusionList, ForkName) -> Result<(), String>,
    pub json: spec_fn(SignedInclusionList, ForkName) -> Result<(), String>,
}

/// A request to the beacon nodes.
pub enum Post {
    Ssz(SignedInclusionList, ForkName),
    Json(SignedInclusionList, ForkName),
}

/// The requests of a publication, in order, and its outcome; `posts` are the
/// requests made already.
pub open spec fn publication_run(
    task: PublishInclusionList<'_>,
    answers: Answers,
    posts: Seq<Post>,
) -> (Seq<Post>, Result<(), String>)
    decreases
            (match task {
                PublishInclusionList::PostSsz(_) => 2nat,
                PublishInclusionList::PostJson(_) => 1nat,
                PublishInclusionList::Done(_) => 0nat,
            }),
{
    match task {
        PublishInclusionList::PostSsz(post) => publication_run(
            post.next((answers.ssz)(*post.signed_il, post.fork_name)),
            answers,
            posts.push(Post::Ssz(*post.signed_il, post.fork_name)),
        ),
        PublishInclusionList::PostJson(post) => publication_run(
            post.next((answers.json)(*post.signed_il, post.fork_name)),
            answers,
            posts.push(Post::Json(*post.signed_il, post.fork_name)),
        ),
        PublishInclusionList::Done(outcome) => (posts, outcome),
    }
}

/// What a publication posts: the list in SSZ, and in JSON too where SSZ is
/// refused.
pub open spec fn posts_of(
    signed_il: SignedInclusionList,
    fork_name: ForkName,
    answers: Answers,
) -> Seq<Post> {
    if (answers.ssz)(signed_il, fork_name) is Ok {
        seq![Post::Ssz(signed_il, fork_name)]
    } else {
        seq![Post::Ssz(signed_il, fork_name), Post::Json(signed_il, fork_name)]
    }
}

/// Whether the beacon nodes take the list in one encoding or the other.
pub open spec fn taken(
    signed_il: SignedInclusionList,
    fork_name: ForkName,
    answers: Answers,
) -> bool {
    (answers.ssz)(signed_il, fork_name) is Ok || (answers.json)(signed_il, fork_name) is Ok
}

/// How a publication goes. The list is posted in SSZ for its fork; only where
/// that is refused the same list is posted in JSON for the same fork, and the
/// answer to that is the outcome.
pub proof fn a_publication_posts_its_list(
    signed_il: &SignedInclusionList,
    fork_name: ForkName,
    answers: Answers,
    posts: Seq<Post>,
)
    ensures
        ({
            let run = publication_run(
                PublishInclusionList::PostSsz(PostSsz { signed_il, fork_name }),
                answers,
                posts,
            );
            let ssz = posts.push(Post::Ssz(*signed_il, fork_name));
            &&& (answers.ssz)(*signed_il, fork_name) is Ok ==> run.0 == ssz && run.1 is Ok
            &&& (answers.ssz)(*signed_il, fork_name) is Err ==> {
                &&& run.0 == ssz.push(Post::Json(*signed_il, fork_name))
                &&& run.1 == (answers.json)(*signed_il, fork_name)
            }
        }),
{
    reveal_with_fuel(publication_run, 3);
}

/// What was asked of whom in the signing and publishing of a slot, and how it
/// ended.
#[verifier::ext_equal]
pub struct SlotRun {
    pub signings: Seq<(PublicKeyBytes, InclusionListView)>,
    pub posts: Seq<Post>,
    pub outcome: Result<(), Seq<char>>,
}

/// How far a task is from its end.
pub open spec fn stages_left(task: SignAndPublishView) -> nat {
    match task {
        SignAndPublishView::Sign(_) => 3,
        SignAndPublishView::ReadFork(_) => 2,
        SignAndPublishView::Publish(_) => 1,
        SignAndPublishView::Done(_) => 0,
    }
}

/// How many duties or lists are still to come up in the task's stage.
pub open spec fn items_left(task: SignAndPublishView) -> nat {
    match task {
        SignAndPublishView::Sign(signing) => if signing.next < signing.duties.len() {
            (signing.duties.len() - signing.next) as nat
        } else {
            0
        },
        SignAndPublishView::Publish(publishing) => if publishing.next < publishing.signed.len() {
            (publishing.signed.len() - publishing.next) as nat
        } else {
            0
        },
        _ => 0,
    }
}

/// The run of a task to its end; `signings` and `posts` were asked already.
pub open spec fn slot_run(
    task: SignAndPublishView,
    answers: Answers,
    signings: Seq<(PublicKeyBytes, InclusionListView)>,
    posts: Seq<Post>,
) -> SlotRun
    decreases stages_left(task), items_left(task),
{
    match task {
        SignAndPublishView::Sign(signing) => {
            let (pubkey, list) = signing.request();
            slot_run(
                signing.after((answers.sign)(pubkey, list)),
                answers,
                signings.push((pubkey, list)),
                posts,
            )
        },
        SignAndPublishView::ReadFork(read) => slot_run(
            read.after((answers.fork_at)(read.slot)),
            answers,
            signings,
            posts,
        ),
        SignAndPublishView::Publish(publishing) => {
            let publication = publication_run(
                PublishInclusionList::PostSsz(
                    PostSsz {
                        signed_il: &publishing.signed[publishing.next as int],
                        fork_name: publishing.fork_name,
                    },
                ),
                answers,
                posts,
            );
            slot_run(publishing.after(publication.1 is Ok), answers, signings, publication.0)
        },
        SignAndPublishView::Done(outcome) => SlotRun { signings, posts, outcome },
    }
}

/// What the key store is asked for a duty: to sign, with the duty's key, the
/// list of the duty's validator at the slot, on the shared root and with the
/// shared transactions.
pub open spec fn signing_for(
    slot: Slot,
    duty: InclusionListDuty,
    data: InclusionListData,
) -> (PublicKeyBytes, InclusionListView) {
    (
        duty.pubkey,
        InclusionListView {
            slot,
            validator_index: duty.validator_index,
            dependent_root: data.dependent_root,
            transactions: transaction_bytes(data.transactions.transactions@),
        },
    )
}

/// What the key store is asked for the first `n` duties.
pub open spec fn signings_for(
    slot: Slot,
    duties: Seq<InclusionListDuty>,
    data: InclusionListData,
    n: nat,
) -> Seq<(PublicKeyBytes, InclusionListView)> {
    Seq::new(n, |k: int| signing_for(slot, duties[k], data))
}

/// What the key store answers.
pub open spec fn signing_replies(
    signings: Seq<(PublicKeyBytes, InclusionListView)>,
    answers: Answers,
) -> Seq<Option<SignedInclusionList>> {
    Seq::new(signings.len(), |k: int| (answers.sign)(signings[k].0, signings[k].1))
}

/// What is posted for `signed`, list by list.
pub open spec fn all_posts(
    signed: Seq<SignedInclusionList>,
    fork_name: ForkName,
    answers: Answers,
) -> Seq<Post>
    decreases signed.len(),
{
    if signed.len() == 0 {
        Seq::empty()
    } else {
        all_posts(signed.drop_last(), fork_name, answers) + posts_of(
            signed.last(),
            fork_name,
            answers,
        )
    }
}

/// Which of `signed` are taken.
pub open spec fn all_taken(
    signed: Seq<SignedInclusionList>,
    fork_name: ForkName,
    answers: Answers,
) -> Seq<bool> {
    Seq::new(signed.len(), |k: int| taken(signed[k], fork_name, answers))
}

proof fn signing_goes_on(
    slot: Slot,
    duties: Seq<InclusionListDuty>,
    data: InclusionListData,
    answers: Answers,
    n: nat,
)
    requires
        n <= duties.len(),
    ensures
        ({
            let upto = signings_for(slot, duties, data, n);
            let all = signings_for(slot, duties, data, duties.len());
            slot_run(
                SigningView {
                    slot,
                    duties,
                    data,
                    next: n,
                    signed: signed_lists(signing_replies(upto, answers)),
                }.position(),
                answers,
                upto,
                Seq::empty(),
            ) == slot_run(
                SigningView {
                    slot,
                    duties,
                    data,
                    next: duties.len(),
                    signed: signed_lists(signing_replies(all, answers)),
                }.position(),
                answers,
                all,
                Seq::empty(),
            )
        }),
    decreases duties.len() - n,
{
    if n < duties.len() {
        signing_goes_on(slot, duties, data, answers, n + 1);
        let upto = signings_for(slot, duties, data, n);
        let more = signings_for(slot, duties, data, n + 1);
        let asked = signing_for(slot, duties[n as int], data);
        assert(more =~= upto.push(asked));
        assert(signing_replies(more, answers) =~= signing_replies(upto, answers).push(
            (answers.sign)(asked.0, asked.1),
        ));
        assert(signing_replies(more, answers).drop_last() =~= signing_replies(upto, answers));
    }
}

proof fn publishing_goes_on(
    signed: Seq<SignedInclusionList>,
    fork_name: ForkName,
    answers: Answers,
    signings: Seq<(PublicKeyBytes, InclusionListView)>,
    n: nat,
)
    requires
        n < signed.len(),
    ensures
        ({
            let run = slot_run(
                SignAndPublishView::Publish(
                    PublishingView {
                        fork_name,
                        signed,
                        next: n,
                        published: accepted_count(
                            all_taken(signed.take(n as int), fork_name, answers),
                        ),
                    },
                ),
                answers,
                signings,
                all_posts(signed.take(n as int), fork_name, answers),
            );
            &&& run.signings == signings
            &&& run.posts == all_posts(signed, fork_name, answers)
            &&& run.outcome == (if accepted_count(all_taken(signed, fork_name, answers)) > 0 {
                Ok(())
            } else {
                Err(
                    "Failed to publish any of the "@ + decimal(signed.len())
                        + " signed inclusion lists"@,
                )
            })
        }),
    decreases signed.len() - n,
{
    let before = signed.take(n as int);
    let upto = signed.take((n + 1) as int);
    assert(upto.drop_last() =~= before);
    assert(upto.last() == signed[n as int]);
    a_publication_posts_its_list(
        &signed[n as int],
        fork_name,
        answers,
        all_posts(before, fork_name, answers),
    );
    let ssz = Post::Ssz(signed[n as int], fork_name);
    let json = Post::Json(signed[n as int], fork_name);
    assert(all_posts(before, fork_name, answers).push(ssz) =~= all_posts(before, fork_name, answers)
        + seq![ssz]);
    assert(all_posts(before, fork_name, answers).push(ssz).push(json) =~= all_posts(
        before,
        fork_name,
        answers,
    ) + seq![ssz, json]);
    assert(all_taken(upto, fork_name, answers).drop_last() =~= all_taken(
        before,
        fork_name,
        answers,
    ));
    if n + 1 < signed.len() {
        publishing_goes_on(signed, fork_name, answers, signings, n + 1);
    } else {
        assert(upto =~= signed);
        reveal_with_fuel(slot_run, 2);
    }
}

proof fn some_were_taken(signed: Seq<SignedInclusionList>, fork_name: ForkName, answers: Answers)
    ensures
        accepted_count(all_taken(signed, fork_name, answers)) > 0 <==> exists|k: int|
            0 <= k < signed.len() && taken(#[trigger] signed[k], fork_name, answers),
    decreases signed.len(),
{
    if signed.len() > 0 {
        let before = signed.drop_last();
        some_were_taken(before, fork_name, answers);
        assert(all_taken(signed, fork_name, answers).drop_last() =~= all_taken(
            before,
            fork_name,
            answers,
        ));
        if exists|k: int| 0 <= k < before.len() && taken(#[trigger] before[k], fork_name, answers) {
            let k = choose|k: int|
                0 <= k < before.len() && taken(#[trigger] before[k], fork_name, answers);
            assert(taken(signed[k], fork_name, answers));
        }
        if taken(signed.last(), fork_name, answers) {
            assert(taken(signed[signed.len() - 1], fork_name, answers));
        }
        if exists|k: int| 0 <= k < signed.len() && taken(#[trigger] signed[k], fork_name, answers) {
            let k = choose|k: int|
                0 <= k < signed.len() && taken(#[trigger] signed[k], fork_name, answers);
            if k < before.len() {
                assert(taken(before[k], fork_name, answers));
            }
        }
    }
}

/// How the signing and publishing of a slot goes. The key store is asked once for
/// each duty, in order. The lists that it signed are posted in that order, for
/// the fork that the schedule has for the slot. The slot ends well where nothing
/// was signed or where the beacon nodes took one of the lists; else it ends with
/// the report that none of them could be published, and how many there were.
pub proof fn a_slot_is_signed_and_published(
    slot: Slot,
    duties: Seq<InclusionListDuty>,
    data: InclusionListData,
    answers: Answers,
)
    ensures
        ({
            let run = slot_run(
                first_position(slot, duties, data),
                answers,
                Seq::empty(),
                Seq::empty(),
            );
            let signed = signed_lists(signing_replies(run.signings, answers));
            let fork_name = (answers.fork_at)(slot);
            &&& run.signings == duties.map_values(
                |duty: InclusionListDuty|
                    (
                        duty.pubkey,
                        InclusionListView {
                            slot,
                            validator_index: duty.validator_index,
                            dependent_root: data.dependent_root,
                            transactions: transaction_bytes(data.transactions.transactions@),
                        },
                    ),
            )
            &&& run.posts == all_posts(signed, fork_name, answers)
            &&& run.outcome is Ok <==> signed.len() == 0 || exists|k: int|
                0 <= k < signed.len() && taken(#[trigger] signed[k], fork_name, answers)
            &&& run.outcome matches Err(message) ==> message == "Failed to publish any of the "@
                + decimal(signed.len()) + " signed inclusion lists"@
        }),
{
    let signings = signings_for(slot, duties, data, duties.len());
    let signed = signed_lists(signing_replies(signings, answers));
    let fork_name = (answers.fork_at)(slot);
    assert(signings_for(slot, duties, data, 0) =~= Seq::empty());
    assert(signed_lists(signing_replies(signings_for(slot, duties, data, 0), answers))
        =~= Seq::empty());
    signing_goes_on(slot, duties, data, answers, 0);
    if signed.len() > 0 {
        assert(signed.take(0) =~= Seq::empty());
        publishing_goes_on(signed, fork_name, answers, signings, 0);
        some_were_taken(signed, fork_name, answers);
    }
}

/// What a round does from its wait to its last publication. Where the clock shows
/// a slot after the sleep, a local validator has a duty at that slot and the
/// beacon nodes have transactions for it, the key store is asked for each of that
/// slot's duties, with that slot, the root of its duties and its transactions.
pub proof fn a_round_serves_the_slot_that_started(
    service: InclusionListService,
    clock: ClockReplies,
    found: DutiesAt,
    fetched: TransactionsAt,
    answers: Answers,
    slot: Slot,
)
    requires
        slot_to_produce(clock) == Some(slot),
        has_duty(found(slot)),
        fetched(slot) is Ok,
    ensures
        round_run(service, clock, found, fetched) matches InclusionListTasks::SpawnProducer(
            producer,
        ) && slot_run(
            first_position(producer.slot, producer.duties@, producer.data),
            answers,
            Seq::empty(),
            Seq::empty(),
        ).signings == found(slot).unwrap().1@.map_values(
            |duty: InclusionListDuty|
                (
                    duty.pubkey,
                    InclusionListView {
                        slot,
                        validator_index: duty.validator_index,
                        dependent_root: found(slot).unwrap().0,
                        transactions: transaction_bytes(fetched(slot).unwrap().transactions@),
                    },
                ),
        ),
{
    round_outcome(service, clock, found, fetched);
    a_slot_is_signed_and_published(
        slot,
        found(slot).unwrap().1@,
        InclusionListData {
            dependent_root: found(slot).unwrap().0,
            transactions: fetched(slot).unwrap(),
        },
        answers,
    );
}

} // verus!
