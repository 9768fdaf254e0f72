//! Signing the inclusion lists of a slot, then publishing those that were signed.

use vstd::prelude::*;
use vstd::string::StringExecFns;

use crate::inclusion_list_service::InclusionListService;
use crate::publish::{PostSsz, PublishInclusionList};
use crate::text::push_decimal;
use crate::types::{
    clone_transactions, ForkName, InclusionList, InclusionListData, InclusionListDuty,
    InclusionListView, PublicKeyBytes, SignedInclusionList, Slot,
};

verus! {

/// The signing and publishing of the inclusion lists of one slot. All duties
/// are signed for before the first list is published.
pub enum SignAndPublish {
    /// Waits for the key store's answer for one duty.
    Sign(Signing),
    /// Waits for the name of the fork at the slot.
    ReadFork(ReadFork),
    /// Waits for the outcome of one list's publication.
    Publish(Publishing),
    /// All is signed and published that could be, or nothing could be published.
    Done(Result<(), String>),
}

/// One duty of several is to be signed for.
pub struct Signing {
    slot: Slot,
    duties: Vec<InclusionListDuty>,
    data: InclusionListData,
    next: usize,
    signed: Vec<SignedInclusionList>,
}

/// The name of the fork at the slot is to be looked up.
pub struct ReadFork {
    slot: Slot,
    signed: Vec<SignedInclusionList>,
}

/// One signed list of several is to be published.
pub struct Publishing {
    fork_name: ForkName,
    signed: Vec<SignedInclusionList>,
    next: usize,
    published: usize,
}

/// What `Signing` stands for: duty `next` is to be signed for, and `signed`
/// are the lists signed so far.
pub struct SigningView {
    pub slot: Slot,
    pub duties: Seq<InclusionListDuty>,
    pub data: InclusionListData,
    pub next: nat,
    pub signed: Seq<SignedInclusionList>,
}

/// What `ReadFork` stands for.
pub struct ReadForkView {
    pub slot: Slot,
    pub signed: Seq<SignedInclusionList>,
}

/// What `Publishing` stands for: list `next` is to be published, and
/// `published` of those before it were.
pub struct PublishingView {
    pub fork_name: ForkName,
    pub signed: Seq<SignedInclusionList>,
    pub next: nat,
    pub published: nat,
}

/// What `SignAndPublish` stands for.
pub enum SignAndPublishView {
    Sign(SigningView),
    ReadFork(ReadForkView),
    Publish(PublishingView),
    Done(Result<(), Seq<char>>),
}

impl View for Signing {
    type V = SigningView;

    closed spec fn view(&self) -> SigningView {
        SigningView {
            slot: self.slot,
            duties: self.duties@,
            data: self.data,
            next: self.next as nat,
            signed: self.signed@,
        }
    }
}

impl View for ReadFork {
    type V = ReadForkView;

    closed spec fn view(&self) -> ReadForkView {
        ReadForkView { slot: self.slot, signed: self.signed@ }
    }
}

impl View for Publishing {
    type V = PublishingView;

    closed spec fn view(&self) -> PublishingView {
        PublishingView {
            fork_name: self.fork_name,
            signed: self.signed@,
            next: self.next as nat,
            published: self.published as nat,
        }
    }
}

impl View for SignAndPublish {
    type V = SignAndPublishView;

    open spec fn view(&self) -> SignAndPublishView {
        match self {
            SignAndPublish::Sign(task) => SignAndPublishView::Sign(task@),
            SignAndPublish::ReadFork(task) => SignAndPublishView::ReadFork(task@),
            SignAndPublish::Publish(task) => SignAndPublishView::Publish(task@),
            SignAndPublish::Done(Ok(_)) => SignAndPublishView::Done(Ok(())),
            SignAndPublish::Done(Err(message)) => SignAndPublishView::Done(Err(message@)),
        }
    }
}

/// The report of a slot of whose `total` signed lists none could be published.
pub open spec fn none_published_message(total: nat) -> Seq<char> {
    "Failed to publish any of the "@ + crate::text::decimal(total) + " signed inclusion lists"@
}

impl SigningView {
    /// The key to sign with, and the list to sign: duty `next`'s own validator,
    /// and what all lists of the slot share.
    pub open spec fn request(self) -> (PublicKeyBytes, InclusionListView) {
        let duty = self.duties[self.next as int];
        (
            duty.pubkey,
            InclusionListView {
                slot: self.slot,
                validator_index: duty.validator_index,
                dependent_root: self.data.dependent_root,
                transactions: crate::types::transaction_bytes(
                    self.data.transactions.transactions@,
                ),
            },
        )
    }

    /// What is to be done in this position: sign for duty `next`, or, past the
    /// last duty, publish what was signed, if anything was.
    pub open spec fn position(self) -> SignAndPublishView {
        if self.next < self.duties.len() {
            SignAndPublishView::Sign(self)
        } else if self.signed.len() == 0 {
            SignAndPublishView::Done(Ok(()))
        } else {
            SignAndPublishView::ReadFork(ReadForkView { slot: self.slot, signed: self.signed })
        }
    }

    /// What follows the key store's answer: a signed list is kept, a failure
    /// is passed over, and the next duty comes up.
    pub open spec fn after(self, reply: Option<SignedInclusionList>) -> SignAndPublishView {
        SigningView {
            next: self.next + 1,
            signed: match reply {
                Some(signed_il) => self.signed.push(signed_il),
                None => self.signed,
            },
            ..self
        }.position()
    }
}

impl ReadForkView {
    /// What follows the fork's name: the first list is to be published.
    pub open spec fn after(self, fork_name: ForkName) -> SignAndPublishView {
        SignAndPublishView::Publish(
            PublishingView { fork_name, signed: self.signed, next: 0, published: 0 },
        )
    }
}

impl PublishingView {
    /// How many lists are published once this one is accepted or refused.
    pub open spec fn published_after(self, accepted: bool) -> nat {
        if accepted {
            self.published + 1
        } else {
            self.published
        }
    }

    /// What follows one publication: the next list is to be published, or, past
    /// the last one, the slot fails where no list was published at all.
    pub open spec fn after(self, accepted: bool) -> SignAndPublishView {
        let published = self.published_after(accepted);
        if self.next + 1 < self.signed.len() {
            SignAndPublishView::Publish(PublishingView { next: self.next + 1, published, ..self })
        } else if published == 0 {
            SignAndPublishView::Done(Err(none_published_message(self.signed.len())))
        } else {
            SignAndPublishView::Done(Ok(()))
        }
    }
}

/// How the signing and publishing of a slot starts: with the first duty.
pub open spec fn first_position(
    slot: Slot,
    duties: Seq<InclusionListDuty>,
    data: InclusionListData,
) -> SignAndPublishView {
    SigningView { slot, duties, data, next: 0, signed: Seq::empty() }.position()
}

impl SignAndPublish {
    /// The signing and publishing for `duties` at `slot`.
    pub(crate) fn new(
        slot: Slot,
        duties: Vec<InclusionListDuty>,
        data: InclusionListData,
    ) -> (task: SignAndPublish)
        ensures
            task@ == first_position(slot, duties@, data),
            duties@.len() == 0 ==> task == SignAndPublish::Done(Ok(())),
            duties@.len() > 0 ==> task is Sign && task->Sign_0@ == (SigningView {
                slot,
                duties: duties@,
                data,
                next: 0,
                signed: Seq::empty(),
            }),
    {
        let signed: Vec<SignedInclusionList> = Vec::with_capacity(duties.len());
        if duties.len() == 0 {
            SignAndPublish::Done(Ok(()))
        } else {
            SignAndPublish::Sign(Signing { slot, duties, data, next: 0, signed })
        }
    }
}

impl Signing {
    #[verifier::type_invariant]
    spec fn has_duty(self) -> bool {
        self.next < self.duties@.len()
    }

    /// The duty to sign for, and the list to sign for it.
    pub fn request(&self) -> (request: (PublicKeyBytes, InclusionList))
        ensures
            self@.next < self@.duties.len(),
            (request.0, request.1@) == self@.request(),
            request.0 == self@.duties[self@.next as int].pubkey,
            request.1.slot == self@.slot,
            request.1.validator_index == self@.duties[self@.next as int].validator_index,
            request.1.dependent_root == self@.data.dependent_root,
            crate::types::same_transactions(
                request.1.transactions@,
                self@.data.transactions.transactions@,
            ),
    {
        proof {
            use_type_invariant(self);
        }
        let duty = self.duties[self.next];
        let inclusion_list = InclusionList {
            slot: self.slot,
            validator_index: duty.validator_index,
            dependent_root: self.data.dependent_root,
            transactions: clone_transactions(&self.data.transactions.transactions),
        };
        (duty.pubkey, inclusion_list)
    }

    /// Takes the key store's answer to the request.
    pub fn resume<E>(self, reply: Result<SignedInclusionList, E>) -> (task: SignAndPublish)
        ensures
            task@ == self@.after(
                match reply {
                    Ok(signed_il) => Some(signed_il),
                    Err(_) => None,
                },
            ),
            ({
                let signed = match reply {
                    Ok(signed_il) => self@.signed.push(signed_il),
                    Err(_) => self@.signed,
                };
                if self@.next + 1 < self@.duties.len() {
                    task matches SignAndPublish::Sign(signing) && signing@ == (SigningView {
                        next: self@.next + 1,
                        signed,
                        ..self@
                    })
                } else if signed.len() == 0 {
                    task == SignAndPublish::Done(Ok(()))
                } else {
                    task matches SignAndPublish::ReadFork(read) && read@ == (ReadForkView {
                        slot: self@.slot,
                        signed,
                    })
                }
            }),
    {
        proof {
            use_type_invariant(&self);
        }
        let Signing { slot, duties, data, next, signed } = self;
        let total: usize = duties.len();
        let mut signed = signed;
        match reply {
            Ok(signed_il) => {
                signed.push(signed_il);
            },
            Err(_) => {},
        }
        if next + 1 < total {
            SignAndPublish::Sign(Signing { slot, duties, data, next: next + 1, signed })
        } else if signed.len() == 0 {
            SignAndPublish::Done(Ok(()))
        } else {
            SignAndPublish::ReadFork(ReadFork { slot, signed })
        }
    }
}

impl ReadFork {
    #[verifier::type_invariant]
    spec fn has_list(self) -> bool {
        self.signed@.len() > 0
    }

    /// The slot whose fork is wanted.
    pub fn slot(&self) -> (slot: Slot)
        ensures
            slot == self@.slot,
    {
        self.slot
    }

    /// Takes the name of the fork at the slot.
    pub fn resume(self, fork_name: ForkName) -> (task: SignAndPublish)
        ensures
            task@ == self@.after(fork_name),
            task matches SignAndPublish::Publish(publishing) && publishing@ == (PublishingView {
                fork_name,
                signed: self@.signed,
                next: 0,
                published: 0,
            }),
    {
        proof {
            use_type_invariant(&self);
        }
        SignAndPublish::Publish(
            Publishing { fork_name, signed: self.signed, next: 0, published: 0 },
        )
    }
}

impl Publishing {
    #[verifier::type_invariant]
    spec fn has_list(self) -> bool {
        self.published <= self.next < self.signed@.len()
    }

    /// The list to publish.
    pub fn signed_il(&self) -> (signed_il: &SignedInclusionList)
        ensures
            self@.next < self@.signed.len(),
            *signed_il == self@.signed[self@.next as int],
    {
        proof {
            use_type_invariant(self);
        }
        &self.signed[self.next]
    }

    /// The publication to run: of that list, for the slot's fork.
    pub fn task<'a>(&'a self, service: &InclusionListService) -> (task: PublishInclusionList<'a>)
        ensures
            self@.next < self@.signed.len(),
            task == PublishInclusionList::PostSsz(
                PostSsz {
                    signed_il: &self@.signed[self@.next as int],
                    fork_name: self@.fork_name,
                },
            ),
    {
        service.publish_inclusion_list(self.signed_il(), self.fork_name)
    }

    /// How many lists there are to publish, this one and those published or
    /// refused before it among them.
    pub fn total(&self) -> (total: usize)
        ensures
            total == self@.signed.len(),
    {
        self.signed.len()
    }

    /// How many lists are published, given the outcome of this one's publication.
    pub fn published_after<E>(&self, outcome: &Result<(), E>) -> (published: usize)
        ensures
            published == self@.published_after(outcome is Ok),
            published == self@.published + if outcome is Ok {
                1int
            } else {
                0int
            },
    {
        proof {
            use_type_invariant(self);
        }
        let total: usize = self.signed.len();
        assert(self.published < total);
        match outcome {
            Ok(_) => self.published + 1,
            Err(_) => self.published,
        }
    }

    /// Takes the outcome of the list's publication.
    pub fn resume<E>(self, outcome: Result<(), E>) -> (task: SignAndPublish)
        ensures
            task@ == self@.after(outcome is Ok),
            ({
                let published = if outcome is Ok {
                    self@.published + 1
                } else {
                    self@.published
                };
                if self@.next + 1 < self@.signed.len() {
                    task matches SignAndPublish::Publish(publishing) && publishing@ == (
                    PublishingView { next: self@.next + 1, published, ..self@ })
                } else if published > 0 {
                    task == SignAndPublish::Done(Ok(()))
                } else {
                    task matches SignAndPublish::Done(Err(message)) && message@
                        == "Failed to publish any of the "@ + crate::text::decimal(
                        self@.signed.len(),
                    ) + " signed inclusion lists"@
                }
            }),
    {
        proof {
            use_type_invariant(&self);
        }
        let total: usize = self.total();
        let published: usize = self.published_after(&outcome);
        let Publishing { fork_name, signed, next, .. } = self;
        if next + 1 < total {
            SignAndPublish::Publish(Publishing { fork_name, signed, next: next + 1, published })
        } else if published == 0 {
            let mut message = String::new();
            message.append("Failed to publish any of the ");
            push_decimal(&mut message, total as u64);
            message.append(" signed inclusion lists");
            assert(message@ =~= none_published_message(signed@.len()));
            SignAndPublish::Done(Err(message))
        } else {
            SignAndPublish::Done(Ok(()))
        }
    }
}

} // verus!
