//! Publishing one signed inclusion list: SSZ first, JSON as the fallback.

use vstd::prelude::*;
use vstd::string::StringExecFns;

use crate::types::{ForkName, SignedInclusionList};

verus! {

/// How an inclusion list is encoded in a request to a beacon node.
#[derive(Clone, Copy, Debug, PartialEq, Eq)]
pub enum Encoding {
    Ssz,
    Json,
}

impl Encoding {
    /// What a beacon node's refusal is reported as.
    pub open spec fn refusal(self, detail: Seq<char>) -> Seq<char> {
        match self {
            Encoding::Ssz => "Failed to publish inclusion list (SSZ): "@ + detail,
            Encoding::Json => "Failed to publish inclusion list (JSON): "@ + detail,
        }
    }

    /// What a beacon node's refusal is reported as, given its own account of it.
    pub fn refusal_message(self, detail: &str) -> (message: String)
        ensures
            message@ == self.refusal(detail@),
            self is Ssz ==> message@ == "Failed to publish inclusion list (SSZ): "@ + detail@,
            self is Json ==> message@ == "Failed to publish inclusion list (JSON): "@ + detail@,
    {
        let mut message = String::new();
        match self {
            Encoding::Ssz => {
                message.append("Failed to publish inclusion list (SSZ): ");
            },
            Encoding::Json => {
                message.append("Failed to publish inclusion list (JSON): ");
            },
        }
        message.append(detail);
        message
    }
}

/// A refusal's report names the encoding that was refused and then gives the
/// beacon node's account in full.
pub proof fn a_refusal_names_its_encoding(detail: Seq<char>)
    ensures
        Encoding::Ssz.refusal(detail) == "Failed to publish inclusion list (SSZ): "@ + detail,
        Encoding::Json.refusal(detail) == "Failed to publish inclusion list (JSON): "@ + detail,
{
}

/// The publication of one signed inclusion list.
pub enum PublishInclusionList<'a> {
    /// Waits for the beacon nodes' answer to the SSZ request.
    PostSsz(PostSsz<'a>),
    /// Waits for the beacon nodes' answer to the JSON request.
    PostJson(PostJson<'a>),
    /// Published, or refused in both encodings, with the account of the last refusal.
    Done(Result<(), String>),
}

/// `signed_il` is to be posted as SSZ.
pub struct PostSsz<'a> {
    pub signed_il: &'a SignedInclusionList,
    pub fork_name: ForkName,
}

/// `signed_il` is to be posted as JSON.
pub struct PostJson<'a> {
    pub signed_il: &'a SignedInclusionList,
    pub fork_name: ForkName,
}

impl<'a> PostSsz<'a> {
    /// What follows the beacon nodes' answer: nothing more where one of them
    /// took the list, the JSON request of the same list otherwise.
    pub open spec fn next<E>(self, reply: Result<(), E>) -> PublishInclusionList<'a> {
        match reply {
            Ok(_) => PublishInclusionList::Done(Ok(())),
            Err(_) => PublishInclusionList::PostJson(
                PostJson { signed_il: self.signed_il, fork_name: self.fork_name },
            ),
        }
    }

    /// Takes the beacon nodes' answer to the SSZ request.
    pub fn resume<E>(self, reply: Result<(), E>) -> (task: PublishInclusionList<'a>)
        ensures
            task == self.next(reply),
            reply is Ok ==> task == PublishInclusionList::<'a>::Done(Ok(())),
            reply is Err ==> task == PublishInclusionList::PostJson(
                PostJson { signed_il: self.signed_il, fork_name: self.fork_name },
            ),
    {
        match reply {
            Ok(()) => PublishInclusionList::Done(Ok(())),
            Err(_) => PublishInclusionList::PostJson(
                PostJson { signed_il: self.signed_il, fork_name: self.fork_name },
            ),
        }
    }
}

impl<'a> PostJson<'a> {
    /// What follows the beacon nodes' answer: their answer is the outcome.
    pub open spec fn next(self, reply: Result<(), String>) -> PublishInclusionList<'a> {
        PublishInclusionList::Done(reply)
    }

    /// Takes the beacon nodes' answer to the JSON request.
    pub fn resume(self, reply: Result<(), String>) -> (task: PublishInclusionList<'a>)
        ensures
            task == self.next(reply),
            task == PublishInclusionList::<'a>::Done(reply),
    {
        PublishInclusionList::Done(reply)
    }
}

/// The outcome of a publication whose requests would be answered by `ssz` and
/// `json`.
pub open spec fn publish_outcome<E>(
    task: PublishInclusionList<'_>,
    ssz: Result<(), E>,
    json: Result<(), String>,
) -> Result<(), String> {
    match task {
        PublishInclusionList::PostSsz(post) => match post.next(ssz) {
            PublishInclusionList::PostJson(post) => match post.next(json) {
                PublishInclusionList::Done(outcome) => outcome,
                _ => arbitrary(),
            },
            PublishInclusionList::Done(outcome) => outcome,
            _ => arbitrary(),
        },
        PublishInclusionList::PostJson(post) => match post.next(json) {
            PublishInclusionList::Done(outcome) => outcome,
            _ => arbitrary(),
        },
        PublishInclusionList::Done(outcome) => outcome,
    }
}

/// A publication succeeds where either encoding is accepted, and only there;
/// where neither is, it reports what the JSON request met with.
pub proof fn published_in_either_encoding<E>(
    post: PostSsz<'_>,
    ssz: Result<(), E>,
    json: Result<(), String>,
)
    ensures
        ({
            let outcome = publish_outcome(PublishInclusionList::PostSsz(post), ssz, json);
            &&& outcome is Ok <==> ssz is Ok || json is Ok
            &&& outcome is Err ==> outcome == json
        }),
{
}

/// The JSON request is made exactly where the SSZ request failed, and then of
/// the same list for the same fork.
pub proof fn json_only_after_ssz_failed<E>(post: PostSsz<'_>, ssz: Result<(), E>)
    ensures
        ssz is Ok <==> post.next(ssz) == PublishInclusionList::<'_>::Done(Ok(())),
        ssz is Err <==> post.next(ssz) is PostJson,
        post.next(ssz) matches PublishInclusionList::PostJson(json) ==> json.signed_il
            == post.signed_il && json.fork_name == post.fork_name,
{
}

} // verus!
