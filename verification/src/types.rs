//! The values that make up an inclusion list.

use vstd::prelude::*;

verus! {

/// A slot number.
#[derive(Clone, Copy, Debug, PartialEq, Eq)]
pub struct Slot(pub u64);

/// A 32-byte root.
#[derive(Clone, Copy, Debug, PartialEq, Eq)]
pub struct Hash256(pub [u8; 32]);

/// The block root that a set of duties was computed from.
pub type DependentRoot = Hash256;

/// A compressed public key.
#[derive(Clone, Copy, Debug, PartialEq, Eq)]
pub struct PublicKeyBytes(pub [u8; 48]);

/// A compressed signature.
#[derive(Clone, Copy, Debug, PartialEq, Eq)]
pub struct Signature(pub [u8; 96]);

/// The forks of the chain, oldest first.
#[derive(Clone, Copy, Debug, PartialEq, Eq)]
pub enum ForkName {
    Base,
    Altair,
    Bellatrix,
    Capella,
    Deneb,
    Electra,
    Fulu,
    Gloas,
    Heze,
}

impl ForkName {
    /// Whether inclusion lists exist at this fork: Heze brings them in.
    pub fn heze_enabled(self) -> (enabled: bool)
        ensures
            enabled == (self is Heze),
    {
        match self {
            ForkName::Heze => true,
            _ => false,
        }
    }
}

/// One local validator's place in the inclusion list committee of a slot.
#[derive(Clone, Copy, Debug, PartialEq, Eq)]
pub struct InclusionListDuty {
    pub pubkey: PublicKeyBytes,
    pub validator_index: u64,
    pub slot: Slot,
    pub inclusion_list_committee_root: Hash256,
}

/// The bytes of each transaction, in order.
pub open spec fn transaction_bytes(transactions: Seq<Vec<u8>>) -> Seq<Seq<u8>> {
    Seq::new(transactions.len(), |i: int| transactions[i]@)
}

/// Whether `a` and `b` hold the same transactions, byte for byte.
pub open spec fn same_transactions(a: Seq<Vec<u8>>, b: Seq<Vec<u8>>) -> bool {
    &&& a.len() == b.len()
    &&& forall|i: int| 0 <= i < a.len() ==> (#[trigger] a[i])@ == b[i]@
}

/// Two lists of transactions have the same bytes exactly where each transaction
/// of the one has the bytes of the other's at its place.
pub proof fn same_bytes_same_transactions(a: Seq<Vec<u8>>, b: Seq<Vec<u8>>)
    ensures
        transaction_bytes(a) == transaction_bytes(b) <==> same_transactions(a, b),
        transaction_bytes(a).len() == a.len(),
        forall|i: int| 0 <= i < a.len() ==> #[trigger] transaction_bytes(a)[i] == a[i]@,
{
    if transaction_bytes(a) == transaction_bytes(b) {
        assert(transaction_bytes(a).len() == transaction_bytes(b).len());
        assert forall|i: int| 0 <= i < a.len() implies (#[trigger] a[i])@ == b[i]@ by {
            assert(transaction_bytes(a)[i] == transaction_bytes(b)[i]);
        }
    }
    if same_transactions(a, b) {
        assert(transaction_bytes(a) =~= transaction_bytes(b));
    }
}

/// A copy of `transactions`, byte for byte.
pub fn clone_transactions(transactions: &Vec<Vec<u8>>) -> (copy: Vec<Vec<u8>>)
    ensures
        transaction_bytes(copy@) == transaction_bytes(transactions@),
        copy@.len() == transactions@.len(),
        forall|i: int|
            0 <= i < transactions@.len() ==> (#[trigger] copy@[i])@ == transactions@[i]@,
{
    let mut copy: Vec<Vec<u8>> = Vec::with_capacity(transactions.len());
    for i in 0..transactions.len()
        invariant
            copy@.len() == i,
            forall|j: int| 0 <= j < i ==> (#[trigger] copy@[j])@ == transactions@[j]@,
    {
        let transaction = transactions[i].clone();
        assert(transaction@ == transactions@[i as int]@);
        copy.push(transaction);
    }
    copy
}

/// The transactions that a beacon node proposes for an inclusion list.
#[derive(Debug, PartialEq, Eq)]
pub struct InclusionListTransactions {
    pub transactions: Vec<Vec<u8>>,
}

impl Clone for InclusionListTransactions {
    fn clone(&self) -> (copy: Self)
        ensures
            transaction_bytes(copy.transactions@) == transaction_bytes(self.transactions@),
            same_transactions(copy.transactions@, self.transactions@),
    {
        InclusionListTransactions { transactions: clone_transactions(&self.transactions) }
    }
}

/// An inclusion list of one committee member.
#[derive(Debug, PartialEq, Eq)]
pub struct InclusionList {
    pub slot: Slot,
    pub validator_index: u64,
    pub dependent_root: Hash256,
    pub transactions: Vec<Vec<u8>>,
}

/// What an inclusion list says.
pub struct InclusionListView {
    pub slot: Slot,
    pub validator_index: u64,
    pub dependent_root: Hash256,
    pub transactions: Seq<Seq<u8>>,
}

impl View for InclusionList {
    type V = InclusionListView;

    open spec fn view(&self) -> InclusionListView {
        InclusionListView {
            slot: self.slot,
            validator_index: self.validator_index,
            dependent_root: self.dependent_root,
            transactions: transaction_bytes(self.transactions@),
        }
    }
}

/// Inclusion lists say the same exactly where they agree in all that they hold.
pub proof fn lists_say_what_they_hold(a: InclusionList, b: InclusionList)
    ensures
        a@ == b@ <==> {
            &&& a.slot == b.slot
            &&& a.validator_index == b.validator_index
            &&& a.dependent_root == b.dependent_root
            &&& same_transactions(a.transactions@, b.transactions@)
        },
{
    same_bytes_same_transactions(a.transactions@, b.transactions@);
}

impl Clone for InclusionList {
    fn clone(&self) -> (copy: Self)
        ensures
            copy@ == self@,
            copy.slot == self.slot,
            copy.validator_index == self.validator_index,
            copy.dependent_root == self.dependent_root,
            same_transactions(copy.transactions@, self.transactions@),
    {
        InclusionList {
            slot: self.slot,
            validator_index: self.validator_index,
            dependent_root: self.dependent_root,
            transactions: clone_transactions(&self.transactions),
        }
    }
}

/// An inclusion list and its author's signature.
#[derive(Debug, PartialEq, Eq)]
pub struct SignedInclusionList {
    pub message: InclusionList,
    pub signature: Signature,
}

impl Clone for SignedInclusionList {
    fn clone(&self) -> (copy: Self)
        ensures
            copy.message@ == self.message@,
            copy.message.slot == self.message.slot,
            copy.message.validator_index == self.message.validator_index,
            copy.message.dependent_root == self.message.dependent_root,
            same_transactions(copy.message.transactions@, self.message.transactions@),
            copy.signature == self.signature,
    {
        SignedInclusionList { message: self.message.clone(), signature: self.signature }
    }
}

/// What all inclusion lists of one slot share.
#[derive(Debug, PartialEq, Eq)]
pub struct InclusionListData {
    pub dependent_root: DependentRoot,
    pub transactions: InclusionListTransactions,
}

impl Clone for InclusionListData {
    fn clone(&self) -> (copy: Self)
        ensures
            copy.dependent_root == self.dependent_root,
            transaction_bytes(copy.transactions.transactions@) == transaction_bytes(
                self.transactions.transactions@,
            ),
            same_transactions(
                copy.transactions.transactions@,
                self.transactions.transactions@,
            ),
    {
        InclusionListData {
            dependent_root: self.dependent_root,
            transactions: self.transactions.clone(),
        }
    }
}

} // verus!
