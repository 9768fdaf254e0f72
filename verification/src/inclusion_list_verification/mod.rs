//! Verifying the inclusion lists that a beacon node receives.

use std::sync::Arc;

use vstd::prelude::*;
use vstd::string::StringExecFns;

use crate::text::push_decimal;
use crate::types::Slot;

pub mod gossip_verified_inclusion_list;

verus! {

/// A failure of the beacon chain, in the words of its debug representation.
#[derive(PartialEq, Eq)]
pub struct BeaconChainError {
    pub account: String,
}

/// A failure of a beacon state, in the words of its debug representation.
#[derive(PartialEq, Eq)]
pub struct BeaconStateError {
    pub account: String,
}

/// Why an inclusion list is not accepted. Its one text, for users and for logs
/// alike, is that of `to_string`.
pub enum InclusionListVerificationError {
    /// Two valid inclusion lists were already seen from this validator for this slot.
    AlreadySeenTwice { validator_index: u64, slot: Slot },
    /// The slot clock cannot be read.
    UnableToReadSlot,
    /// The beacon chain failed.
    BeaconChainError(Arc<BeaconChainError>),
    /// The beacon state failed.
    BeaconStateError(BeaconStateError),
}

impl InclusionListVerificationError {
    /// The error in words: the variant's name and what it holds.
    pub open spec fn words(self) -> Seq<char> {
        match self {
            InclusionListVerificationError::AlreadySeenTwice { validator_index, slot } => {
                "AlreadySeenTwice { validator_index: "@ + crate::text::decimal(
                    validator_index as nat,
                ) + ", slot: Slot("@ + crate::text::decimal(slot.0 as nat) + ") }"@
            },
            InclusionListVerificationError::UnableToReadSlot => "UnableToReadSlot"@,
            InclusionListVerificationError::BeaconChainError(e) => {
                "BeaconChainError("@ + e.account@ + ")"@
            },
            InclusionListVerificationError::BeaconStateError(e) => {
                "BeaconStateError("@ + e.account@ + ")"@
            },
        }
    }

    /// The error in words.
    pub fn to_string(&self) -> (words: String)
        ensures
            words@ == self.words(),
            self matches InclusionListVerificationError::AlreadySeenTwice { validator_index, slot }
                ==> words@ == "AlreadySeenTwice { validator_index: "@ + crate::text::decimal(
                *validator_index as nat,
            ) + ", slot: Slot("@ + crate::text::decimal(slot.0 as nat) + ") }"@,
            self is UnableToReadSlot ==> words@ == "UnableToReadSlot"@,
            self matches InclusionListVerificationError::BeaconChainError(e) ==> words@
                == "BeaconChainError("@ + e.account@ + ")"@,
            self matches InclusionListVerificationError::BeaconStateError(e) ==> words@
                == "BeaconStateError("@ + e.account@ + ")"@,
    {
        let mut words = String::new();
        match self {
            InclusionListVerificationError::AlreadySeenTwice { validator_index, slot } => {
                words.append("AlreadySeenTwice { validator_index: ");
                push_decimal(&mut words, *validator_index);
                words.append(", slot: Slot(");
                push_decimal(&mut words, slot.0);
                words.append(") }");
            },
            InclusionListVerificationError::UnableToReadSlot => {
                words.append("UnableToReadSlot");
            },
            InclusionListVerificationError::BeaconChainError(e) => {
                words.append("BeaconChainError(");
                words.append(e.account.as_str());
                words.append(")");
            },
            InclusionListVerificationError::BeaconStateError(e) => {
                words.append("BeaconStateError(");
                words.append(e.account.as_str());
                words.append(")");
            },
        }
        assert(words@ =~= self.words());
        words
    }
}

impl From<BeaconChainError> for InclusionListVerificationError {
    fn from(e: BeaconChainError) -> (error: Self) {
        InclusionListVerificationError::BeaconChainError(Arc::new(e))
    }
}

impl vstd::std_specs::convert::FromSpecImpl<BeaconChainError> for InclusionListVerificationError {
    open spec fn obeys_from_spec() -> bool {
        true
    }

    open spec fn from_spec(e: BeaconChainError) -> Self {
        InclusionListVerificationError::BeaconChainError(Arc::new(e))
    }
}

impl From<BeaconStateError> for InclusionListVerificationError {
    fn from(e: BeaconStateError) -> (error: Self) {
        InclusionListVerificationError::BeaconStateError(e)
    }
}

impl vstd::std_specs::convert::FromSpecImpl<BeaconStateError> for InclusionListVerificationError {
    open spec fn obeys_from_spec() -> bool {
        true
    }

    open spec fn from_spec(e: BeaconStateError) -> Self {
        InclusionListVerificationError::BeaconStateError(e)
    }
}

/// The words of an error are the name of its variant, with the number of the
/// validator and that of the slot, or the failure's own account, in full.
pub proof fn words_of_each_error(
    validator_index: u64,
    slot: Slot,
    chain: Arc<BeaconChainError>,
    state: BeaconStateError,
)
    ensures
        (InclusionListVerificationError::AlreadySeenTwice { validator_index, slot }).words()
            == "AlreadySeenTwice { validator_index: "@ + crate::text::decimal(
            validator_index as nat,
        ) + ", slot: Slot("@ + crate::text::decimal(slot.0 as nat) + ") }"@,
        InclusionListVerificationError::UnableToReadSlot.words() == "UnableToReadSlot"@,
        InclusionListVerificationError::BeaconChainError(chain).words() == "BeaconChainError("@
            + chain.account@ + ")"@,
        InclusionListVerificationError::BeaconStateError(state).words() == "BeaconStateError("@
            + state.account@ + ")"@,
{
}

/// A failure of the chain or of a state becomes the variant of that name, and
/// is held there as it was.
pub proof fn failures_are_held_as_they_were(chain: BeaconChainError, state: BeaconStateError)
    ensures
        <InclusionListVerificationError as vstd::std_specs::convert::FromSpec<
            BeaconChainError,
        >>::obeys_from_spec(),
        <InclusionListVerificationError as vstd::std_specs::convert::FromSpec<
            BeaconStateError,
        >>::obeys_from_spec(),
        <InclusionListVerificationError as vstd::std_specs::convert::FromSpec<
            BeaconChainError,
        >>::from_spec(chain) matches InclusionListVerificationError::BeaconChainError(e) && *e
            == chain,
        <InclusionListVerificationError as vstd::std_specs::convert::FromSpec<
            BeaconStateError,
        >>::from_spec(state) matches InclusionListVerificationError::BeaconStateError(e) && e
            == state,
{
}

} // verus!
