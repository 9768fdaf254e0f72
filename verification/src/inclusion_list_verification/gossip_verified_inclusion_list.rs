//! Inclusion lists that came over gossip.

use std::sync::Arc;

use vstd::prelude::*;

use crate::chain_spec::ChainSpec;
use crate::inclusion_list_verification::InclusionListVerificationError;
use crate::types::SignedInclusionList;

verus! {

/// What the verification of a gossiped inclusion list can consult.
pub struct GossipVerificationContext<'a, C> {
    pub slot_clock: &'a C,
    pub spec: &'a ChainSpec,
}

/// A gossiped inclusion list that was verified.
#[derive(Debug)]
pub struct GossipVerifiedInclusionList {
    pub signed_inclusion_list: Arc<SignedInclusionList>,
}

impl GossipVerifiedInclusionList {
    /// Verifies a gossiped inclusion list. No condition is laid on it yet: every
    /// list is accepted as it is, whatever the context.
    pub fn new<C>(
        signed_inclusion_list: Arc<SignedInclusionList>,
        _ctx: &GossipVerificationContext<'_, C>,
    ) -> (verified: Result<Self, InclusionListVerificationError>)
        ensures
            verified == Ok::<Self, InclusionListVerificationError>(
                GossipVerifiedInclusionList { signed_inclusion_list },
            ),
    {
        Ok(GossipVerifiedInclusionList { signed_inclusion_list })
    }
}

/// The part of a beacon chain that gossip verification consults.
pub struct BeaconChain<C> {
    pub slot_clock: C,
    pub spec: ChainSpec,
}

impl<C> BeaconChain<C> {
    /// The chain's own clock and constants.
    pub fn inclusion_list_gossip_verification_context(&self) -> (ctx: GossipVerificationContext<
        '_,
        C,
    >)
        ensures
            *ctx.slot_clock == self.slot_clock,
            *ctx.spec == self.spec,
    {
        GossipVerificationContext { slot_clock: &self.slot_clock, spec: &self.spec }
    }

    /// Verifies a gossiped inclusion list against this chain.
    pub fn verify_inclusion_list_for_gossip(
        &self,
        signed_inclusion_list: Arc<SignedInclusionList>,
    ) -> (verified: Result<GossipVerifiedInclusionList, InclusionListVerificationError>)
        ensures
            verified == Ok::<GossipVerifiedInclusionList, InclusionListVerificationError>(
                GossipVerifiedInclusionList { signed_inclusion_list },
            ),
    {
        let ctx = self.inclusion_list_gossip_verification_context();
        match GossipVerifiedInclusionList::new(signed_inclusion_list, &ctx) {
            Ok(verified) => Ok(verified),
            Err(e) => Err(e),
        }
    }
}

} // verus!
