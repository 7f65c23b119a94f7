//! Finalization of a proposal whose results are committed.

use crate::address::{array_eq, Address};
use crate::errors::GovernanceError;
use crate::instructions::authorize;
use crate::state::{OrganizationAccount, ProposalAccount, ProposalResultsAccount, ProposalStatus};
use vstd::prelude::*;

verus! {

/// What a finalization touches.
#[derive(Debug)]
pub struct FinalizeProposal {
    /// The proposal to seal.
    pub proposal: ProposalAccount,
    /// Its committed results.
    pub results: ProposalResultsAccount,
    /// The proposal's parent organization.
    pub organization: OrganizationAccount,
    /// The caller.
    pub authority: Address,
}

/// Why a finalization is rejected, if it is: the guard first, then the
/// proposal's status, then the link from the results to the proposal.
pub open spec fn rejection(
    proposal: ProposalAccount,
    results: ProposalResultsAccount,
    organization: OrganizationAccount,
    caller: Address,
) -> Option<GovernanceError> {
    if organization.authority != caller {
        Some(GovernanceError::Unauthorized)
    } else if proposal.status != ProposalStatus::Closed {
        Some(GovernanceError::ProposalNotClosedForFinalization)
    } else if results.proposal_id != proposal.proposal_id {
        Some(GovernanceError::ResultsNotFound)
    } else {
        None
    }
}

/// The proposal after it was finalized at time `now`.
pub open spec fn sealed_proposal(proposal: ProposalAccount, now: i64) -> ProposalAccount {
    ProposalAccount { status: ProposalStatus::Finalized, updated_at: now, ..proposal }
}

/// The results after they were finalized at time `now`.
pub open spec fn sealed_results(results: ProposalResultsAccount, now: i64) -> ProposalResultsAccount {
    ProposalResultsAccount { finalized_at: Some(now), ..results }
}

/// Seals a closed proposal and its results in one step: the proposal
/// becomes `Finalized`, the results get their time of finalization, and
/// nothing else changes. A rejected request changes nothing.
pub fn handler(ctx: &mut FinalizeProposal, now: i64) -> (r: Result<(), GovernanceError>)
    ensures
        match rejection(old(ctx).proposal, old(ctx).results, old(ctx).organization, old(ctx).authority) {
            Some(e) => r == Err::<(), GovernanceError>(e) && *final(ctx) == *old(ctx),
            None => {
                &&& r == Ok::<(), GovernanceError>(())
                &&& final(ctx).proposal == sealed_proposal(old(ctx).proposal, now)
                &&& final(ctx).results == sealed_results(old(ctx).results, now)
                &&& final(ctx).organization == old(ctx).organization
                &&& final(ctx).authority == old(ctx).authority
                &&& (old(ctx).proposal.wf() ==> final(ctx).proposal.wf())
            },
        },
{
    if authorize(&ctx.organization, &ctx.authority).is_err() {
        return Err(GovernanceError::Unauthorized);
    }
    if ctx.proposal.status != ProposalStatus::Closed {
        return Err(GovernanceError::ProposalNotClosedForFinalization);
    }
    if !array_eq(&ctx.results.proposal_id, &ctx.proposal.proposal_id) {
        return Err(GovernanceError::ResultsNotFound);
    }
    ctx.proposal.status = ProposalStatus::Finalized;
    ctx.proposal.updated_at = now;
    ctx.results.finalized_at = Some(now);
    Ok(())
}

} // verus!
