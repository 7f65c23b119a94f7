//! Commitment of the outcome of a vote.

use crate::address::Address;
use crate::errors::GovernanceError;
use crate::instructions::authorize;
use crate::state::{OrganizationAccount, ProposalAccount, ProposalResultsAccount, ProposalStatus};
use vstd::prelude::*;

verus! {

/// What a commitment touches.
#[derive(Debug)]
pub struct CommitVoteResults {
    /// The record to fill.
    pub results: ProposalResultsAccount,
    /// The proposal that was voted on.
    pub proposal: ProposalAccount,
    /// Its parent organization.
    pub organization: OrganizationAccount,
    /// The caller.
    pub authority: Address,
    /// Bump seed of the results record's address.
    pub bump: u8,
}

/// Why a commitment is rejected, if it is: the guard first, then the
/// proposal's status.
pub open spec fn rejection(
    proposal: ProposalAccount,
    organization: OrganizationAccount,
    caller: Address,
) -> Option<GovernanceError> {
    if organization.authority != caller {
        Some(GovernanceError::Unauthorized)
    } else if proposal.status != ProposalStatus::Closed {
        Some(GovernanceError::ProposalNotClosed)
    } else {
        None
    }
}

/// The results record as it is first written.
pub open spec fn new_results(
    proposal_id: [u8; 16],
    bump: u8,
    now: i64,
    results_hash: [u8; 32],
    winning_option_id: Option<[u8; 16]>,
    total_votes_cast: u64,
    quorum_met: bool,
) -> ProposalResultsAccount {
    ProposalResultsAccount {
        proposal_id,
        results_hash,
        winning_option_id,
        total_votes_cast,
        quorum_met,
        closed_at: now,
        finalized_at: None,
        bump,
    }
}

/// Fills the results record of a closed proposal with what the caller
/// asserts, stamped with `now` and not yet finalized. The proposal itself
/// does not change. A rejected request changes nothing.
pub fn handler(
    ctx: &mut CommitVoteResults,
    now: i64,
    results_hash: [u8; 32],
    winning_option_id: Option<[u8; 16]>,
    total_votes_cast: u64,
    quorum_met: bool,
) -> (r: Result<(), GovernanceError>)
    ensures
        match rejection(old(ctx).proposal, old(ctx).organization, old(ctx).authority) {
            Some(e) => r == Err::<(), GovernanceError>(e) && *final(ctx) == *old(ctx),
            None => {
                &&& r == Ok::<(), GovernanceError>(())
                &&& final(ctx).results == new_results(
                    old(ctx).proposal.proposal_id,
                    old(ctx).bump,
                    now,
                    results_hash,
                    winning_option_id,
                    total_votes_cast,
                    quorum_met,
                )
                &&& final(ctx).proposal == old(ctx).proposal
                &&& final(ctx).organization == old(ctx).organization
                &&& final(ctx).authority == old(ctx).authority
                &&& final(ctx).bump == old(ctx).bump
            },
        },
{
    if authorize(&ctx.organization, &ctx.authority).is_err() {
        return Err(GovernanceError::Unauthorized);
    }
    if ctx.proposal.status != ProposalStatus::Closed {
        return Err(GovernanceError::ProposalNotClosed);
    }
    ctx.results.proposal_id = ctx.proposal.proposal_id;
    ctx.results.results_hash = results_hash;
    ctx.results.winning_option_id = winning_option_id;
    ctx.results.total_votes_cast = total_votes_cast;
    ctx.results.quorum_met = quorum_met;
    ctx.results.closed_at = now;
    ctx.results.finalized_at = None;
    ctx.results.bump = ctx.bump;
    Ok(())
}

} // verus!
