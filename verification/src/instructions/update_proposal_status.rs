//! The generic status update of a proposal.

use crate::address::Address;
use crate::errors::GovernanceError;
use crate::instructions::authorize;
use crate::state::{check_transition, transition_outcome, OrganizationAccount, ProposalAccount, ProposalStatus};
use vstd::prelude::*;

verus! {

/// What a status update touches.
#[derive(Debug)]
pub struct UpdateProposalStatus {
    /// The proposal to move.
    pub proposal: ProposalAccount,
    /// Its parent organization.
    pub organization: OrganizationAccount,
    /// The caller.
    pub authority: Address,
}

/// What a request to move `proposal` to `new_status` meets: the guard
/// first, then the transition table.
pub open spec fn outcome(
    proposal: ProposalAccount,
    organization: OrganizationAccount,
    caller: Address,
    new_status: ProposalStatus,
) -> Result<(), GovernanceError> {
    if organization.authority != caller {
        Err(GovernanceError::Unauthorized)
    } else {
        transition_outcome(proposal.status, new_status, proposal.start_at, proposal.end_at)
    }
}

/// The proposal after it moved to `new_status` at time `now`.
pub open spec fn moved(proposal: ProposalAccount, new_status: ProposalStatus, now: i64) -> ProposalAccount {
    ProposalAccount { status: new_status, updated_at: now, ..proposal }
}

/// Moves the proposal to `new_status` where the caller is authorized and the
/// transition table allows the step; then only the status and the time of
/// the last update change. A rejected request changes nothing.
pub fn handler(ctx: &mut UpdateProposalStatus, now: i64, new_status: ProposalStatus) -> (r: Result<
    (),
    GovernanceError,
>)
    ensures
        r == outcome(old(ctx).proposal, old(ctx).organization, old(ctx).authority, new_status),
        r is Ok ==> final(ctx).proposal == moved(old(ctx).proposal, new_status, now),
        r is Ok ==> final(ctx).organization == old(ctx).organization && final(ctx).authority == old(
            ctx,
        ).authority,
        r is Ok && old(ctx).proposal.wf() ==> final(ctx).proposal.wf(),
        r is Err ==> *final(ctx) == *old(ctx),
{
    if authorize(&ctx.organization, &ctx.authority).is_err() {
        return Err(GovernanceError::Unauthorized);
    }
    match check_transition(ctx.proposal.status, new_status, ctx.proposal.start_at, ctx.proposal.end_at) {
        Err(e) => Err(e),
        Ok(()) => {
            ctx.proposal.status = new_status;
            ctx.proposal.updated_at = now;
            Ok(())
        },
    }
}

} // verus!
