//! Creation of a proposal under an organization.

use crate::address::{array_eq, Address};
use crate::errors::GovernanceError;
use crate::instructions::authorize;
use crate::state::{byte_len, text_len, OrganizationAccount, ProposalAccount, ProposalStatus};
use vstd::prelude::*;

verus! {

/// What the creation of a proposal touches.
#[derive(Debug)]
pub struct CreateProposal {
    /// The record to fill.
    pub proposal: ProposalAccount,
    /// The parent organization, whose counter is incremented.
    pub organization: OrganizationAccount,
    /// The caller.
    pub authority: Address,
    /// Bump seed of the proposal's address.
    pub bump: u8,
}

/// Why a request to create a proposal is rejected, if it is. The guard
/// comes first, then the organization's identity, the fields of the
/// request, and at last the organization's counter.
pub open spec fn rejection(
    organization: OrganizationAccount,
    caller: Address,
    organization_id: [u8; 16],
    title: Seq<char>,
    start_at: Option<i64>,
    end_at: Option<i64>,
    quorum_requirement: Option<u16>,
) -> Option<GovernanceError> {
    if organization.authority != caller {
        Some(GovernanceError::Unauthorized)
    } else if organization.organization_id != organization_id {
        Some(GovernanceError::OrganizationNotFound)
    } else if byte_len(title) > ProposalAccount::MAX_TITLE_LENGTH {
        Some(GovernanceError::TitleTooLong)
    } else if quorum_requirement is Some && quorum_requirement->0 > ProposalAccount::MAX_QUORUM {
        Some(GovernanceError::InvalidQuorumRequirement)
    } else if start_at is Some && end_at is Some && start_at->0 >= end_at->0 {
        Some(GovernanceError::InvalidTimeRange)
    } else if organization.proposal_count == u32::MAX {
        Some(GovernanceError::InvalidStateTransition)
    } else {
        None
    }
}

/// The record of a proposal as it is first written.
pub open spec fn new_proposal(
    caller: Address,
    bump: u8,
    now: i64,
    proposal_id: [u8; 16],
    organization_id: [u8; 16],
    title: String,
    content_hash: [u8; 32],
    start_at: Option<i64>,
    end_at: Option<i64>,
    eligible_voting_power: u64,
    quorum_requirement: Option<u16>,
) -> ProposalAccount {
    ProposalAccount {
        proposal_id,
        organization_id,
        title,
        content_hash,
        status: ProposalStatus::Draft,
        start_at,
        end_at,
        eligible_voting_power,
        quorum_requirement,
        created_by: caller,
        created_at: now,
        updated_at: now,
        bump,
    }
}

/// The organization after one more proposal was created under it.
pub open spec fn counted(organization: OrganizationAccount) -> OrganizationAccount {
    OrganizationAccount {
        proposal_count: (organization.proposal_count + 1) as u32,
        ..organization
    }
}

/// Fills the record of a new proposal in `Draft` and counts it on the parent
/// organization, unless `rejection` names a reason against it.
pub fn handler(
    ctx: &mut CreateProposal,
    now: i64,
    proposal_id: [u8; 16],
    organization_id: [u8; 16],
    title: String,
    content_hash: [u8; 32],
    start_at: Option<i64>,
    end_at: Option<i64>,
    eligible_voting_power: u64,
    quorum_requirement: Option<u16>,
) -> (r: Result<(), GovernanceError>)
    ensures
        match rejection(
            old(ctx).organization,
            old(ctx).authority,
            organization_id,
            title@,
            start_at,
            end_at,
            quorum_requirement,
        ) {
            Some(e) => r == Err::<(), GovernanceError>(e) && *final(ctx) == *old(ctx),
            None => {
                &&& r == Ok::<(), GovernanceError>(())
                &&& final(ctx).proposal == new_proposal(
                    old(ctx).authority,
                    old(ctx).bump,
                    now,
                    proposal_id,
                    organization_id,
                    title,
                    content_hash,
                    start_at,
                    end_at,
                    eligible_voting_power,
                    quorum_requirement,
                )
                &&& final(ctx).proposal.wf()
                &&& final(ctx).organization == counted(old(ctx).organization)
                &&& final(ctx).authority == old(ctx).authority
                &&& final(ctx).bump == old(ctx).bump
            },
        },
{
    if authorize(&ctx.organization, &ctx.authority).is_err() {
        return Err(GovernanceError::Unauthorized);
    }
    if !array_eq(&ctx.organization.organization_id, &organization_id) {
        return Err(GovernanceError::OrganizationNotFound);
    }
    if text_len(title.as_str()) > ProposalAccount::MAX_TITLE_LENGTH {
        return Err(GovernanceError::TitleTooLong);
    }
    if let Some(quorum) = quorum_requirement {
        if quorum > ProposalAccount::MAX_QUORUM {
            return Err(GovernanceError::InvalidQuorumRequirement);
        }
    }
    if let (Some(start), Some(end)) = (start_at, end_at) {
        if start >= end {
            return Err(GovernanceError::InvalidTimeRange);
        }
    }
    let count: u32 = match ctx.organization.proposal_count.checked_add(1) {
        Some(count) => count,
        None => {
            return Err(GovernanceError::InvalidStateTransition);
        },
    };
    ctx.proposal.proposal_id = proposal_id;
    ctx.proposal.organization_id = organization_id;
    ctx.proposal.title = title;
    ctx.proposal.content_hash = content_hash;
    ctx.proposal.status = ProposalStatus::Draft;
    ctx.proposal.start_at = start_at;
    ctx.proposal.end_at = end_at;
    ctx.proposal.eligible_voting_power = eligible_voting_power;
    ctx.proposal.quorum_requirement = quorum_requirement;
    ctx.proposal.created_by = ctx.authority;
    ctx.proposal.created_at = now;
    ctx.proposal.updated_at = now;
    ctx.proposal.bump = ctx.bump;
    ctx.organization.proposal_count = count;
    Ok(())
}

} // verus!
