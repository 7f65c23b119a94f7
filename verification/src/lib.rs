//! Governance record keeping: organizations, the proposals they raise, and the
//! committed outcome of voting on each proposal, with a strict lifecycle and
//! an authorization guard on every mutating operation.

pub mod address;
pub mod entrypoint;
pub mod errors;
pub mod instructions;
pub mod laws;
pub mod ledger;
pub mod state;

use crate::address::{
    derived, organization_address, organization_seeds, proposal_address, proposal_seeds,
    results_address, results_seeds, Address,
};
use crate::errors::{GovernanceError, OperationError};
use crate::instructions::authorize;
use crate::ledger::{
    commit_vote_results_step, create_organization_step, create_proposal_step,
    finalize_proposal_step, update_proposal_status_step, Ledger, LedgerState,
};
use crate::state::ProposalStatus;
use vstd::prelude::*;

verus! {

/// Creation of an organization at the address derived from its id.
pub open spec fn create_organization_outcome(
    s: LedgerState,
    caller: Address,
    now: i64,
    organization_id: [u8; 16],
    name: String,
) -> (Result<(), OperationError>, LedgerState) {
    match derived(organization_seeds(organization_id), s.program_id) {
        None => (Err(OperationError::NoViableAddress), s),
        Some(found) => create_organization_step(
            s,
            found.0,
            found.1,
            caller,
            now,
            organization_id,
            name,
        ),
    }
}

/// Creates a new organization with the caller as its authority.
pub fn create_organization(
    ledger: &mut Ledger,
    authority: &Address,
    now: i64,
    organization_id: [u8; 16],
    name: String,
) -> (r: Result<(), OperationError>)
    requires
        old(ledger).wf(),
    ensures
        final(ledger).wf(),
        (r, final(ledger)@) == create_organization_outcome(
            old(ledger)@,
            *authority,
            now,
            organization_id,
            name,
        ),
{
    match organization_address(&ledger.program_id, &organization_id) {
        None => Err(OperationError::NoViableAddress),
        Some((address, bump)) => ledger.create_organization_at(
            &address,
            bump,
            authority,
            now,
            organization_id,
            name,
        ),
    }
}

/// What the authorization guard answers for a caller and the organization
/// at `organization`.
pub open spec fn guard_outcome(s: LedgerState, organization: Address, caller: Address) -> Result<
    (),
    OperationError,
> {
    if !s.organizations.contains_key(organization) {
        Err(OperationError::Governance(GovernanceError::OrganizationNotFound))
    } else if s.organizations[organization].authority != caller {
        Err(OperationError::Governance(GovernanceError::Unauthorized))
    } else {
        Ok(())
    }
}

/// Runs the authorization guard on the organization at `organization`.
pub fn guard(ledger: &Ledger, organization: &Address, caller: &Address) -> (r: Result<
    (),
    OperationError,
>)
    requires
        ledger.wf(),
    ensures
        r == guard_outcome(ledger@, *organization, *caller),
{
    match ledger.organization(organization) {
        None => Err(OperationError::Governance(GovernanceError::OrganizationNotFound)),
        Some(found) => match authorize(found, caller) {
            Ok(()) => Ok(()),
            Err(e) => Err(OperationError::Governance(e)),
        },
    }
}

/// Creation of a proposal at the address derived from its parent's address
/// and its own id, the parent's address being derived from the parent's
/// id. The guard runs as soon as the parent is resolved.
pub open spec fn create_proposal_outcome(
    s: LedgerState,
    caller: Address,
    now: i64,
    proposal_id: [u8; 16],
    organization_id: [u8; 16],
    title: String,
    content_hash: [u8; 32],
    start_at: Option<i64>,
    end_at: Option<i64>,
    eligible_voting_power: u64,
    quorum_requirement: Option<u16>,
) -> (Result<(), OperationError>, LedgerState) {
    match derived(organization_seeds(organization_id), s.program_id) {
        None => (Err(OperationError::NoViableAddress), s),
        Some(parent) => match guard_outcome(s, parent.0, caller) {
            Err(e) => (Err(e), s),
            Ok(_) => match derived(proposal_seeds(parent.0, proposal_id), s.program_id) {
                None => (Err(OperationError::NoViableAddress), s),
                Some(found) => create_proposal_step(
                    s,
                    parent.0,
                    found.0,
                    found.1,
                    caller,
                    now,
                    proposal_id,
                    organization_id,
                    title,
                    content_hash,
                    start_at,
                    end_at,
                    eligible_voting_power,
                    quorum_requirement,
                ),
            },
        },
    }
}

/// Creates a new proposal in `Draft` under the organization with the given id.
pub fn create_proposal(
    ledger: &mut Ledger,
    authority: &Address,
    now: i64,
    proposal_id: [u8; 16],
    organization_id: [u8; 16],
    title: String,
    content_hash: [u8; 32],
    start_at: Option<i64>,
    end_at: Option<i64>,
    eligible_voting_power: u64,
    quorum_requirement: Option<u16>,
) -> (r: Result<(), OperationError>)
    requires
        old(ledger).wf(),
    ensures
        final(ledger).wf(),
        (r, final(ledger)@) == create_proposal_outcome(
            old(ledger)@,
            *authority,
            now,
            proposal_id,
            organization_id,
            title,
            content_hash,
            start_at,
            end_at,
            eligible_voting_power,
            quorum_requirement,
        ),
{
    let parent = match organization_address(&ledger.program_id, &organization_id) {
        None => {
            return Err(OperationError::NoViableAddress);
        },
        Some((parent, _)) => parent,
    };
    if let Err(e) = guard(ledger, &parent, authority) {
        return Err(e);
    }
    match proposal_address(&ledger.program_id, &parent, &proposal_id) {
        None => Err(OperationError::NoViableAddress),
        Some((address, bump)) => ledger.create_proposal_at(
            &parent,
            &address,
            bump,
            authority,
            now,
            proposal_id,
            organization_id,
            title,
            content_hash,
            start_at,
            end_at,
            eligible_voting_power,
            quorum_requirement,
        ),
    }
}

/// The address of the parent organization of the proposal at `proposal`,
/// or the reason for which it cannot be had.
pub open spec fn parent_of(s: LedgerState, proposal: Address) -> Result<Address, OperationError> {
    if !s.proposals.contains_key(proposal) {
        Err(OperationError::Governance(GovernanceError::ProposalNotFound))
    } else {
        match derived(organization_seeds(s.proposals[proposal].organization_id), s.program_id) {
            None => Err(OperationError::NoViableAddress),
            Some(found) => Ok(found.0),
        }
    }
}

/// Resolves the address of the parent organization of the proposal at
/// `proposal`.
pub fn parent_address(ledger: &Ledger, proposal: &Address) -> (r: Result<Address, OperationError>)
    requires
        ledger.wf(),
    ensures
        r == parent_of(ledger@, *proposal),
{
    let organization_id = match ledger.proposal(proposal) {
        None => {
            return Err(OperationError::Governance(GovernanceError::ProposalNotFound));
        },
        Some(found) => found.organization_id,
    };
    match organization_address(&ledger.program_id, &organization_id) {
        None => Err(OperationError::NoViableAddress),
        Some((parent, _)) => Ok(parent),
    }
}

/// The generic status update of the proposal at `proposal`.
pub open spec fn update_proposal_status_outcome(
    s: LedgerState,
    caller: Address,
    proposal: Address,
    now: i64,
    new_status: ProposalStatus,
) -> (Result<(), OperationError>, LedgerState) {
    match parent_of(s, proposal) {
        Err(e) => (Err(e), s),
        Ok(parent) => update_proposal_status_step(s, proposal, parent, caller, now, new_status),
    }
}

/// Moves the proposal at `proposal` from `Draft` to `Open` or from `Open`
/// to `Closed`.
pub fn update_proposal_status(
    ledger: &mut Ledger,
    authority: &Address,
    proposal: &Address,
    now: i64,
    new_status: ProposalStatus,
) -> (r: Result<(), OperationError>)
    requires
        old(ledger).wf(),
    ensures
        final(ledger).wf(),
        (r, final(ledger)@) == update_proposal_status_outcome(
            old(ledger)@,
            *authority,
            *proposal,
            now,
            new_status,
        ),
{
    match parent_address(ledger, proposal) {
        Err(e) => Err(e),
        Ok(parent) => ledger.update_proposal_status_at(proposal, &parent, authority, now, new_status),
    }
}

/// Commitment of results for the proposal at `proposal`, at the address
/// derived from the proposal's address. The guard runs as soon as the
/// parent organization is resolved.
pub open spec fn commit_vote_results_outcome(
    s: LedgerState,
    caller: Address,
    proposal: Address,
    now: i64,
    results_hash: [u8; 32],
    winning_option_id: Option<[u8; 16]>,
    total_votes_cast: u64,
    quorum_met: bool,
) -> (Result<(), OperationError>, LedgerState) {
    match parent_of(s, proposal) {
        Err(e) => (Err(e), s),
        Ok(parent) => match guard_outcome(s, parent, caller) {
            Err(e) => (Err(e), s),
            Ok(_) => match derived(results_seeds(proposal), s.program_id) {
                None => (Err(OperationError::NoViableAddress), s),
                Some(found) => commit_vote_results_step(
                    s,
                    proposal,
                    parent,
                    found.0,
                    found.1,
                    caller,
                    now,
                    results_hash,
                    winning_option_id,
                    total_votes_cast,
                    quorum_met,
                ),
            },
        },
    }
}

/// Commits the results of the vote on the closed proposal at `proposal`.
pub fn commit_vote_results(
    ledger: &mut Ledger,
    authority: &Address,
    proposal: &Address,
    now: i64,
    results_hash: [u8; 32],
    winning_option_id: Option<[u8; 16]>,
    total_votes_cast: u64,
    quorum_met: bool,
) -> (r: Result<(), OperationError>)
    requires
        old(ledger).wf(),
    ensures
        final(ledger).wf(),
        (r, final(ledger)@) == commit_vote_results_outcome(
            old(ledger)@,
            *authority,
            *proposal,
            now,
            results_hash,
            winning_option_id,
            total_votes_cast,
            quorum_met,
        ),
{
    let parent = match parent_address(ledger, proposal) {
        Err(e) => {
            return Err(e);
        },
        Ok(parent) => parent,
    };
    if let Err(e) = guard(ledger, &parent, authority) {
        return Err(e);
    }
    match results_address(&ledger.program_id, proposal) {
        None => Err(OperationError::NoViableAddress),
        Some((results, bump)) => ledger.commit_vote_results_at(
            proposal,
            &parent,
            &results,
            bump,
            authority,
            now,
            results_hash,
            winning_option_id,
            total_votes_cast,
            quorum_met,
        ),
    }
}

/// Finalization of the proposal at `proposal`, with its results at the
/// address derived from the proposal's address. The guard runs as soon as
/// the parent organization is resolved.
pub open spec fn finalize_proposal_outcome(
    s: LedgerState,
    caller: Address,
    proposal: Address,
    now: i64,
) -> (Result<(), OperationError>, LedgerState) {
    match parent_of(s, proposal) {
        Err(e) => (Err(e), s),
        Ok(parent) => match guard_outcome(s, parent, caller) {
            Err(e) => (Err(e), s),
            Ok(_) => match derived(results_seeds(proposal), s.program_id) {
                None => (Err(OperationError::NoViableAddress), s),
                Some(found) => finalize_proposal_step(s, proposal, parent, found.0, caller, now),
            },
        },
    }
}

/// Finalizes the closed proposal at `proposal` and seals its results.
pub fn finalize_proposal(ledger: &mut Ledger, authority: &Address, proposal: &Address, now: i64) -> (r:
    Result<(), OperationError>)
    requires
        old(ledger).wf(),
    ensures
        final(ledger).wf(),
        (r, final(ledger)@) == finalize_proposal_outcome(old(ledger)@, *authority, *proposal, now),
{
    let parent = match parent_address(ledger, proposal) {
        Err(e) => {
            return Err(e);
        },
        Ok(parent) => parent,
    };
    if let Err(e) = guard(ledger, &parent, authority) {
        return Err(e);
    }
    match results_address(&ledger.program_id, proposal) {
        None => Err(OperationError::NoViableAddress),
        Some((results, _)) => ledger.finalize_proposal_at(proposal, &parent, &results, authority, now),
    }
}

} // verus!
