//! What holds of the operations on every ledger.

use crate::address::Address;
use crate::errors::{GovernanceError, OperationError};
use crate::ledger::{
    apply_step, commit_vote_results_step, create_organization_step, create_proposal_step,
    finalize_proposal_step, position, update_proposal_status_step, Ledger, LedgerState, Request,
};
use crate::state::{transition_outcome, window_is_set, ProposalStatus};
use crate::{
    commit_vote_results_outcome, create_organization_outcome, create_proposal_outcome,
    finalize_proposal_outcome, guard_outcome, parent_of, update_proposal_status_outcome,
};
use crate::address::{derived, organization_seeds, proposal_seeds, results_seeds};
use vstd::prelude::*;

verus! {

/// Creating an organization at an address that holds one fails and changes
/// nothing, whatever the request holds.
pub proof fn lemma_organization_created_once(
    s: LedgerState,
    address: Address,
    bump: u8,
    caller: Address,
    now: i64,
    organization_id: [u8; 16],
    name: String,
)
    requires
        s.organizations.contains_key(address),
    ensures
        create_organization_step(s, address, bump, caller, now, organization_id, name).0 is Err,
        create_organization_step(s, address, bump, caller, now, organization_id, name).1 == s,
{
}

/// Creating a proposal at an address that holds one fails and changes
/// nothing, whatever the request holds.
pub proof fn lemma_proposal_created_once(
    s: LedgerState,
    organization: Address,
    address: Address,
    bump: u8,
    caller: Address,
    now: i64,
    proposal_id: [u8; 16],
    organization_id: [u8; 16],
    title: String,
    content_hash: [u8; 32],
    start_at: Option<i64>,
    end_at: Option<i64>,
    eligible_voting_power: u64,
    quorum_requirement: Option<u16>,
)
    requires
        s.proposals.contains_key(address),
    ensures
        ({
            let after = create_proposal_step(
                s,
                organization,
                address,
                bump,
                caller,
                now,
                proposal_id,
                organization_id,
                title,
                content_hash,
                start_at,
                end_at,
                eligible_voting_power,
                quorum_requirement,
            );
            after.0 is Err && after.1 == s
        }),
{
}

/// Committing results at an address that holds some fails and changes
/// nothing, whatever the request holds.
pub proof fn lemma_results_created_once(
    s: LedgerState,
    proposal: Address,
    organization: Address,
    results: Address,
    bump: u8,
    caller: Address,
    now: i64,
    results_hash: [u8; 32],
    winning_option_id: Option<[u8; 16]>,
    total_votes_cast: u64,
    quorum_met: bool,
)
    requires
        s.results.contains_key(results),
    ensures
        ({
            let after = commit_vote_results_step(
                s,
                proposal,
                organization,
                results,
                bump,
                caller,
                now,
                results_hash,
                winning_option_id,
                total_votes_cast,
                quorum_met,
            );
            after.0 is Err && after.1 == s
        }),
{
}

/// The status after one request through the generic update: the requested
/// one where the transition table allows the step, else the old one.
pub open spec fn after_request(
    status: ProposalStatus,
    start_at: Option<i64>,
    end_at: Option<i64>,
    request: ProposalStatus,
) -> ProposalStatus {
    if transition_outcome(status, request, start_at, end_at) is Ok {
        request
    } else {
        status
    }
}

/// The status after a sequence of requests through the generic update.
pub open spec fn after_requests(
    status: ProposalStatus,
    start_at: Option<i64>,
    end_at: Option<i64>,
    requests: Seq<ProposalStatus>,
) -> ProposalStatus
    decreases requests.len(),
{
    if requests.len() == 0 {
        status
    } else {
        after_request(
            after_requests(status, start_at, end_at, requests.drop_last()),
            start_at,
            end_at,
            requests.last(),
        )
    }
}

/// A request through the generic update is accepted only for the next
/// status in line, never for `Finalized`, and out of `Draft` only with a
/// voting window that is set; a request to skip, repeat or reverse a step
/// is an invalid transition; a rejected request leaves the status as it was.
pub proof fn lemma_request_takes_one_step(
    status: ProposalStatus,
    start_at: Option<i64>,
    end_at: Option<i64>,
    request: ProposalStatus,
)
    ensures
        transition_outcome(status, request, start_at, end_at) is Ok ==> request.rank()
            == status.rank() + 1 && request != ProposalStatus::Finalized,
        request.rank() != status.rank() + 1 ==> transition_outcome(
            status,
            request,
            start_at,
            end_at,
        ) == Err::<(), GovernanceError>(GovernanceError::InvalidStateTransition),
        request == ProposalStatus::Finalized ==> transition_outcome(
            status,
            request,
            start_at,
            end_at,
        ) == Err::<(), GovernanceError>(GovernanceError::InvalidStateTransition),
        request.rank() == status.rank() + 1 && request != ProposalStatus::Finalized ==> (
        transition_outcome(status, request, start_at, end_at) is Ok <==> (status
            != ProposalStatus::Draft || window_is_set(start_at, end_at))),
        transition_outcome(status, request, start_at, end_at) is Err ==> after_request(
            status,
            start_at,
            end_at,
            request,
        ) == status,
{
}

/// Whatever sequence of requests goes through the generic update, the
/// status never moves back, each request moves it by one step at most, and
/// it ends no more steps ahead than there were requests.
pub proof fn lemma_requests_only_advance(
    status: ProposalStatus,
    start_at: Option<i64>,
    end_at: Option<i64>,
    requests: Seq<ProposalStatus>,
)
    ensures
        status.rank() <= after_requests(status, start_at, end_at, requests).rank() <= status.rank()
            + requests.len(),
        requests.len() > 0 ==> {
            let before = after_requests(status, start_at, end_at, requests.drop_last());
            let after = after_requests(status, start_at, end_at, requests);
            before.rank() <= after.rank() <= before.rank() + 1
        },
        status != ProposalStatus::Finalized ==> after_requests(status, start_at, end_at, requests)
            != ProposalStatus::Finalized,
    decreases requests.len(),
{
    if requests.len() > 0 {
        lemma_requests_only_advance(status, start_at, end_at, requests.drop_last());
    }
}

/// Every proposal of `s` is still there in `t`, at the same status or at
/// the next one.
pub open spec fn advanced(s: LedgerState, t: LedgerState) -> bool {
    forall|a: Address| #[trigger]
        s.proposals.contains_key(a) ==> t.proposals.contains_key(a) && (t.proposals[a].status
            == s.proposals[a].status || t.proposals[a].status.rank() == s.proposals[a].status.rank()
            + 1)
}

/// Every results record of `s` is still there in `t` with the same
/// commitment.
pub open spec fn commitments_kept(s: LedgerState, t: LedgerState) -> bool {
    forall|a: Address| #[trigger]
        s.results.contains_key(a) ==> t.results.contains_key(a) && s.results[a].same_commitment(
            &t.results[a],
        )
}

/// The generic update moves no proposal but the one it names, and that one
/// by one step at most; it touches no results.
pub proof fn lemma_update_advances(
    s: LedgerState,
    proposal: Address,
    organization: Address,
    caller: Address,
    now: i64,
    new_status: ProposalStatus,
)
    ensures
        ({
            let after = update_proposal_status_step(s, proposal, organization, caller, now, new_status);
            &&& advanced(s, after.1)
            &&& after.1.results == s.results
            &&& after.1.organizations == s.organizations
            &&& after.0 is Err ==> after.1 == s
            &&& after.0 is Ok ==> after.1.proposals[proposal].status == new_status
                && new_status.rank() == s.proposals[proposal].status.rank() + 1
                && new_status != ProposalStatus::Finalized
        }),
{
}

/// Finalization moves no proposal but the one it names, from `Closed` to
/// `Finalized`, and keeps every commitment.
pub proof fn lemma_finalize_advances(
    s: LedgerState,
    proposal: Address,
    organization: Address,
    results: Address,
    caller: Address,
    now: i64,
)
    ensures
        ({
            let after = finalize_proposal_step(s, proposal, organization, results, caller, now);
            &&& advanced(s, after.1)
            &&& commitments_kept(s, after.1)
            &&& after.1.organizations == s.organizations
            &&& after.0 is Err ==> after.1 == s
            &&& after.0 is Ok ==> s.proposals[proposal].status == ProposalStatus::Closed
                && after.1.proposals[proposal].status == ProposalStatus::Finalized
                && after.1.results[results].finalized_at == Some(now)
        }),
{
}

/// A commitment moves no proposal and keeps every earlier commitment.
pub proof fn lemma_commit_keeps(
    s: LedgerState,
    proposal: Address,
    organization: Address,
    results: Address,
    bump: u8,
    caller: Address,
    now: i64,
    results_hash: [u8; 32],
    winning_option_id: Option<[u8; 16]>,
    total_votes_cast: u64,
    quorum_met: bool,
)
    ensures
        ({
            let after = commit_vote_results_step(
                s,
                proposal,
                organization,
                results,
                bump,
                caller,
                now,
                results_hash,
                winning_option_id,
                total_votes_cast,
                quorum_met,
            );
            &&& after.1.proposals == s.proposals
            &&& after.1.organizations == s.organizations
            &&& commitments_kept(s, after.1)
            &&& after.0 is Err ==> after.1 == s
            &&& after.0 is Ok ==> after.1.results.contains_key(results)
                && after.1.results[results].finalized_at is None
        }),
{
}

/// Creating a proposal moves no earlier proposal and touches no results.
pub proof fn lemma_create_proposal_keeps(
    s: LedgerState,
    organization: Address,
    address: Address,
    bump: u8,
    caller: Address,
    now: i64,
    proposal_id: [u8; 16],
    organization_id: [u8; 16],
    title: String,
    content_hash: [u8; 32],
    start_at: Option<i64>,
    end_at: Option<i64>,
    eligible_voting_power: u64,
    quorum_requirement: Option<u16>,
)
    ensures
        ({
            let after = create_proposal_step(
                s,
                organization,
                address,
                bump,
                caller,
                now,
                proposal_id,
                organization_id,
                title,
                content_hash,
                start_at,
                end_at,
                eligible_voting_power,
                quorum_requirement,
            );
            &&& advanced(s, after.1)
            &&& after.1.results == s.results
            &&& after.0 is Err ==> after.1 == s
            &&& after.0 is Ok ==> after.1.proposals[address].status == ProposalStatus::Draft
                && after.1.organizations[organization].proposal_count
                == s.organizations[organization].proposal_count + 1
        }),
{
}

/// Finalization fails and changes nothing where the proposal is not
/// `Closed`, where no results are stored at the given address, or where
/// the results stored there belong to another proposal.
pub proof fn lemma_finalize_needs_commitment(
    s: LedgerState,
    proposal: Address,
    organization: Address,
    results: Address,
    caller: Address,
    now: i64,
)
    requires
        !s.proposals.contains_key(proposal) || s.proposals[proposal].status
            != ProposalStatus::Closed || !s.results.contains_key(results)
            || s.results[results].proposal_id != s.proposals[proposal].proposal_id,
    ensures
        finalize_proposal_step(s, proposal, organization, results, caller, now).0 is Err,
        finalize_proposal_step(s, proposal, organization, results, caller, now).1 == s,
{
}

/// After a commitment for a proposal succeeded, a second one by the
/// organization's authority fails with `ResultsAlreadyExists`, whatever it
/// holds, and the first record stays as it was written.
pub proof fn lemma_commit_at_most_once(
    s: LedgerState,
    proposal: Address,
    organization: Address,
    results: Address,
    bump: u8,
    caller: Address,
    now: i64,
    results_hash: [u8; 32],
    winning_option_id: Option<[u8; 16]>,
    total_votes_cast: u64,
    quorum_met: bool,
    second_bump: u8,
    second_now: i64,
    second_hash: [u8; 32],
    second_option: Option<[u8; 16]>,
    second_votes: u64,
    second_quorum: bool,
)
    requires
        commit_vote_results_step(
            s,
            proposal,
            organization,
            results,
            bump,
            caller,
            now,
            results_hash,
            winning_option_id,
            total_votes_cast,
            quorum_met,
        ).0 is Ok,
    ensures
        ({
            let first = commit_vote_results_step(
                s,
                proposal,
                organization,
                results,
                bump,
                caller,
                now,
                results_hash,
                winning_option_id,
                total_votes_cast,
                quorum_met,
            );
            let second = commit_vote_results_step(
                first.1,
                proposal,
                organization,
                results,
                second_bump,
                caller,
                second_now,
                second_hash,
                second_option,
                second_votes,
                second_quorum,
            );
            &&& second.0 == Err::<(), OperationError>(
                OperationError::Governance(GovernanceError::ResultsAlreadyExists),
            )
            &&& second.1 == first.1
            &&& second.1.results[results].results_hash == results_hash
            &&& second.1.results[results].winning_option_id == winning_option_id
            &&& second.1.results[results].total_votes_cast == total_votes_cast
            &&& second.1.results[results].quorum_met == quorum_met
            &&& second.1.results[results].closed_at == now
        }),
{
}

/// A status update by anyone but the authority of the organization fails
/// with `Unauthorized` and changes nothing, whatever else holds.
pub proof fn lemma_update_is_guarded(
    s: LedgerState,
    proposal: Address,
    organization: Address,
    caller: Address,
    now: i64,
    new_status: ProposalStatus,
)
    requires
        s.proposals.contains_key(proposal),
        s.organizations.contains_key(organization),
        s.organizations[organization].authority != caller,
    ensures
        update_proposal_status_step(s, proposal, organization, caller, now, new_status) == (
            Err::<(), OperationError>(OperationError::Governance(GovernanceError::Unauthorized)),
            s,
        ),
{
}

/// A commitment by anyone but the authority of the organization fails with
/// `Unauthorized` and changes nothing, whatever else holds.
pub proof fn lemma_commit_is_guarded(
    s: LedgerState,
    proposal: Address,
    organization: Address,
    results: Address,
    bump: u8,
    caller: Address,
    now: i64,
    results_hash: [u8; 32],
    winning_option_id: Option<[u8; 16]>,
    total_votes_cast: u64,
    quorum_met: bool,
)
    requires
        s.proposals.contains_key(proposal),
        s.organizations.contains_key(organization),
        s.organizations[organization].authority != caller,
    ensures
        commit_vote_results_step(
            s,
            proposal,
            organization,
            results,
            bump,
            caller,
            now,
            results_hash,
            winning_option_id,
            total_votes_cast,
            quorum_met,
        ) == (
            Err::<(), OperationError>(OperationError::Governance(GovernanceError::Unauthorized)),
            s,
        ),
{
}

/// A finalization by anyone but the authority of the organization fails
/// with `Unauthorized` and changes nothing, whatever else holds.
pub proof fn lemma_finalize_is_guarded(
    s: LedgerState,
    proposal: Address,
    organization: Address,
    results: Address,
    caller: Address,
    now: i64,
)
    requires
        s.proposals.contains_key(proposal),
        s.organizations.contains_key(organization),
        s.organizations[organization].authority != caller,
    ensures
        finalize_proposal_step(s, proposal, organization, results, caller, now) == (
            Err::<(), OperationError>(OperationError::Governance(GovernanceError::Unauthorized)),
            s,
        ),
{
}

/// The creation of a proposal by anyone but the authority of the
/// organization fails with `Unauthorized` and changes nothing, whatever
/// else holds.
pub proof fn lemma_create_proposal_is_guarded(
    s: LedgerState,
    organization: Address,
    address: Address,
    bump: u8,
    caller: Address,
    now: i64,
    proposal_id: [u8; 16],
    organization_id: [u8; 16],
    title: String,
    content_hash: [u8; 32],
    start_at: Option<i64>,
    end_at: Option<i64>,
    eligible_voting_power: u64,
    quorum_requirement: Option<u16>,
)
    requires
        s.organizations.contains_key(organization),
        s.organizations[organization].authority != caller,
    ensures
        create_proposal_step(
            s,
            organization,
            address,
            bump,
            caller,
            now,
            proposal_id,
            organization_id,
            title,
            content_hash,
            start_at,
            end_at,
            eligible_voting_power,
            quorum_requirement,
        ) == (
            Err::<(), OperationError>(OperationError::Governance(GovernanceError::Unauthorized)),
            s,
        ),
{
}

/// What the ledger holds after a sequence of operations, the rejected
/// ones among them leaving it as it was.
pub open spec fn after_all(s: LedgerState, requests: Seq<Request>) -> LedgerState
    decreases requests.len(),
{
    if requests.len() == 0 {
        s
    } else {
        apply_step(after_all(s, requests.drop_last()), requests.last()).1
    }
}

/// Every proposal of `s` is still there in `t`, and no earlier in its
/// lifecycle.
pub open spec fn never_back(s: LedgerState, t: LedgerState) -> bool {
    forall|a: Address| #[trigger]
        s.proposals.contains_key(a) ==> t.proposals.contains_key(a) && s.proposals[a].status.rank()
            <= t.proposals[a].status.rank()
}

/// Every organization of `s` is still there in `t` under the same
/// authority and id, with at least as many proposals counted.
pub open spec fn organizations_kept(s: LedgerState, t: LedgerState) -> bool {
    forall|a: Address| #[trigger]
        s.organizations.contains_key(a) ==> t.organizations.contains_key(a)
            && t.organizations[a].authority == s.organizations[a].authority
            && t.organizations[a].organization_id == s.organizations[a].organization_id
            && t.organizations[a].proposal_count >= s.organizations[a].proposal_count
}

/// One operation, whichever it is and whoever asks for it: a rejected one
/// changes nothing; an accepted one moves each proposal by one step at
/// most and never back, keeps every commitment, and keeps every
/// organization's authority.
pub proof fn lemma_operation_keeps_order(s: LedgerState, request: Request)
    ensures
        apply_step(s, request).0 is Err ==> apply_step(s, request).1 == s,
        advanced(s, apply_step(s, request).1),
        never_back(s, apply_step(s, request).1),
        commitments_kept(s, apply_step(s, request).1),
        organizations_kept(s, apply_step(s, request).1),
        apply_step(s, request).1.program_id == s.program_id,
{
}

/// Over any sequence of operations, accepted or rejected, no proposal is
/// lost or moves back in its lifecycle, every commitment stays as it was
/// written, and every organization keeps its authority.
pub proof fn lemma_history_keeps_order(s: LedgerState, requests: Seq<Request>)
    ensures
        never_back(s, after_all(s, requests)),
        commitments_kept(s, after_all(s, requests)),
        organizations_kept(s, after_all(s, requests)),
        after_all(s, requests).program_id == s.program_id,
    decreases requests.len(),
{
    if requests.len() > 0 {
        let before = after_all(s, requests.drop_last());
        lemma_history_keeps_order(s, requests.drop_last());
        lemma_operation_keeps_order(before, requests.last());
        let after = after_all(s, requests);
        assert forall|a: Address| #[trigger] s.proposals.contains_key(a) implies after.proposals.contains_key(a)
            && s.proposals[a].status.rank() <= after.proposals[a].status.rank() by {
            assert(before.proposals.contains_key(a));
        }
        assert forall|a: Address| #[trigger] s.results.contains_key(a) implies after.results.contains_key(a)
            && s.results[a].same_commitment(&after.results[a]) by {
            assert(before.results.contains_key(a));
        }
        assert forall|a: Address| #[trigger] s.organizations.contains_key(a) implies after.organizations.contains_key(a)
            && after.organizations[a].authority == s.organizations[a].authority
            && after.organizations[a].organization_id == s.organizations[a].organization_id
            && after.organizations[a].proposal_count >= s.organizations[a].proposal_count by {
            assert(before.organizations.contains_key(a));
        }
    }
}

/// Every stored organization and proposal meets its field invariant: names,
/// titles and quorums within their limits, a given voting window in
/// order, and a window that is set on every proposal that has left `Draft`.
pub open spec fn records_valid(s: LedgerState) -> bool {
    &&& forall|a: Address| #[trigger]
        s.organizations.contains_key(a) ==> s.organizations[a].wf()
    &&& forall|a: Address| #[trigger] s.proposals.contains_key(a) ==> s.proposals[a].wf()
}

/// A well-formed ledger holds valid records only.
pub proof fn lemma_ledger_records_valid(ledger: Ledger)
    requires
        ledger.wf(),
    ensures
        records_valid(ledger@),
{
    assert forall|a: Address| #[trigger] ledger@.organizations.contains_key(a) implies ledger@.organizations[a].wf() by {
        let p = position(ledger.organization_keys@, a);
        assert(ledger.organizations@[p].wf());
    }
    assert forall|a: Address| #[trigger] ledger@.proposals.contains_key(a) implies ledger@.proposals[a].wf() by {
        let p = position(ledger.proposal_keys@, a);
        assert(ledger.proposals@[p].wf());
    }
}

/// No operation, accepted or rejected, stores a record that breaks its
/// field invariant.
pub proof fn lemma_operation_keeps_records_valid(s: LedgerState, request: Request)
    requires
        records_valid(s),
    ensures
        records_valid(apply_step(s, request).1),
{
}

/// Over any sequence of operations every stored record keeps its field
/// invariant; so no proposal is ever past `Draft` without a voting window
/// whose start lies before its end.
pub proof fn lemma_history_keeps_records_valid(s: LedgerState, requests: Seq<Request>)
    requires
        records_valid(s),
    ensures
        records_valid(after_all(s, requests)),
    decreases requests.len(),
{
    if requests.len() > 0 {
        lemma_history_keeps_records_valid(s, requests.drop_last());
        lemma_operation_keeps_records_valid(after_all(s, requests.drop_last()), requests.last());
    }
}

/// Once an organization was created for an id, creating one for the same
/// id fails with `AddressInUse` and changes nothing, whoever asks and
/// whatever name is given.
pub proof fn lemma_one_organization_per_id(
    s: LedgerState,
    organization_id: [u8; 16],
    caller: Address,
    now: i64,
    name: String,
    second_caller: Address,
    second_now: i64,
    second_name: String,
)
    requires
        create_organization_outcome(s, caller, now, organization_id, name).0 is Ok,
    ensures
        ({
            let first = create_organization_outcome(s, caller, now, organization_id, name);
            create_organization_outcome(
                first.1,
                second_caller,
                second_now,
                organization_id,
                second_name,
            ) == (Err::<(), OperationError>(OperationError::AddressInUse), first.1)
        }),
{
}

/// Once a proposal was created under an organization for an id, creating
/// one there for the same id fails and changes nothing, whoever asks and
/// whatever else the request holds; for the organization's authority the
/// answer is `AddressInUse`.
pub proof fn lemma_one_proposal_per_id(
    s: LedgerState,
    proposal_id: [u8; 16],
    organization_id: [u8; 16],
    caller: Address,
    now: i64,
    title: String,
    content_hash: [u8; 32],
    start_at: Option<i64>,
    end_at: Option<i64>,
    eligible_voting_power: u64,
    quorum_requirement: Option<u16>,
    second_caller: Address,
    second_now: i64,
    second_title: String,
    second_hash: [u8; 32],
    second_start: Option<i64>,
    second_end: Option<i64>,
    second_power: u64,
    second_quorum: Option<u16>,
)
    requires
        create_proposal_outcome(
            s,
            caller,
            now,
            proposal_id,
            organization_id,
            title,
            content_hash,
            start_at,
            end_at,
            eligible_voting_power,
            quorum_requirement,
        ).0 is Ok,
    ensures
        ({
            let first = create_proposal_outcome(
                s,
                caller,
                now,
                proposal_id,
                organization_id,
                title,
                content_hash,
                start_at,
                end_at,
                eligible_voting_power,
                quorum_requirement,
            );
            let second = create_proposal_outcome(
                first.1,
                second_caller,
                second_now,
                proposal_id,
                organization_id,
                second_title,
                second_hash,
                second_start,
                second_end,
                second_power,
                second_quorum,
            );
            &&& second.0 is Err
            &&& second.1 == first.1
            &&& second_caller == caller ==> second.0 == Err::<(), OperationError>(
                OperationError::AddressInUse,
            )
        }),
{
}

/// Once results were committed for a proposal, a second commitment for it
/// fails and changes nothing, whoever asks and whatever it holds; for the
/// organization's authority the answer is `ResultsAlreadyExists`, whether
/// or not the proposal was finalized in between.
pub proof fn lemma_one_commitment_per_proposal(
    s: LedgerState,
    proposal: Address,
    caller: Address,
    now: i64,
    results_hash: [u8; 32],
    winning_option_id: Option<[u8; 16]>,
    total_votes_cast: u64,
    quorum_met: bool,
    finalized: bool,
    finalized_at: i64,
    second_caller: Address,
    second_now: i64,
    second_hash: [u8; 32],
    second_option: Option<[u8; 16]>,
    second_votes: u64,
    second_quorum: bool,
)
    requires
        commit_vote_results_outcome(
            s,
            caller,
            proposal,
            now,
            results_hash,
            winning_option_id,
            total_votes_cast,
            quorum_met,
        ).0 is Ok,
    ensures
        ({
            let first = commit_vote_results_outcome(
                s,
                caller,
                proposal,
                now,
                results_hash,
                winning_option_id,
                total_votes_cast,
                quorum_met,
            );
            let between = if finalized {
                finalize_proposal_outcome(first.1, caller, proposal, finalized_at).1
            } else {
                first.1
            };
            let second = commit_vote_results_outcome(
                between,
                second_caller,
                proposal,
                second_now,
                second_hash,
                second_option,
                second_votes,
                second_quorum,
            );
            let at = (derived(results_seeds(proposal), s.program_id)->0).0;
            &&& second.0 is Err
            &&& second.1 == between
            &&& second_caller == caller ==> second.0 == Err::<(), OperationError>(
                OperationError::Governance(GovernanceError::ResultsAlreadyExists),
            )
            &&& between.results.contains_key(at)
            &&& between.results[at].results_hash == results_hash
            &&& between.results[at].winning_option_id == winning_option_id
            &&& between.results[at].total_votes_cast == total_votes_cast
            &&& between.results[at].quorum_met == quorum_met
            &&& between.results[at].closed_at == now
        }),
{
}

/// Finalization fails and changes nothing where the proposal is not
/// `Closed`, and where no results are stored for it.
pub proof fn lemma_finalize_follows_commit(s: LedgerState, caller: Address, proposal: Address, now: i64)
    requires
        !s.proposals.contains_key(proposal) || s.proposals[proposal].status
            != ProposalStatus::Closed || derived(results_seeds(proposal), s.program_id) is None
            || !s.results.contains_key((derived(results_seeds(proposal), s.program_id)->0).0),
    ensures
        finalize_proposal_outcome(s, caller, proposal, now).0 is Err,
        finalize_proposal_outcome(s, caller, proposal, now).1 == s,
{
}

/// Once a proposal was finalized, it is `Finalized` with its results
/// sealed at that time, and a second finalization fails and changes
/// nothing; for the organization's authority the answer is
/// `ProposalNotClosedForFinalization`.
pub proof fn lemma_finalized_once(
    s: LedgerState,
    caller: Address,
    proposal: Address,
    now: i64,
    second_caller: Address,
    second_now: i64,
)
    requires
        finalize_proposal_outcome(s, caller, proposal, now).0 is Ok,
    ensures
        ({
            let first = finalize_proposal_outcome(s, caller, proposal, now);
            let second = finalize_proposal_outcome(first.1, second_caller, proposal, second_now);
            let at = (derived(results_seeds(proposal), s.program_id)->0).0;
            &&& s.proposals[proposal].status == ProposalStatus::Closed
            &&& first.1.proposals[proposal].status == ProposalStatus::Finalized
            &&& first.1.proposals[proposal].updated_at == now
            &&& s.results.contains_key(at)
            &&& s.results[at].same_commitment(&first.1.results[at])
            &&& first.1.results[at].finalized_at == Some(now)
            &&& second.0 is Err
            &&& second.1 == first.1
            &&& second_caller == caller ==> second.0 == Err::<(), OperationError>(
                OperationError::Governance(GovernanceError::ProposalNotClosedForFinalization),
            )
        }),
{
}

/// Whatever is asked of a proposal by anyone but the authority of its
/// parent organization fails with `Unauthorized` and changes nothing,
/// whatever else holds of the request and of the ledger.
pub proof fn lemma_proposals_are_guarded(
    s: LedgerState,
    caller: Address,
    proposal: Address,
    now: i64,
    new_status: ProposalStatus,
    results_hash: [u8; 32],
    winning_option_id: Option<[u8; 16]>,
    total_votes_cast: u64,
    quorum_met: bool,
)
    requires
        parent_of(s, proposal) is Ok,
        s.organizations.contains_key(parent_of(s, proposal)->Ok_0),
        s.organizations[parent_of(s, proposal)->Ok_0].authority != caller,
    ensures
        update_proposal_status_outcome(s, caller, proposal, now, new_status) == (
            Err::<(), OperationError>(OperationError::Governance(GovernanceError::Unauthorized)),
            s,
        ),
        commit_vote_results_outcome(
            s,
            caller,
            proposal,
            now,
            results_hash,
            winning_option_id,
            total_votes_cast,
            quorum_met,
        ) == (
            Err::<(), OperationError>(OperationError::Governance(GovernanceError::Unauthorized)),
            s,
        ),
        finalize_proposal_outcome(s, caller, proposal, now) == (
            Err::<(), OperationError>(OperationError::Governance(GovernanceError::Unauthorized)),
            s,
        ),
{
}

/// The creation of a proposal under an organization by anyone but its
/// authority fails with `Unauthorized` and changes nothing, whatever else
/// holds of the request and of the ledger.
pub proof fn lemma_creation_is_guarded(
    s: LedgerState,
    caller: Address,
    now: i64,
    proposal_id: [u8; 16],
    organization_id: [u8; 16],
    title: String,
    content_hash: [u8; 32],
    start_at: Option<i64>,
    end_at: Option<i64>,
    eligible_voting_power: u64,
    quorum_requirement: Option<u16>,
)
    requires
        derived(organization_seeds(organization_id), s.program_id) is Some,
        s.organizations.contains_key(
            (derived(organization_seeds(organization_id), s.program_id)->0).0,
        ),
        s.organizations[(derived(organization_seeds(organization_id), s.program_id)->0).0].authority
            != caller,
    ensures
        create_proposal_outcome(
            s,
            caller,
            now,
            proposal_id,
            organization_id,
            title,
            content_hash,
            start_at,
            end_at,
            eligible_voting_power,
            quorum_requirement,
        ) == (
            Err::<(), OperationError>(OperationError::Governance(GovernanceError::Unauthorized)),
            s,
        ),
{
}

/// Whether `outcome` is what an operation at resolved addresses gives on
/// `s`, or a rejection that leaves `s` as it was.
pub open spec fn is_step(s: LedgerState, outcome: (Result<(), OperationError>, LedgerState)) -> bool {
    (outcome.0 is Err && outcome.1 == s) || exists|request: Request|
        outcome == #[trigger] apply_step(s, request)
}

/// Each of the five operations that derive their addresses is an operation
/// at resolved addresses, or a rejection that changes nothing: what holds
/// of every history of operations at resolved addresses holds of every
/// history of these.
pub proof fn lemma_outcomes_are_steps(
    s: LedgerState,
    caller: Address,
    now: i64,
    proposal: Address,
    proposal_id: [u8; 16],
    organization_id: [u8; 16],
    name: String,
    title: String,
    content_hash: [u8; 32],
    start_at: Option<i64>,
    end_at: Option<i64>,
    eligible_voting_power: u64,
    quorum_requirement: Option<u16>,
    new_status: ProposalStatus,
    results_hash: [u8; 32],
    winning_option_id: Option<[u8; 16]>,
    total_votes_cast: u64,
    quorum_met: bool,
)
    ensures
        is_step(s, create_organization_outcome(s, caller, now, organization_id, name)),
        is_step(
            s,
            create_proposal_outcome(
                s,
                caller,
                now,
                proposal_id,
                organization_id,
                title,
                content_hash,
                start_at,
                end_at,
                eligible_voting_power,
                quorum_requirement,
            ),
        ),
        is_step(s, update_proposal_status_outcome(s, caller, proposal, now, new_status)),
        is_step(
            s,
            commit_vote_results_outcome(
                s,
                caller,
                proposal,
                now,
                results_hash,
                winning_option_id,
                total_votes_cast,
                quorum_met,
            ),
        ),
        is_step(s, finalize_proposal_outcome(s, caller, proposal, now)),
{
    let parent = derived(organization_seeds(organization_id), s.program_id);
    if parent is Some {
        let request = Request::CreateOrganization {
            address: (parent->0).0,
            bump: (parent->0).1,
            caller,
            now,
            organization_id,
            name,
        };
        assert(create_organization_outcome(s, caller, now, organization_id, name) == apply_step(
            s,
            request,
        ));
        let place = derived(proposal_seeds((parent->0).0, proposal_id), s.program_id);
        if guard_outcome(s, (parent->0).0, caller) is Ok && place is Some {
            let request = Request::CreateProposal {
                organization: (parent->0).0,
                address: (place->0).0,
                bump: (place->0).1,
                caller,
                now,
                proposal_id,
                organization_id,
                title,
                content_hash,
                start_at,
                end_at,
                eligible_voting_power,
                quorum_requirement,
            };
            assert(create_proposal_outcome(
                s,
                caller,
                now,
                proposal_id,
                organization_id,
                title,
                content_hash,
                start_at,
                end_at,
                eligible_voting_power,
                quorum_requirement,
            ) == apply_step(s, request));
        }
    }
    if parent_of(s, proposal) is Ok {
        let organization = parent_of(s, proposal)->Ok_0;
        let request = Request::UpdateProposalStatus { proposal, organization, caller, now, new_status };
        assert(update_proposal_status_outcome(s, caller, proposal, now, new_status) == apply_step(
            s,
            request,
        ));
        let place = derived(results_seeds(proposal), s.program_id);
        if guard_outcome(s, organization, caller) is Ok && place is Some {
            let commit = Request::CommitVoteResults {
                proposal,
                organization,
                results: (place->0).0,
                bump: (place->0).1,
                caller,
                now,
                results_hash,
                winning_option_id,
                total_votes_cast,
                quorum_met,
            };
            assert(commit_vote_results_outcome(
                s,
                caller,
                proposal,
                now,
                results_hash,
                winning_option_id,
                total_votes_cast,
                quorum_met,
            ) == apply_step(s, commit));
            let finalize = Request::FinalizeProposal {
                proposal,
                organization,
                results: (place->0).0,
                caller,
                now,
            };
            assert(finalize_proposal_outcome(s, caller, proposal, now) == apply_step(s, finalize));
        }
    }
}

} // verus!
