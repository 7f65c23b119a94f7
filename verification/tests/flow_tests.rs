use anchor_lang::prelude::Pubkey;
use fan_governance::address::{
    id, organization_address, proposal_address, results_address, Address,
};
use fan_governance::errors::{GovernanceError, OperationError};
use fan_governance::ledger::{Ledger, Request};
use fan_governance::state::ProposalStatus;
use fan_governance::{
    commit_vote_results, create_organization, create_proposal, finalize_proposal, guard,
    parent_address, update_proposal_status,
};

const ORG: [u8; 16] = *b"org-123456789012";
const PROPOSAL: [u8; 16] = *b"proposal-uuid-01";

fn payer() -> Address {
    Address { bytes: [42u8; 32] }
}

fn stranger() -> Address {
    Address { bytes: [43u8; 32] }
}

fn rejected(e: GovernanceError) -> Result<(), OperationError> {
    Err(OperationError::Governance(e))
}

fn closed_proposal(ledger: &mut Ledger) -> Address {
    create_organization(ledger, &payer(), 100, ORG, "Test Org".to_string()).unwrap();
    create_proposal(
        ledger,
        &payer(),
        101,
        PROPOSAL,
        ORG,
        "Test Proposal".to_string(),
        [7u8; 32],
        Some(1),
        Some(2),
        10,
        Some(5000),
    )
    .unwrap();
    let (organization, _) = organization_address(&id(), &ORG).unwrap();
    let (proposal, _) = proposal_address(&id(), &organization, &PROPOSAL).unwrap();
    update_proposal_status(ledger, &payer(), &proposal, 102, ProposalStatus::Open).unwrap();
    update_proposal_status(ledger, &payer(), &proposal, 103, ProposalStatus::Closed).unwrap();
    proposal
}

#[test]
fn full_governance_flow_executes_on_chain() {
    let organization_id: [u8; 16] = *b"org-123456789012";
    let proposal_id: [u8; 16] = *b"proposal-uuid-01";
    let program = Pubkey::new_from_array(id().bytes);

    let (organization_pda, organization_bump) =
        Pubkey::find_program_address(&[b"organization", organization_id.as_ref()], &program);
    let (proposal_pda, proposal_bump) = Pubkey::find_program_address(
        &[b"proposal", organization_pda.as_ref(), &proposal_id],
        &program,
    );
    let (results_pda, results_bump) =
        Pubkey::find_program_address(&[b"proposal_results", proposal_pda.as_ref()], &program);
    let organization_at = Address { bytes: organization_pda.to_bytes() };
    let proposal_at = Address { bytes: proposal_pda.to_bytes() };
    let results_at = Address { bytes: results_pda.to_bytes() };

    let mut ledger = Ledger::new(id());
    create_organization(&mut ledger, &payer(), 100, organization_id, "Test Org".to_string())
        .unwrap();
    create_proposal(
        &mut ledger,
        &payer(),
        101,
        proposal_id,
        organization_id,
        "Test Proposal".to_string(),
        [7u8; 32],
        Some(1),
        Some(2),
        10,
        Some(5000),
    )
    .unwrap();
    assert_eq!(ledger.proposal(&proposal_at).expect("proposal exists").status, ProposalStatus::Draft);
    assert_eq!(ledger.organization(&organization_at).expect("org exists").proposal_count, 1);
    update_proposal_status(&mut ledger, &payer(), &proposal_at, 102, ProposalStatus::Open).unwrap();
    update_proposal_status(&mut ledger, &payer(), &proposal_at, 103, ProposalStatus::Closed)
        .unwrap();
    commit_vote_results(
        &mut ledger,
        &payer(),
        &proposal_at,
        104,
        [9u8; 32],
        Some([1u8; 16]),
        10,
        true,
    )
    .unwrap();
    assert_eq!(ledger.results(&results_at).expect("results exists").finalized_at, None);
    assert_eq!(ledger.proposal(&proposal_at).expect("proposal exists").status, ProposalStatus::Closed);
    finalize_proposal(&mut ledger, &payer(), &proposal_at, 105).unwrap();

    let proposal = ledger.proposal(&proposal_at).expect("proposal exists");
    assert_eq!(proposal.status, ProposalStatus::Finalized);

    let results = ledger.results(&results_at).expect("results exists");
    assert_eq!(results.proposal_id, proposal_id);
    assert_eq!(results.results_hash, [9u8; 32]);
    assert_eq!(results.winning_option_id, Some([1u8; 16]));
    assert!(results.quorum_met);
    assert!(results.finalized_at.is_some());

    let org = ledger.organization(&organization_at).expect("org exists");
    assert_eq!(org.proposal_count, 1);
    assert_eq!(org.bump, organization_bump);
    assert_eq!(proposal.bump, proposal_bump);
    assert_eq!(results.bump, results_bump);

    assert_eq!(results.total_votes_cast, 10);
    assert_eq!(results.closed_at, 104);
    assert_eq!(results.finalized_at, Some(105));
    assert_eq!(proposal.updated_at, 105);
    assert_eq!(proposal.created_at, 101);
    assert_eq!(proposal.created_by, payer());
    assert_eq!(proposal.title, "Test Proposal");
    assert_eq!(proposal.content_hash, [7u8; 32]);
    assert_eq!(proposal.eligible_voting_power, 10);
    assert_eq!(proposal.quorum_requirement, Some(5000));
    assert_eq!(proposal.organization_id, organization_id);
    assert_eq!(org.name, "Test Org");
    assert_eq!(org.authority, payer());
    assert_eq!(org.created_at, 100);
    assert_eq!(org.organization_id, organization_id);

    assert_eq!(
        commit_vote_results(&mut ledger, &payer(), &proposal_at, 106, [8u8; 32], None, 11, false),
        rejected(GovernanceError::ResultsAlreadyExists)
    );
    let results = ledger.results(&results_at).expect("results exists");
    assert_eq!(results.results_hash, [9u8; 32]);
    assert_eq!(results.total_votes_cast, 10);
    assert_eq!(results.finalized_at, Some(105));
}

#[test]
fn equal_start_and_end_cannot_be_opened() {
    let mut ledger = Ledger::new(id());
    create_organization(&mut ledger, &payer(), 1, ORG, "Test Org".to_string()).unwrap();
    // With both bounds given and equal the proposal is not even created.
    assert_eq!(
        create_proposal(
            &mut ledger,
            &payer(),
            2,
            PROPOSAL,
            ORG,
            "T".to_string(),
            [0u8; 32],
            Some(5),
            Some(5),
            1,
            None
        ),
        rejected(GovernanceError::InvalidTimeRange)
    );
    let (organization, _) = organization_address(&id(), &ORG).unwrap();
    assert_eq!(ledger.organization(&organization).unwrap().proposal_count, 0);
    assert_eq!(ledger.proposals.len(), 0);
}

#[test]
fn draft_without_a_window_cannot_be_opened() {
    let mut ledger = Ledger::new(id());
    create_organization(&mut ledger, &payer(), 1, ORG, "Test Org".to_string()).unwrap();
    create_proposal(
        &mut ledger,
        &payer(),
        2,
        PROPOSAL,
        ORG,
        "T".to_string(),
        [0u8; 32],
        Some(1),
        None,
        1,
        None,
    )
    .unwrap();
    let (organization, _) = organization_address(&id(), &ORG).unwrap();
    let (proposal, _) = proposal_address(&id(), &organization, &PROPOSAL).unwrap();
    assert_eq!(
        update_proposal_status(&mut ledger, &payer(), &proposal, 3, ProposalStatus::Open),
        rejected(GovernanceError::InvalidTimeRange)
    );
    assert_eq!(ledger.proposal(&proposal).unwrap().status, ProposalStatus::Draft);
}

#[test]
fn an_organization_is_created_once() {
    let mut ledger = Ledger::new(id());
    create_organization(&mut ledger, &payer(), 1, ORG, "Test Org".to_string()).unwrap();
    assert_eq!(
        create_organization(&mut ledger, &stranger(), 2, ORG, "Other".to_string()),
        Err(OperationError::AddressInUse)
    );
    let (organization, _) = organization_address(&id(), &ORG).unwrap();
    let stored = ledger.organization(&organization).unwrap();
    assert_eq!(stored.name, "Test Org");
    assert_eq!(stored.authority, payer());
    assert_eq!(ledger.organizations.len(), 1);
}

#[test]
fn a_proposal_is_created_once_per_organization() {
    let mut ledger = Ledger::new(id());
    let other: [u8; 16] = *b"org-123456789013";
    create_organization(&mut ledger, &payer(), 1, ORG, "Test Org".to_string()).unwrap();
    create_organization(&mut ledger, &payer(), 1, other, "Second".to_string()).unwrap();
    let make = |ledger: &mut Ledger, org: [u8; 16], title: &str| {
        create_proposal(
            ledger,
            &payer(),
            2,
            PROPOSAL,
            org,
            title.to_string(),
            [0u8; 32],
            None,
            None,
            1,
            None,
        )
    };
    assert_eq!(make(&mut ledger, ORG, "first"), Ok(()));
    assert_eq!(make(&mut ledger, ORG, "again"), Err(OperationError::AddressInUse));
    assert_eq!(make(&mut ledger, other, "elsewhere"), Ok(()));
    let (organization, _) = organization_address(&id(), &ORG).unwrap();
    let (proposal, _) = proposal_address(&id(), &organization, &PROPOSAL).unwrap();
    assert_eq!(ledger.proposal(&proposal).unwrap().title, "first");
    assert_eq!(ledger.organization(&organization).unwrap().proposal_count, 1);
    assert_eq!(ledger.proposals.len(), 2);
}

#[test]
fn names_and_titles_have_their_limits() {
    let mut ledger = Ledger::new(id());
    assert_eq!(
        create_organization(&mut ledger, &payer(), 1, ORG, "n".repeat(101)),
        rejected(GovernanceError::NameTooLong)
    );
    assert_eq!(ledger.organizations.len(), 0);
    assert_eq!(create_organization(&mut ledger, &payer(), 1, ORG, "n".repeat(100)), Ok(()));
    let make = |ledger: &mut Ledger, id: [u8; 16], title: String, quorum: Option<u16>| {
        create_proposal(ledger, &payer(), 2, id, ORG, title, [0u8; 32], None, None, 1, quorum)
    };
    assert_eq!(
        make(&mut ledger, PROPOSAL, "t".repeat(201), None),
        rejected(GovernanceError::TitleTooLong)
    );
    assert_eq!(
        make(&mut ledger, PROPOSAL, "t".repeat(200), Some(10001)),
        rejected(GovernanceError::InvalidQuorumRequirement)
    );
    assert_eq!(ledger.proposals.len(), 0);
    assert_eq!(make(&mut ledger, PROPOSAL, "t".repeat(200), Some(10000)), Ok(()));
    assert_eq!(make(&mut ledger, *b"proposal-uuid-02", String::new(), Some(0)), Ok(()));
    let (organization, _) = organization_address(&id(), &ORG).unwrap();
    assert_eq!(ledger.organization(&organization).unwrap().proposal_count, 2);
}

#[test]
fn a_proposal_needs_its_organization() {
    let mut ledger = Ledger::new(id());
    assert_eq!(
        create_proposal(
            &mut ledger,
            &payer(),
            2,
            PROPOSAL,
            ORG,
            "T".to_string(),
            [0u8; 32],
            None,
            None,
            1,
            None
        ),
        rejected(GovernanceError::OrganizationNotFound)
    );
    create_organization(&mut ledger, &payer(), 1, ORG, "Test Org".to_string()).unwrap();
    let (organization, _) = organization_address(&id(), &ORG).unwrap();
    let (proposal, bump) = proposal_address(&id(), &organization, &PROPOSAL).unwrap();
    // The organization at the given address has another id than the request names.
    assert_eq!(
        ledger.create_proposal_at(
            &organization,
            &proposal,
            bump,
            &payer(),
            2,
            PROPOSAL,
            *b"org-123456789013",
            "T".to_string(),
            [0u8; 32],
            None,
            None,
            1,
            None
        ),
        rejected(GovernanceError::OrganizationNotFound)
    );
    assert_eq!(ledger.proposals.len(), 0);
}

#[test]
fn the_counter_does_not_wrap() {
    let mut ledger = Ledger::new(id());
    create_organization(&mut ledger, &payer(), 1, ORG, "Test Org".to_string()).unwrap();
    ledger.organizations[0].proposal_count = u32::MAX;
    assert_eq!(
        create_proposal(
            &mut ledger,
            &payer(),
            2,
            PROPOSAL,
            ORG,
            "T".to_string(),
            [0u8; 32],
            None,
            None,
            1,
            None
        ),
        rejected(GovernanceError::InvalidStateTransition)
    );
    assert_eq!(ledger.organizations[0].proposal_count, u32::MAX);
    assert_eq!(ledger.proposals.len(), 0);
}

#[test]
fn status_moves_one_step_forward_only() {
    let mut ledger = Ledger::new(id());
    create_organization(&mut ledger, &payer(), 1, ORG, "Test Org".to_string()).unwrap();
    create_proposal(
        &mut ledger,
        &payer(),
        2,
        PROPOSAL,
        ORG,
        "T".to_string(),
        [0u8; 32],
        Some(1),
        Some(2),
        1,
        None,
    )
    .unwrap();
    let (organization, _) = organization_address(&id(), &ORG).unwrap();
    let (proposal, _) = proposal_address(&id(), &organization, &PROPOSAL).unwrap();
    let refused = rejected(GovernanceError::InvalidStateTransition);
    let mut go = |to: ProposalStatus| update_proposal_status(&mut ledger, &payer(), &proposal, 9, to);
    assert_eq!(go(ProposalStatus::Draft), refused);
    assert_eq!(go(ProposalStatus::Closed), refused);
    assert_eq!(go(ProposalStatus::Finalized), refused);
    assert_eq!(go(ProposalStatus::Open), Ok(()));
    assert_eq!(go(ProposalStatus::Open), refused);
    assert_eq!(go(ProposalStatus::Draft), refused);
    assert_eq!(go(ProposalStatus::Finalized), refused);
    assert_eq!(go(ProposalStatus::Closed), Ok(()));
    assert_eq!(go(ProposalStatus::Finalized), refused);
    assert_eq!(go(ProposalStatus::Open), refused);
    assert_eq!(go(ProposalStatus::Closed), refused);
    assert_eq!(ledger.proposal(&proposal).unwrap().status, ProposalStatus::Closed);
}

#[test]
fn finalize_needs_a_closed_proposal_and_its_results() {
    let mut ledger = Ledger::new(id());
    create_organization(&mut ledger, &payer(), 1, ORG, "Test Org".to_string()).unwrap();
    create_proposal(
        &mut ledger,
        &payer(),
        2,
        PROPOSAL,
        ORG,
        "T".to_string(),
        [0u8; 32],
        Some(1),
        Some(2),
        1,
        None,
    )
    .unwrap();
    let (organization, _) = organization_address(&id(), &ORG).unwrap();
    let (proposal, _) = proposal_address(&id(), &organization, &PROPOSAL).unwrap();
    let not_closed = rejected(GovernanceError::ProposalNotClosedForFinalization);
    assert_eq!(finalize_proposal(&mut ledger, &payer(), &proposal, 3), not_closed);
    assert_eq!(
        commit_vote_results(&mut ledger, &payer(), &proposal, 3, [9u8; 32], None, 0, false),
        rejected(GovernanceError::ProposalNotClosed)
    );
    update_proposal_status(&mut ledger, &payer(), &proposal, 4, ProposalStatus::Open).unwrap();
    assert_eq!(finalize_proposal(&mut ledger, &payer(), &proposal, 5), not_closed);
    assert_eq!(
        commit_vote_results(&mut ledger, &payer(), &proposal, 5, [9u8; 32], None, 0, false),
        rejected(GovernanceError::ProposalNotClosed)
    );
    update_proposal_status(&mut ledger, &payer(), &proposal, 6, ProposalStatus::Closed).unwrap();
    assert_eq!(
        finalize_proposal(&mut ledger, &payer(), &proposal, 7),
        rejected(GovernanceError::ResultsNotFound)
    );
    assert_eq!(ledger.proposal(&proposal).unwrap().status, ProposalStatus::Closed);
    assert_eq!(ledger.results.len(), 0);
    commit_vote_results(&mut ledger, &payer(), &proposal, 8, [9u8; 32], None, 0, false).unwrap();
    assert_eq!(finalize_proposal(&mut ledger, &payer(), &proposal, 9), Ok(()));
    assert_eq!(finalize_proposal(&mut ledger, &payer(), &proposal, 10), not_closed);
    let (results, _) = results_address(&id(), &proposal).unwrap();
    assert_eq!(ledger.results(&results).unwrap().finalized_at, Some(9));
    assert_eq!(ledger.results(&results).unwrap().winning_option_id, None);
}

#[test]
fn results_of_another_proposal_do_not_finalize() {
    let mut ledger = Ledger::new(id());
    let proposal = closed_proposal(&mut ledger);
    create_proposal(
        &mut ledger,
        &payer(),
        2,
        *b"proposal-uuid-02",
        ORG,
        "Second".to_string(),
        [0u8; 32],
        Some(1),
        Some(2),
        1,
        None,
    )
    .unwrap();
    let (organization, _) = organization_address(&id(), &ORG).unwrap();
    let (second, _) = proposal_address(&id(), &organization, b"proposal-uuid-02").unwrap();
    update_proposal_status(&mut ledger, &payer(), &second, 3, ProposalStatus::Open).unwrap();
    update_proposal_status(&mut ledger, &payer(), &second, 4, ProposalStatus::Closed).unwrap();
    commit_vote_results(&mut ledger, &payer(), &proposal, 5, [9u8; 32], None, 0, false).unwrap();
    let (results, _) = results_address(&id(), &proposal).unwrap();
    assert_eq!(
        ledger.finalize_proposal_at(&second, &organization, &results, &payer(), 6),
        rejected(GovernanceError::ResultsNotFound)
    );
    assert_eq!(ledger.proposal(&second).unwrap().status, ProposalStatus::Closed);
    assert_eq!(ledger.results(&results).unwrap().finalized_at, None);
}

#[test]
fn results_are_committed_once() {
    let mut ledger = Ledger::new(id());
    let proposal = closed_proposal(&mut ledger);
    commit_vote_results(&mut ledger, &payer(), &proposal, 5, [9u8; 32], Some([1u8; 16]), 10, true)
        .unwrap();
    assert_eq!(
        commit_vote_results(&mut ledger, &payer(), &proposal, 6, [8u8; 32], None, 11, false),
        rejected(GovernanceError::ResultsAlreadyExists)
    );
    let (results, _) = results_address(&id(), &proposal).unwrap();
    let stored = ledger.results(&results).unwrap();
    assert_eq!(stored.results_hash, [9u8; 32]);
    assert_eq!(stored.winning_option_id, Some([1u8; 16]));
    assert_eq!(stored.total_votes_cast, 10);
    assert!(stored.quorum_met);
    assert_eq!(stored.closed_at, 5);
    assert_eq!(stored.finalized_at, None);
    assert_eq!(ledger.results.len(), 1);
}

#[test]
fn only_the_authority_may_act() {
    let mut ledger = Ledger::new(id());
    let proposal = closed_proposal(&mut ledger);
    let unauthorized = rejected(GovernanceError::Unauthorized);
    assert_eq!(
        create_proposal(
            &mut ledger,
            &stranger(),
            2,
            *b"proposal-uuid-02",
            ORG,
            "T".to_string(),
            [0u8; 32],
            None,
            None,
            1,
            None
        ),
        unauthorized
    );
    assert_eq!(
        update_proposal_status(&mut ledger, &stranger(), &proposal, 9, ProposalStatus::Open),
        unauthorized
    );
    assert_eq!(
        commit_vote_results(&mut ledger, &stranger(), &proposal, 9, [9u8; 32], None, 0, false),
        unauthorized
    );
    assert_eq!(finalize_proposal(&mut ledger, &stranger(), &proposal, 9), unauthorized);
    commit_vote_results(&mut ledger, &payer(), &proposal, 10, [9u8; 32], None, 0, false).unwrap();
    assert_eq!(finalize_proposal(&mut ledger, &stranger(), &proposal, 11), unauthorized);
    assert_eq!(
        commit_vote_results(&mut ledger, &stranger(), &proposal, 11, [9u8; 32], None, 0, false),
        unauthorized
    );
    let (organization, _) = organization_address(&id(), &ORG).unwrap();
    let (results, _) = results_address(&id(), &proposal).unwrap();
    assert_eq!(ledger.organization(&organization).unwrap().proposal_count, 1);
    assert_eq!(ledger.proposal(&proposal).unwrap().status, ProposalStatus::Closed);
    assert_eq!(ledger.proposal(&proposal).unwrap().updated_at, 103);
    assert_eq!(ledger.results(&results).unwrap().finalized_at, None);
    assert_eq!(ledger.proposals.len(), 1);
}

#[test]
fn unknown_proposals_are_not_found() {
    let mut ledger = Ledger::new(id());
    let nowhere = Address { bytes: [5u8; 32] };
    let not_found = rejected(GovernanceError::ProposalNotFound);
    assert_eq!(
        update_proposal_status(&mut ledger, &payer(), &nowhere, 1, ProposalStatus::Open),
        not_found
    );
    assert_eq!(
        commit_vote_results(&mut ledger, &payer(), &nowhere, 1, [0u8; 32], None, 0, false),
        not_found
    );
    assert_eq!(finalize_proposal(&mut ledger, &payer(), &nowhere, 1), not_found);
    assert_eq!(
        parent_address(&ledger, &nowhere),
        Err(OperationError::Governance(GovernanceError::ProposalNotFound))
    );
    assert!(ledger.proposal(&nowhere).is_none());
    assert!(ledger.organization(&nowhere).is_none());
    assert!(ledger.results(&nowhere).is_none());
}

#[test]
fn parent_address_is_the_organizations() {
    let mut ledger = Ledger::new(id());
    let proposal = closed_proposal(&mut ledger);
    let (organization, _) = organization_address(&id(), &ORG).unwrap();
    assert_eq!(parent_address(&ledger, &proposal), Ok(organization));
}

#[test]
fn operations_at_given_addresses_need_the_organization() {
    let mut ledger = Ledger::new(id());
    let proposal = closed_proposal(&mut ledger);
    let nowhere = Address { bytes: [5u8; 32] };
    let (results, bump) = results_address(&id(), &proposal).unwrap();
    let missing = rejected(GovernanceError::OrganizationNotFound);
    assert_eq!(
        ledger.update_proposal_status_at(&proposal, &nowhere, &payer(), 1, ProposalStatus::Open),
        missing
    );
    assert_eq!(
        ledger.commit_vote_results_at(
            &proposal,
            &nowhere,
            &results,
            bump,
            &payer(),
            1,
            [0u8; 32],
            None,
            0,
            false
        ),
        missing
    );
    assert_eq!(ledger.finalize_proposal_at(&proposal, &nowhere, &results, &payer(), 1), missing);
    assert_eq!(
        ledger.create_organization_at(&nowhere, 7, &stranger(), 1, [1u8; 16], "X".to_string()),
        Ok(())
    );
    assert_eq!(ledger.organization(&nowhere).unwrap().bump, 7);
    assert_eq!(ledger.organization(&nowhere).unwrap().authority, stranger());
}

#[test]
fn guard_answers_for_an_organization() {
    let mut ledger = Ledger::new(id());
    let (organization, _) = organization_address(&id(), &ORG).unwrap();
    assert_eq!(
        guard(&ledger, &organization, &payer()),
        rejected(GovernanceError::OrganizationNotFound)
    );
    create_organization(&mut ledger, &payer(), 1, ORG, "Test Org".to_string()).unwrap();
    assert_eq!(guard(&ledger, &organization, &payer()), Ok(()));
    assert_eq!(guard(&ledger, &organization, &stranger()), rejected(GovernanceError::Unauthorized));
}

#[test]
fn requests_are_applied_one_by_one() {
    let mut ledger = Ledger::new(id());
    let organization = Address { bytes: [10u8; 32] };
    let proposal = Address { bytes: [11u8; 32] };
    let results = Address { bytes: [12u8; 32] };
    let caller = payer();
    let update = |new_status: ProposalStatus| Request::UpdateProposalStatus {
        proposal,
        organization,
        caller,
        now: 3,
        new_status,
    };
    assert_eq!(
        ledger.apply(update(ProposalStatus::Open)),
        rejected(GovernanceError::ProposalNotFound)
    );
    assert_eq!(
        ledger.apply(Request::CreateOrganization {
            address: organization,
            bump: 255,
            caller,
            now: 1,
            organization_id: ORG,
            name: "Test Org".to_string(),
        }),
        Ok(())
    );
    assert_eq!(
        ledger.apply(Request::CreateProposal {
            organization,
            address: proposal,
            bump: 254,
            caller,
            now: 2,
            proposal_id: PROPOSAL,
            organization_id: ORG,
            title: "Test Proposal".to_string(),
            content_hash: [7u8; 32],
            start_at: Some(1),
            end_at: Some(2),
            eligible_voting_power: 10,
            quorum_requirement: Some(5000),
        }),
        Ok(())
    );
    assert_eq!(ledger.apply(update(ProposalStatus::Open)), Ok(()));
    assert_eq!(ledger.apply(update(ProposalStatus::Closed)), Ok(()));
    let finalize =
        || Request::FinalizeProposal { proposal, organization, results, caller, now: 6 };
    assert_eq!(ledger.apply(finalize()), rejected(GovernanceError::ResultsNotFound));
    assert_eq!(
        ledger.apply(Request::CommitVoteResults {
            proposal,
            organization,
            results,
            bump: 253,
            caller,
            now: 5,
            results_hash: [9u8; 32],
            winning_option_id: Some([1u8; 16]),
            total_votes_cast: 10,
            quorum_met: true,
        }),
        Ok(())
    );
    assert_eq!(ledger.apply(finalize()), Ok(()));
    assert_eq!(
        ledger.apply(finalize()),
        rejected(GovernanceError::ProposalNotClosedForFinalization)
    );
    assert_eq!(ledger.proposal(&proposal).unwrap().status, ProposalStatus::Finalized);
    assert_eq!(ledger.proposal(&proposal).unwrap().bump, 254);
    assert_eq!(ledger.results(&results).unwrap().finalized_at, Some(6));
    assert_eq!(ledger.results(&results).unwrap().bump, 253);
    assert_eq!(ledger.organization(&organization).unwrap().proposal_count, 1);
    assert_eq!(ledger.program_id, id());
}
