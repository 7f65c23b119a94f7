use fan_governance::errors::GovernanceError;
use fan_governance::state::{
    check_transition, text_len, OrganizationAccount, ProposalAccount, ProposalResultsAccount,
    ProposalStatus,
};

#[test]
fn proposal_status_matches_expected_values() {
    assert_eq!(ProposalStatus::Draft as u8, 0);
    assert_eq!(ProposalStatus::Open as u8, 1);
    assert_eq!(ProposalStatus::Closed as u8, 2);
    assert_eq!(ProposalStatus::Finalized as u8, 3);
}

#[test]
fn account_size_bounds_are_nonzero() {
    assert!(OrganizationAccount::LEN > 0);
    assert!(ProposalAccount::LEN > 0);
    assert!(ProposalResultsAccount::LEN > 0);
}

#[test]
fn max_lengths_and_quorum_bounds_are_reasonable() {
    assert!(OrganizationAccount::MAX_NAME_LENGTH >= 50);
    assert!(ProposalAccount::MAX_TITLE_LENGTH >= 100);
    assert_eq!(ProposalAccount::MAX_QUORUM, 10_000);
}

#[test]
fn account_sizes_have_their_exact_values() {
    assert_eq!(OrganizationAccount::LEN, 173);
    assert_eq!(ProposalAccount::LEN, 355);
    assert_eq!(ProposalResultsAccount::LEN, 100);
}

#[test]
fn status_numbers_follow_the_lifecycle() {
    assert_eq!(ProposalStatus::Draft.to_u8(), 0);
    assert_eq!(ProposalStatus::Open.to_u8(), 1);
    assert_eq!(ProposalStatus::Closed.to_u8(), 2);
    assert_eq!(ProposalStatus::Finalized.to_u8(), 3);
}

#[test]
fn text_length_counts_bytes() {
    assert_eq!(text_len("Test Org"), 8);
    assert_eq!(text_len("é"), 2);
    assert_eq!(text_len(""), 0);
}

#[test]
fn transition_table_allows_two_steps_only() {
    let all = [
        ProposalStatus::Draft,
        ProposalStatus::Open,
        ProposalStatus::Closed,
        ProposalStatus::Finalized,
    ];
    for from in all {
        for to in all {
            let got = check_transition(from, to, Some(1), Some(2));
            let allowed = matches!(
                (from, to),
                (ProposalStatus::Draft, ProposalStatus::Open)
                    | (ProposalStatus::Open, ProposalStatus::Closed)
            );
            if allowed {
                assert_eq!(got, Ok(()));
            } else {
                assert_eq!(got, Err(GovernanceError::InvalidStateTransition));
            }
        }
    }
}

#[test]
fn opening_needs_a_voting_window_in_order() {
    let open = |start, end| check_transition(ProposalStatus::Draft, ProposalStatus::Open, start, end);
    assert_eq!(open(Some(1), Some(2)), Ok(()));
    assert_eq!(open(Some(5), Some(5)), Err(GovernanceError::InvalidTimeRange));
    assert_eq!(open(Some(6), Some(5)), Err(GovernanceError::InvalidTimeRange));
    assert_eq!(open(None, Some(5)), Err(GovernanceError::InvalidTimeRange));
    assert_eq!(open(Some(5), None), Err(GovernanceError::InvalidTimeRange));
    assert_eq!(open(None, None), Err(GovernanceError::InvalidTimeRange));
    assert_eq!(open(Some(i64::MIN), Some(i64::MAX)), Ok(()));
}

#[test]
fn closing_needs_no_window() {
    assert_eq!(check_transition(ProposalStatus::Open, ProposalStatus::Closed, None, None), Ok(()));
}

#[test]
fn error_codes_and_messages() {
    assert_eq!(GovernanceError::TitleTooLong.code(), 6000);
    assert_eq!(GovernanceError::Unauthorized.code(), 6009);
    assert_eq!(GovernanceError::ProposalNotFound.code(), 6011);
    assert_eq!(GovernanceError::NameTooLong.message(), "Name exceeds maximum length");
    assert_eq!(
        GovernanceError::InvalidQuorumRequirement.message(),
        "Invalid quorum requirement (must be 0-10000)"
    );
    assert_eq!(GovernanceError::ResultsNotFound.message(), "Results account does not exist");
}

#[test]
fn zeroed_records_are_blank() {
    let organization = OrganizationAccount::zeroed();
    assert_eq!(organization.proposal_count, 0);
    assert_eq!(organization.name, "");
    let proposal = ProposalAccount::zeroed();
    assert_eq!(proposal.status, ProposalStatus::Draft);
    assert_eq!(proposal.title, "");
    let results = ProposalResultsAccount::zeroed();
    assert_eq!(results.finalized_at, None);
    assert_eq!(results.results_hash, [0u8; 32]);
}

#[test]
fn duplicates_hold_the_same_fields() {
    let mut organization = OrganizationAccount::zeroed();
    organization.name = "Test Org".to_string();
    organization.proposal_count = 7;
    let copy = organization.duplicate();
    assert_eq!(copy.name, "Test Org");
    assert_eq!(copy.proposal_count, 7);
    let mut proposal = ProposalAccount::zeroed();
    proposal.title = "Test Proposal".to_string();
    proposal.status = ProposalStatus::Closed;
    proposal.quorum_requirement = Some(5000);
    let copy = proposal.duplicate();
    assert_eq!(copy.title, "Test Proposal");
    assert_eq!(copy.status, ProposalStatus::Closed);
    assert_eq!(copy.quorum_requirement, Some(5000));
}
