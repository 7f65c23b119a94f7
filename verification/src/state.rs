//! The three durable records and the lifecycle of a proposal.

use crate::address::Address;
use crate::errors::GovernanceError;
use vstd::prelude::*;
use vstd::string::StringSliceAdditionalSpecFns;

verus! {

/// Length in bytes of a text, as it is stored.
pub open spec fn byte_len(text: Seq<char>) -> nat {
    vstd::utf8::encode_utf8(text).len()
}

/// `n` zero bytes.
pub open spec fn zeros(n: nat) -> Seq<u8> {
    Seq::new(n, |i: int| 0u8)
}

/// Counts the bytes of a text.
pub fn text_len(text: &str) -> (r: usize)
    ensures
        r == byte_len(text@),
{
    text.as_bytes().len()
}

/// Root record of an organization.
#[derive(Debug)]
pub struct OrganizationAccount {
    pub organization_id: [u8; 16],
    pub name: String,
    pub created_at: i64,
    pub authority: Address,
    pub proposal_count: u32,
    pub bump: u8,
}

impl OrganizationAccount {
    pub const MAX_NAME_LENGTH: usize = 100;

    /// Bytes that a stored organization takes at most.
    pub const LEN: usize = 8 + 16 + 4 + 100 + 8 + 32 + 4 + 1;

    /// The field invariant of a stored organization.
    pub open spec fn wf(&self) -> bool {
        byte_len(self.name@) <= Self::MAX_NAME_LENGTH
    }

    /// The record of a freshly allotted address: every byte zero, no name.
    pub fn zeroed() -> (r: OrganizationAccount)
        ensures
            r.organization_id@ == zeros(16),
            r.name@ == Seq::<char>::empty(),
            r.created_at == 0,
            r.authority.bytes@ == zeros(32),
            r.proposal_count == 0,
            r.bump == 0,
    {
        OrganizationAccount {
            organization_id: [0u8; 16],
            name: String::new(),
            created_at: 0,
            authority: Address { bytes: [0u8; 32] },
            proposal_count: 0,
            bump: 0,
        }
    }

    /// A copy of the record.
    pub fn duplicate(&self) -> (r: OrganizationAccount)
        ensures
            r == *self,
    {
        OrganizationAccount {
            organization_id: self.organization_id,
            name: self.name.clone(),
            created_at: self.created_at,
            authority: self.authority,
            proposal_count: self.proposal_count,
            bump: self.bump,
        }
    }
}

/// Where a proposal stands in its lifecycle.
#[derive(Clone, Copy, Debug, PartialEq, Eq, Structural)]
pub enum ProposalStatus {
    Draft,
    Open,
    Closed,
    Finalized,
}

impl ProposalStatus {
    /// Position of the status in the lifecycle, from 0 for `Draft`.
    pub open spec fn rank(self) -> nat {
        match self {
            ProposalStatus::Draft => 0,
            ProposalStatus::Open => 1,
            ProposalStatus::Closed => 2,
            ProposalStatus::Finalized => 3,
        }
    }

    /// The number under which the status is stored.
    pub fn to_u8(&self) -> (r: u8)
        ensures
            r == self.rank(),
    {
        match self {
            ProposalStatus::Draft => 0,
            ProposalStatus::Open => 1,
            ProposalStatus::Closed => 2,
            ProposalStatus::Finalized => 3,
        }
    }
}

/// Whether both bounds are present and the start lies strictly before the end.
pub open spec fn window_is_set(start_at: Option<i64>, end_at: Option<i64>) -> bool {
    start_at is Some && end_at is Some && start_at->0 < end_at->0
}

/// The transition table of the generic status update: what a request to
/// move from `from` to `to` meets, given the proposal's voting window.
pub open spec fn transition_outcome(
    from: ProposalStatus,
    to: ProposalStatus,
    start_at: Option<i64>,
    end_at: Option<i64>,
) -> Result<(), GovernanceError> {
    match (from, to) {
        (ProposalStatus::Draft, ProposalStatus::Open) => if window_is_set(start_at, end_at) {
            Ok(())
        } else {
            Err(GovernanceError::InvalidTimeRange)
        },
        (ProposalStatus::Open, ProposalStatus::Closed) => Ok(()),
        _ => Err(GovernanceError::InvalidStateTransition),
    }
}

/// Looks a requested transition up in the table.
pub fn check_transition(
    from: ProposalStatus,
    to: ProposalStatus,
    start_at: Option<i64>,
    end_at: Option<i64>,
) -> (r: Result<(), GovernanceError>)
    ensures
        r == transition_outcome(from, to, start_at, end_at),
{
    match (from, to) {
        (ProposalStatus::Draft, ProposalStatus::Open) => {
            match (start_at, end_at) {
                (Some(start), Some(end)) => {
                    if start < end {
                        Ok(())
                    } else {
                        Err(GovernanceError::InvalidTimeRange)
                    }
                },
                _ => Err(GovernanceError::InvalidTimeRange),
            }
        },
        (ProposalStatus::Open, ProposalStatus::Closed) => Ok(()),
        _ => Err(GovernanceError::InvalidStateTransition),
    }
}

/// Metadata and lifecycle state of a proposal.
#[derive(Debug)]
pub struct ProposalAccount {
    pub proposal_id: [u8; 16],
    pub organization_id: [u8; 16],
    pub title: String,
    pub content_hash: [u8; 32],
    pub status: ProposalStatus,
    pub start_at: Option<i64>,
    pub end_at: Option<i64>,
    pub eligible_voting_power: u64,
    pub quorum_requirement: Option<u16>,
    pub created_by: Address,
    pub created_at: i64,
    pub updated_at: i64,
    pub bump: u8,
}

impl ProposalAccount {
    pub const MAX_TITLE_LENGTH: usize = 200;

    /// The largest quorum, in basis points: 100.00%.
    pub const MAX_QUORUM: u16 = 10000;

    /// Bytes that a stored proposal takes at most.
    pub const LEN: usize = 8 + 16 + 16 + 4 + 200 + 32 + 1 + 1 + 8 + 1 + 8 + 8 + 1 + 2 + 32 + 8 + 8
        + 1;

    /// The field invariant of a stored proposal: title and quorum within
    /// their limits, a given voting window in order, and a window that is
    /// set once the proposal has left `Draft`.
    pub open spec fn wf(&self) -> bool {
        &&& byte_len(self.title@) <= Self::MAX_TITLE_LENGTH
        &&& self.quorum_requirement matches Some(q) ==> q <= Self::MAX_QUORUM
        &&& (self.start_at is Some && self.end_at is Some) ==> self.start_at->0 < self.end_at->0
        &&& self.status != ProposalStatus::Draft ==> window_is_set(self.start_at, self.end_at)
    }

    /// The record of a freshly allotted address: every byte zero, no
    /// title, in `Draft`.
    pub fn zeroed() -> (r: ProposalAccount)
        ensures
            r.proposal_id@ == zeros(16),
            r.organization_id@ == zeros(16),
            r.title@ == Seq::<char>::empty(),
            r.content_hash@ == zeros(32),
            r.status == ProposalStatus::Draft,
            r.start_at is None,
            r.end_at is None,
            r.eligible_voting_power == 0,
            r.quorum_requirement is None,
            r.created_by.bytes@ == zeros(32),
            r.created_at == 0,
            r.updated_at == 0,
            r.bump == 0,
    {
        ProposalAccount {
            proposal_id: [0u8; 16],
            organization_id: [0u8; 16],
            title: String::new(),
            content_hash: [0u8; 32],
            status: ProposalStatus::Draft,
            start_at: None,
            end_at: None,
            eligible_voting_power: 0,
            quorum_requirement: None,
            created_by: Address { bytes: [0u8; 32] },
            created_at: 0,
            updated_at: 0,
            bump: 0,
        }
    }

    /// A copy of the record.
    pub fn duplicate(&self) -> (r: ProposalAccount)
        ensures
            r == *self,
    {
        ProposalAccount {
            proposal_id: self.proposal_id,
            organization_id: self.organization_id,
            title: self.title.clone(),
            content_hash: self.content_hash,
            status: self.status,
            start_at: self.start_at,
            end_at: self.end_at,
            eligible_voting_power: self.eligible_voting_power,
            quorum_requirement: self.quorum_requirement,
            created_by: self.created_by,
            created_at: self.created_at,
            updated_at: self.updated_at,
            bump: self.bump,
        }
    }
}

/// The committed outcome of the vote on a proposal.
#[derive(Clone, Copy, Debug)]
pub struct ProposalResultsAccount {
    pub proposal_id: [u8; 16],
    pub results_hash: [u8; 32],
    pub winning_option_id: Option<[u8; 16]>,
    pub total_votes_cast: u64,
    pub quorum_met: bool,
    pub closed_at: i64,
    pub finalized_at: Option<i64>,
    pub bump: u8,
}

impl ProposalResultsAccount {
    /// Bytes that a stored results record takes at most.
    pub const LEN: usize = 8 + 16 + 32 + 1 + 16 + 8 + 1 + 8 + 1 + 8 + 1;

    /// The record of a freshly allotted address: every byte zero.
    pub fn zeroed() -> (r: ProposalResultsAccount)
        ensures
            r.proposal_id@ == zeros(16),
            r.results_hash@ == zeros(32),
            r.winning_option_id is None,
            r.total_votes_cast == 0,
            !r.quorum_met,
            r.closed_at == 0,
            r.finalized_at is None,
            r.bump == 0,
    {
        ProposalResultsAccount {
            proposal_id: [0u8; 16],
            results_hash: [0u8; 32],
            winning_option_id: None,
            total_votes_cast: 0,
            quorum_met: false,
            closed_at: 0,
            finalized_at: None,
            bump: 0,
        }
    }

    /// Whether `later` holds the same commitment as `self`: everything but
    /// the time of finalization.
    pub open spec fn same_commitment(&self, later: &ProposalResultsAccount) -> bool {
        &&& later.proposal_id == self.proposal_id
        &&& later.results_hash == self.results_hash
        &&& later.winning_option_id == self.winning_option_id
        &&& later.total_votes_cast == self.total_votes_cast
        &&& later.quorum_met == self.quorum_met
        &&& later.closed_at == self.closed_at
        &&& later.bump == self.bump
    }
}

} // verus!
