//! Reasons for which an operation is rejected.

use vstd::prelude::*;

verus! {

/// A rejection raised by the governance rules themselves.
#[derive(Clone, Copy, Debug, PartialEq, Eq, Structural)]
pub enum GovernanceError {
    TitleTooLong,
    NameTooLong,
    InvalidStateTransition,
    InvalidQuorumRequirement,
    InvalidTimeRange,
    ProposalNotClosed,
    ProposalNotClosedForFinalization,
    ResultsAlreadyExists,
    ResultsNotFound,
    Unauthorized,
    OrganizationNotFound,
    ProposalNotFound,
}

impl GovernanceError {
    /// Position of the variant in the declaration order.
    pub open spec fn ordinal(self) -> nat {
        match self {
            GovernanceError::TitleTooLong => 0,
            GovernanceError::NameTooLong => 1,
            GovernanceError::InvalidStateTransition => 2,
            GovernanceError::InvalidQuorumRequirement => 3,
            GovernanceError::InvalidTimeRange => 4,
            GovernanceError::ProposalNotClosed => 5,
            GovernanceError::ProposalNotClosedForFinalization => 6,
            GovernanceError::ResultsAlreadyExists => 7,
            GovernanceError::ResultsNotFound => 8,
            GovernanceError::Unauthorized => 9,
            GovernanceError::OrganizationNotFound => 10,
            GovernanceError::ProposalNotFound => 11,
        }
    }

    /// Numeric code under which the rejection is reported: custom codes
    /// start at 6000 and follow the declaration order.
    pub fn code(&self) -> (r: u32)
        ensures
            r == 6000 + self.ordinal(),
    {
        match self {
            GovernanceError::TitleTooLong => 6000,
            GovernanceError::NameTooLong => 6001,
            GovernanceError::InvalidStateTransition => 6002,
            GovernanceError::InvalidQuorumRequirement => 6003,
            GovernanceError::InvalidTimeRange => 6004,
            GovernanceError::ProposalNotClosed => 6005,
            GovernanceError::ProposalNotClosedForFinalization => 6006,
            GovernanceError::ResultsAlreadyExists => 6007,
            GovernanceError::ResultsNotFound => 6008,
            GovernanceError::Unauthorized => 6009,
            GovernanceError::OrganizationNotFound => 6010,
            GovernanceError::ProposalNotFound => 6011,
        }
    }

    /// Human-readable text of the rejection.
    pub fn message(&self) -> (r: &'static str)
        ensures
            r@ == self.message_text(),
    {
        match self {
            GovernanceError::TitleTooLong => "Title exceeds maximum length",
            GovernanceError::NameTooLong => "Name exceeds maximum length",
            GovernanceError::InvalidStateTransition => "Invalid state transition",
            GovernanceError::InvalidQuorumRequirement => "Invalid quorum requirement (must be 0-10000)",
            GovernanceError::InvalidTimeRange => "Start time must be before end time",
            GovernanceError::ProposalNotClosed => "Proposal must be closed before committing results",
            GovernanceError::ProposalNotClosedForFinalization => "Proposal must be closed before finalizing",
            GovernanceError::ResultsAlreadyExists => "Results account already exists",
            GovernanceError::ResultsNotFound => "Results account does not exist",
            GovernanceError::Unauthorized => "Unauthorized: not the organization authority",
            GovernanceError::OrganizationNotFound => "Organization account not found",
            GovernanceError::ProposalNotFound => "Proposal account not found",
        }
    }

    /// The text that `message` returns, as a sequence of characters.
    pub open spec fn message_text(self) -> Seq<char> {
        match self {
            GovernanceError::TitleTooLong => "Title exceeds maximum length"@,
            GovernanceError::NameTooLong => "Name exceeds maximum length"@,
            GovernanceError::InvalidStateTransition => "Invalid state transition"@,
            GovernanceError::InvalidQuorumRequirement => "Invalid quorum requirement (must be 0-10000)"@,
            GovernanceError::InvalidTimeRange => "Start time must be before end time"@,
            GovernanceError::ProposalNotClosed => "Proposal must be closed before committing results"@,
            GovernanceError::ProposalNotClosedForFinalization => "Proposal must be closed before finalizing"@,
            GovernanceError::ResultsAlreadyExists => "Results account already exists"@,
            GovernanceError::ResultsNotFound => "Results account does not exist"@,
            GovernanceError::Unauthorized => "Unauthorized: not the organization authority"@,
            GovernanceError::OrganizationNotFound => "Organization account not found"@,
            GovernanceError::ProposalNotFound => "Proposal account not found"@,
        }
    }
}

/// Why an operation on the ledger was rejected.
#[derive(Clone, Copy, Debug, PartialEq, Eq, Structural)]
pub enum OperationError {
    /// One of the governance rules rejected the request.
    Governance(GovernanceError),
    /// The address at which a record was to be created already holds one.
    AddressInUse,
    /// No address can be derived from the given keys.
    NoViableAddress,
}

} // verus!
