//! The five operations, each on the records it touches.

pub mod commit_vote_results;
pub mod create_organization;
pub mod create_proposal;
pub mod finalize_proposal;
pub mod update_proposal_status;

use crate::address::Address;
use crate::errors::GovernanceError;
use crate::state::OrganizationAccount;
use vstd::prelude::*;

verus! {

/// The authorization guard: the caller must be the authority registered on
/// the organization.
pub fn authorize(organization: &OrganizationAccount, caller: &Address) -> (r: Result<
    (),
    GovernanceError,
>)
    ensures
        organization.authority == *caller ==> r == Ok::<(), GovernanceError>(()),
        organization.authority != *caller ==> r == Err::<(), GovernanceError>(
            GovernanceError::Unauthorized,
        ),
{
    if organization.authority.same(caller) {
        Ok(())
    } else {
        Err(GovernanceError::Unauthorized)
    }
}

} // verus!
