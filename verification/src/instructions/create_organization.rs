//! Creation of an organization.

use crate::address::Address;
use crate::errors::GovernanceError;
use crate::state::{byte_len, text_len, OrganizationAccount};
use vstd::prelude::*;

verus! {

/// What the creation of an organization touches.
#[derive(Debug)]
pub struct CreateOrganization {
    /// The record to fill.
    pub organization: OrganizationAccount,
    /// The caller, who becomes the organization's authority.
    pub authority: Address,
    /// Bump seed of the record's address.
    pub bump: u8,
}

/// The record of an organization as it is first written.
pub open spec fn new_organization(
    authority: Address,
    bump: u8,
    now: i64,
    organization_id: [u8; 16],
    name: String,
) -> OrganizationAccount {
    OrganizationAccount {
        organization_id,
        name,
        created_at: now,
        authority,
        proposal_count: 0,
        bump,
    }
}

/// Fills the record of a new organization, unless its name is longer than
/// `OrganizationAccount::MAX_NAME_LENGTH` bytes.
pub fn handler(ctx: &mut CreateOrganization, now: i64, organization_id: [u8; 16], name: String) -> (r:
    Result<(), GovernanceError>)
    ensures
        byte_len(name@) <= OrganizationAccount::MAX_NAME_LENGTH ==> r == Ok::<(), GovernanceError>(
            (),
        ),
        byte_len(name@) > OrganizationAccount::MAX_NAME_LENGTH ==> r == Err::<(), GovernanceError>(
            GovernanceError::NameTooLong,
        ),
        r is Ok ==> final(ctx).organization == new_organization(
            old(ctx).authority,
            old(ctx).bump,
            now,
            organization_id,
            name,
        ) && final(ctx).organization.wf(),
        r is Ok ==> final(ctx).authority == old(ctx).authority && final(ctx).bump == old(ctx).bump,
        r is Err ==> *final(ctx) == *old(ctx),
{
    if text_len(name.as_str()) > OrganizationAccount::MAX_NAME_LENGTH {
        return Err(GovernanceError::NameTooLong);
    }
    ctx.organization.organization_id = organization_id;
    ctx.organization.name = name;
    ctx.organization.created_at = now;
    ctx.organization.authority = ctx.authority;
    ctx.organization.proposal_count = 0;
    ctx.organization.bump = ctx.bump;
    Ok(())
}

} // verus!
