//! The plain entry point: authenticates the first account and accepts
//! instruction data that is text.

use crate::address::Address;
use vstd::prelude::*;
use vstd::utf8::valid_utf8;

verus! {

/// What the entry point reads of an account handed to it.
#[derive(Clone, Copy, Debug, PartialEq, Eq)]
pub struct AccountSummary {
    pub address: Address,
    pub is_signer: bool,
}

/// Why the entry point rejects an instruction.
#[derive(Clone, Copy, Debug, PartialEq, Eq, Structural)]
pub enum EntryError {
    NotEnoughAccountKeys,
    MissingRequiredSignature,
    InvalidInstructionData,
}

/// Calls `core::str::from_utf8` and tells whether it accepted the bytes,
/// which it does exactly when they are well-formed UTF-8.
#[verifier::external_body]
fn is_utf8(data: &[u8]) -> (r: bool)
    ensures
        r == valid_utf8(data@),
{
    core::str::from_utf8(data).is_ok()
}

/// What the entry point answers: it wants at least one account, the first
/// of them a signer, and instruction data that is well-formed UTF-8.
pub open spec fn entry_outcome(accounts: Seq<AccountSummary>, instruction_data: Seq<u8>) -> Result<
    (),
    EntryError,
> {
    if accounts.len() == 0 {
        Err(EntryError::NotEnoughAccountKeys)
    } else if !accounts[0].is_signer {
        Err(EntryError::MissingRequiredSignature)
    } else if !valid_utf8(instruction_data) {
        Err(EntryError::InvalidInstructionData)
    } else {
        Ok(())
    }
}

/// Authenticates the instruction and checks its data.
pub fn process_instruction(
    _program_id: &Address,
    accounts: &[AccountSummary],
    instruction_data: &[u8],
) -> (r: Result<(), EntryError>)
    ensures
        r == entry_outcome(accounts@, instruction_data@),
{
    if accounts.len() == 0 {
        return Err(EntryError::NotEnoughAccountKeys);
    }
    if !accounts[0].is_signer {
        return Err(EntryError::MissingRequiredSignature);
    }
    if !is_utf8(instruction_data) {
        return Err(EntryError::InvalidInstructionData);
    }
    Ok(())
}

} // verus!
