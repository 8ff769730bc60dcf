//! The three operations and the opcode byte that selects one of them.

use vstd::prelude::*;
use crate::error::VaultError;

verus! {

/// The closed set of operations: a single leading opcode byte selects one.
#[derive(Clone, Copy, Debug, PartialEq, Eq, Structural)]
pub enum RewardsVaultInstruction {
    /// Opcode 0: place a vote account under custody.
    Enter,
    /// Opcode 1: end custody and refund the custodial account's balance.
    Leave,
    /// Opcode 2: pay out the vote account's balance above its reserve.
    WithdrawRewards,
}

/// Which operation an instruction payload selects: byte 0 is the opcode
/// (0 = Enter, 1 = Leave, 2 = WithdrawRewards), any trailing payload is
/// ignored, and a missing or unknown opcode is rejected.
pub open spec fn spec_parse_instruction(data: Seq<u8>) -> Result<
    RewardsVaultInstruction,
    VaultError,
> {
    if data.len() == 0 {
        Err(VaultError::InvalidInstructionData)
    } else if data[0] == 0u8 {
        Ok(RewardsVaultInstruction::Enter)
    } else if data[0] == 1u8 {
        Ok(RewardsVaultInstruction::Leave)
    } else if data[0] == 2u8 {
        Ok(RewardsVaultInstruction::WithdrawRewards)
    } else {
        Err(VaultError::InvalidInstructionData)
    }
}

/// Decode the leading opcode byte of an instruction payload.
pub fn parse_instruction(data: &[u8]) -> (r: Result<RewardsVaultInstruction, VaultError>)
    ensures
        r == spec_parse_instruction(data@),
{
    if data.len() == 0 {
        return Err(VaultError::InvalidInstructionData);
    }
    let opcode = *vstd::slice::slice_index_get(data, 0);
    if opcode == 0 {
        Ok(RewardsVaultInstruction::Enter)
    } else if opcode == 1 {
        Ok(RewardsVaultInstruction::Leave)
    } else if opcode == 2 {
        Ok(RewardsVaultInstruction::WithdrawRewards)
    } else {
        Err(VaultError::InvalidInstructionData)
    }
}

/// How many accounts the selected operation consumes from the ordered list.
pub open spec fn required_accounts(op: RewardsVaultInstruction) -> int {
    match op {
        RewardsVaultInstruction::Enter => 8,
        RewardsVaultInstruction::Leave => 6,
        RewardsVaultInstruction::WithdrawRewards => 5,
    }
}

} // verus!
