//! Errors the instruction processor can report.

use vstd::prelude::*;

verus! {

/// Why an instruction was rejected. Every failure aborts the whole operation
/// before any account state is touched, so an error always means "no effect".
#[derive(Clone, Copy, Debug, PartialEq, Eq, Structural)]
pub enum VaultError {
    /// The supplied custodial account is not the address derived for the
    /// vote account.
    InvalidArgument,
    /// Enter found a custodial record that is already populated.
    AccountAlreadyInitialized,
    /// The authority offered for the operation is wrong or did not sign.
    MissingRequiredSignature,
    /// The custodial account's data is not a record of the expected size.
    InvalidAccountData,
    /// The opcode byte is missing or unknown, or a withdrawal would dip
    /// below the vote account's minimum reserve.
    InvalidInstructionData,
    /// The account list is shorter than the selected operation needs.
    NotEnoughAccountKeys,
    /// The funding account cannot cover the custodial account's reserve.
    InsufficientFunds,
    /// Crediting the recipient would overflow its balance.
    ArithmeticOverflow,
}

} // verus!
