//! On-chain rewards-vault program core: a three-operation state machine that
//! places a vote account's withdraw authority under the custody of a
//! program-derived address, lets a designated rewards authority claim the
//! balance accrued above the account's required minimum reserve, and later
//! returns the withdraw authority to its original holder.

pub mod address;
pub mod error;
pub mod instruction;
pub mod laws;
pub mod pda;
pub mod processor;
pub mod state;

use vstd::prelude::*;
use crate::address::Address;
use crate::pda::{vault_address_of, vault_bump_of, vault_pda_found};

verus! {

/// The custodial address and bump derived for a vote account, or `None` in
/// the statistically improbable case that the derivation finds no bump.
pub fn get_rewards_vault_address_and_bump_seed(vote_account_address: &Address) -> (r: Option<
    (Address, u8),
>)
    ensures
        r is Some <==> vault_pda_found(vote_account_address@),
        r matches Some(p) ==> {
            &&& p.0@ == vault_address_of(vote_account_address@)
            &&& p.1 == vault_bump_of(vote_account_address@)
        },
{
    let prefix = pda::seed_prefix_bytes();
    let program = pda::id();
    pda::find_pda(prefix.as_slice(), vote_account_address.bytes.as_slice(), &program)
}

/// The custodial address derived for a vote account, or `None` in the
/// statistically improbable case that the derivation finds no bump.
pub fn get_rewards_vault_address(vote_account_address: &Address) -> (r: Option<Address>)
    ensures
        r is Some <==> vault_pda_found(vote_account_address@),
        r matches Some(a) ==> a@ == vault_address_of(vote_account_address@),
{
    match get_rewards_vault_address_and_bump_seed(vote_account_address) {
        Some(p) => Some(p.0),
        None => None,
    }
}

} // verus!
