//! Derivation of the custodial ("program derived") address.
//!
//! The custodial address is computed from a fixed namespace tag, the vote
//! account's address and this program's identity by a one-way derivation that
//! also yields a disambiguation byte (the "bump"). No private key exists for
//! the derived address: only this program can authorize actions as it.

use vstd::prelude::*;
use crate::address::Address;

verus! {

/// What the host ledger's address derivation returns for two seeds and a
/// program identity: the derived address and its bump, or nothing in the
/// statistically improbable case that no bump yields a valid address.
/// The result is a function of the three arguments alone.
pub uninterp spec fn pda_of(seed_a: Seq<u8>, seed_b: Seq<u8>, program_id: Seq<u8>) -> Option<
    (Seq<u8>, u8),
>;

/// Relies on solana_program::pubkey::Pubkey::try_find_program_address: for
/// fixed seeds and program id it deterministically either finds the derived
/// address with the largest workable bump or reports that none exists; it
/// reads nothing but its arguments and does not panic.
#[verifier::external_body]
pub(crate) fn find_pda(seed_a: &[u8], seed_b: &[u8], program_id: &Address) -> (r: Option<
    (Address, u8),
>)
    ensures
        r matches Some(p) ==> pda_of(seed_a@, seed_b@, program_id@) == Some((p.0@, p.1)),
        r is None ==> pda_of(seed_a@, seed_b@, program_id@) is None,
{
    let pk = solana_program::pubkey::Pubkey::new_from_array(program_id.bytes);
    solana_program::pubkey::Pubkey::try_find_program_address(&[seed_a, seed_b], &pk).map(
        |found: (solana_program::pubkey::Pubkey, u8)|
            (Address { bytes: found.0.to_bytes() }, found.1),
    )
}

/// The namespace tag prepended to the vote account's address when deriving
/// its custodial address: the ASCII bytes of "RewardsVault".
pub open spec fn seed_prefix() -> Seq<u8> {
    seq![
        0x52u8,
        0x65u8,
        0x77u8,
        0x61u8,
        0x72u8,
        0x64u8,
        0x73u8,
        0x56u8,
        0x61u8,
        0x75u8,
        0x6cu8,
        0x74u8,
    ]
}

/// The namespace tag as account-data bytes.
pub fn seed_prefix_bytes() -> (r: [u8; 12])
    ensures
        r@ == seed_prefix(),
{
    let r: [u8; 12] = [
        0x52u8,
        0x65u8,
        0x77u8,
        0x61u8,
        0x72u8,
        0x64u8,
        0x73u8,
        0x56u8,
        0x61u8,
        0x75u8,
        0x6cu8,
        0x74u8,
    ];
    proof {
        assert(r@ =~= seed_prefix());
    }
    r
}

/// This program's fixed identity.
pub open spec fn program_id() -> Seq<u8> {
    seq![
        0xd0u8,
        0x08u8,
        0x19u8,
        0xb2u8,
        0x41u8,
        0xfdu8,
        0xa4u8,
        0x7eu8,
        0x71u8,
        0xe8u8,
        0xd6u8,
        0x66u8,
        0xdbu8,
        0xd6u8,
        0x85u8,
        0x78u8,
        0x1au8,
        0x7cu8,
        0xd6u8,
        0x8cu8,
        0xe9u8,
        0x7eu8,
        0x2au8,
        0x06u8,
        0x88u8,
        0x36u8,
        0x5du8,
        0x9eu8,
        0x9fu8,
        0x8bu8,
        0x8au8,
        0x7du8,
    ]
}

/// This program's fixed identity as an address value.
pub fn id() -> (r: Address)
    ensures
        r@ == program_id(),
{
    let bytes: [u8; 32] = [
        0xd0u8,
        0x08u8,
        0x19u8,
        0xb2u8,
        0x41u8,
        0xfdu8,
        0xa4u8,
        0x7eu8,
        0x71u8,
        0xe8u8,
        0xd6u8,
        0x66u8,
        0xdbu8,
        0xd6u8,
        0x85u8,
        0x78u8,
        0x1au8,
        0x7cu8,
        0xd6u8,
        0x8cu8,
        0xe9u8,
        0x7eu8,
        0x2au8,
        0x06u8,
        0x88u8,
        0x36u8,
        0x5du8,
        0x9eu8,
        0x9fu8,
        0x8bu8,
        0x8au8,
        0x7du8,
    ];
    proof {
        assert(bytes@ =~= program_id());
    }
    Address { bytes }
}

/// The full derivation for one vote account: namespace tag, vote account
/// address, this program's identity.
pub open spec fn vault_pda_of(vote_account: Seq<u8>) -> Option<(Seq<u8>, u8)> {
    pda_of(seed_prefix(), vote_account, program_id())
}

/// Whether the derivation finds a custodial address for this vote account.
pub open spec fn vault_pda_found(vote_account: Seq<u8>) -> bool {
    vault_pda_of(vote_account) is Some
}

/// The custodial address derived for this vote account.
pub open spec fn vault_address_of(vote_account: Seq<u8>) -> Seq<u8> {
    vault_pda_of(vote_account)->Some_0.0
}

/// The bump byte found for this vote account's custodial address.
pub open spec fn vault_bump_of(vote_account: Seq<u8>) -> u8 {
    vault_pda_of(vote_account)->Some_0.1
}

} // verus!
