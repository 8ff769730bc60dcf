//! Laws of the custody state machine, proved from the transition
//! specifications alone: address determinism, the Enter/Leave round trip,
//! rejection of double entry, authority gating, and exact accounting of
//! withdrawals and refunds.

use vstd::prelude::*;
use crate::address::all_zero;
use crate::error::VaultError;
use crate::pda::vault_address_of;
use crate::processor::{spec_enter, spec_leave, spec_withdraw, zero_record, AccountView};
use crate::state::{
    lemma_record_fields, lemma_record_populated, original_authority_of, rewards_authority_of,
};

verus! {

/// Deriving the custodial address is deterministic: the same vote account
/// always yields the same custodial address.
pub proof fn lemma_vault_address_deterministic(v1: Seq<u8>, v2: Seq<u8>)
    ensures
        v1 == v2 ==> vault_address_of(v1) == vault_address_of(v2),
{
}

/// Enter then Leave restores the vote account's withdraw authority to its
/// original holder, and leaves the custodial account's record zeroed and
/// its balance zero. The Leave may be signed by any account presenting the
/// original authority's key.
pub proof fn lemma_enter_leave_round_trip(
    vault: AccountView,
    funder: AccountView,
    withdraw_authority: AccountView,
    rewards_authority_key: Seq<u8>,
    vote_auth: Seq<u8>,
    vault_rent_minimum: u64,
    refunder: AccountView,
    leave_authority: AccountView,
)
    requires
        withdraw_authority.key.len() == 32,
        rewards_authority_key.len() == 32,
        !all_zero(withdraw_authority.key) || !all_zero(rewards_authority_key),
        spec_enter(
            vault,
            funder,
            withdraw_authority,
            rewards_authority_key,
            vote_auth,
            vault_rent_minimum,
        ).0 is Ok,
        leave_authority.key == withdraw_authority.key,
        leave_authority.is_signer,
        refunder.lamports + (if vault.lamports < vault_rent_minimum {
            vault_rent_minimum as int
        } else {
            vault.lamports as int
        }) <= u64::MAX,
    ensures
        ({
            let e = spec_enter(
                vault,
                funder,
                withdraw_authority,
                rewards_authority_key,
                vote_auth,
                vault_rent_minimum,
            );
            let l = spec_leave(e.1, refunder, leave_authority, e.3);
            &&& l.0 is Ok
            &&& l.3 == vote_auth
            &&& l.1.data == zero_record()
            &&& l.1.lamports == 0
        }),
{
    let e = spec_enter(
        vault,
        funder,
        withdraw_authority,
        rewards_authority_key,
        vote_auth,
        vault_rent_minimum,
    );
    lemma_record_fields(withdraw_authority.key, rewards_authority_key);
    lemma_record_populated(withdraw_authority.key, rewards_authority_key);
    let l = spec_leave(e.1, refunder, leave_authority, e.3);
    assert(l.1.data =~= zero_record());
}

/// A second Enter on an already-vaulted account fails with
/// `AccountAlreadyInitialized` and changes nothing, whichever signed
/// authority and rewards authority it offers.
pub proof fn lemma_no_double_entry(
    vault: AccountView,
    funder: AccountView,
    withdraw_authority: AccountView,
    rewards_authority_key: Seq<u8>,
    vote_auth: Seq<u8>,
    vault_rent_minimum: u64,
    second_funder: AccountView,
    second_authority: AccountView,
    second_rewards_key: Seq<u8>,
)
    requires
        withdraw_authority.key.len() == 32,
        rewards_authority_key.len() == 32,
        !all_zero(withdraw_authority.key) || !all_zero(rewards_authority_key),
        spec_enter(
            vault,
            funder,
            withdraw_authority,
            rewards_authority_key,
            vote_auth,
            vault_rent_minimum,
        ).0 is Ok,
        second_authority.is_signer,
    ensures
        ({
            let e = spec_enter(
                vault,
                funder,
                withdraw_authority,
                rewards_authority_key,
                vote_auth,
                vault_rent_minimum,
            );
            let s = spec_enter(
                e.1,
                second_funder,
                second_authority,
                second_rewards_key,
                e.3,
                vault_rent_minimum,
            );
            &&& s.0 == Err::<(), VaultError>(VaultError::AccountAlreadyInitialized)
            &&& s.1 == e.1
            &&& s.2 == second_funder
            &&& s.3 == e.3
        }),
{
    lemma_record_fields(withdraw_authority.key, rewards_authority_key);
    lemma_record_populated(withdraw_authority.key, rewards_authority_key);
}

/// Leave offered with a key other than the stored original withdraw
/// authority, or without its signature, fails with
/// `MissingRequiredSignature` and changes nothing.
pub proof fn lemma_leave_requires_original_authority(
    vault: AccountView,
    refunder: AccountView,
    claimant: AccountView,
    vote_auth: Seq<u8>,
)
    requires
        vault.data.len() == 64,
        claimant.key != original_authority_of(vault.data) || !claimant.is_signer,
    ensures
        ({
            let l = spec_leave(vault, refunder, claimant, vote_auth);
            &&& l.0 == Err::<(), VaultError>(VaultError::MissingRequiredSignature)
            &&& l.1 == vault
            &&& l.2 == refunder
            &&& l.3 == vote_auth
        }),
{
}

/// Withdraw offered with a key other than the stored rewards authority, or
/// without its signature, fails with `MissingRequiredSignature` and changes
/// nothing.
pub proof fn lemma_withdraw_requires_rewards_authority(
    vault: AccountView,
    vote: AccountView,
    recipient: AccountView,
    claimant: AccountView,
    vote_auth: Seq<u8>,
    vote_minimum_reserve: u64,
)
    requires
        vault.data.len() == 64,
        claimant.key != rewards_authority_of(vault.data) || !claimant.is_signer,
    ensures
        ({
            let w = spec_withdraw(vault, vote, recipient, claimant, vote_auth, vote_minimum_reserve);
            &&& w.0 == Err::<(), VaultError>(VaultError::MissingRequiredSignature)
            &&& w.1 == vote
            &&& w.2 == recipient
        }),
{
}

/// After a successful Enter, the vote account's withdraw authority is the
/// custodial address, not the original holder: the external vote program,
/// which gates direct withdrawals on that stored field, no longer accepts
/// the original authority.
pub proof fn lemma_enter_revokes_original_authority(
    vault: AccountView,
    funder: AccountView,
    withdraw_authority: AccountView,
    rewards_authority_key: Seq<u8>,
    vote_auth: Seq<u8>,
    vault_rent_minimum: u64,
)
    requires
        spec_enter(
            vault,
            funder,
            withdraw_authority,
            rewards_authority_key,
            vote_auth,
            vault_rent_minimum,
        ).0 is Ok,
        vault.key != withdraw_authority.key,
    ensures
        ({
            let e = spec_enter(
                vault,
                funder,
                withdraw_authority,
                rewards_authority_key,
                vote_auth,
                vault_rent_minimum,
            );
            &&& e.3 == vault.key
            &&& e.3 != withdraw_authority.key
        }),
{
}

/// Exact accounting: when the vote account holds its minimum reserve plus
/// some rewards, Withdraw moves exactly the rewards to the recipient and
/// leaves the vote account at exactly its reserve.
pub proof fn lemma_withdraw_exact_accounting(
    vault: AccountView,
    vote: AccountView,
    recipient: AccountView,
    rewards_authority: AccountView,
    vote_minimum_reserve: u64,
    rewards: u64,
)
    requires
        vault.data.len() == 64,
        !all_zero(vault.data),
        rewards_authority.key == rewards_authority_of(vault.data),
        rewards_authority.is_signer,
        vote.lamports == vote_minimum_reserve + rewards,
        recipient.lamports + rewards <= u64::MAX,
    ensures
        ({
            let w = spec_withdraw(
                vault,
                vote,
                recipient,
                rewards_authority,
                vault.key,
                vote_minimum_reserve,
            );
            &&& w.0 is Ok
            &&& w.1.lamports == vote_minimum_reserve
            &&& w.2.lamports == recipient.lamports + rewards
        }),
{
}

/// Refund exactness: Leave after an Enter that created the custodial
/// account transfers exactly the account's rent-exempt minimum balance to
/// the refund recipient.
pub proof fn lemma_leave_refunds_rent_minimum(
    vault: AccountView,
    funder: AccountView,
    withdraw_authority: AccountView,
    rewards_authority_key: Seq<u8>,
    vote_auth: Seq<u8>,
    vault_rent_minimum: u64,
    refunder: AccountView,
    leave_authority: AccountView,
)
    requires
        withdraw_authority.key.len() == 32,
        rewards_authority_key.len() == 32,
        !all_zero(withdraw_authority.key) || !all_zero(rewards_authority_key),
        vault.lamports == 0,
        spec_enter(
            vault,
            funder,
            withdraw_authority,
            rewards_authority_key,
            vote_auth,
            vault_rent_minimum,
        ).0 is Ok,
        leave_authority.key == withdraw_authority.key,
        leave_authority.is_signer,
        refunder.lamports + vault_rent_minimum <= u64::MAX,
    ensures
        ({
            let e = spec_enter(
                vault,
                funder,
                withdraw_authority,
                rewards_authority_key,
                vote_auth,
                vault_rent_minimum,
            );
            let l = spec_leave(e.1, refunder, leave_authority, e.3);
            &&& e.1.lamports == vault_rent_minimum
            &&& l.0 is Ok
            &&& l.2.lamports == refunder.lamports + vault_rent_minimum
        }),
{
    lemma_record_fields(withdraw_authority.key, rewards_authority_key);
    lemma_record_populated(withdraw_authority.key, rewards_authority_key);
}

/// End to end: Enter, an external credit of rewards to the vote account,
/// Withdraw by the rewards authority, then Leave by the original authority.
/// The recipient ends with exactly the credited rewards, the vote account
/// back at its reserve, the custodial account at balance zero, and the vote
/// account's withdraw authority back with its original holder.
pub proof fn lemma_end_to_end(
    vault: AccountView,
    funder: AccountView,
    withdraw_authority: AccountView,
    rewards_authority: AccountView,
    vote: AccountView,
    recipient: AccountView,
    refunder: AccountView,
    vote_auth: Seq<u8>,
    vault_rent_minimum: u64,
    vote_minimum_reserve: u64,
    rewards: u64,
)
    requires
        withdraw_authority.key.len() == 32,
        rewards_authority.key.len() == 32,
        !all_zero(withdraw_authority.key) || !all_zero(rewards_authority.key),
        vault.lamports == 0,
        spec_enter(
            vault,
            funder,
            withdraw_authority,
            rewards_authority.key,
            vote_auth,
            vault_rent_minimum,
        ).0 is Ok,
        rewards_authority.is_signer,
        vote.lamports == vote_minimum_reserve,
        vote_minimum_reserve + rewards <= u64::MAX,
        recipient.lamports == 0,
        refunder.lamports + vault_rent_minimum <= u64::MAX,
    ensures
        ({
            let e = spec_enter(
                vault,
                funder,
                withdraw_authority,
                rewards_authority.key,
                vote_auth,
                vault_rent_minimum,
            );
            let credited = AccountView { lamports: (vote.lamports + rewards) as u64, ..vote };
            let w = spec_withdraw(e.1, credited, recipient, rewards_authority, e.3, vote_minimum_reserve);
            let l = spec_leave(e.1, refunder, withdraw_authority, e.3);
            &&& w.0 is Ok
            &&& w.2.lamports == rewards
            &&& w.1.lamports == vote_minimum_reserve
            &&& l.0 is Ok
            &&& l.1.lamports == 0
            &&& l.3 == withdraw_authority.key
        }),
{
    lemma_record_fields(withdraw_authority.key, rewards_authority.key);
    lemma_record_populated(withdraw_authority.key, rewards_authority.key);
}

} // verus!
