//! The instruction processor: the fund-custody state machine.
//!
//! Each operation is specified twice: a `spec` transition that maps the old
//! account states to a result and the new account states, and an executable
//! function proved equal to it. The transitions touch three kinds of state:
//! the ordered account list handed to the instruction (keys, signer flags,
//! balances and raw data), the vote account's withdraw-authority field
//! (which the external vote program stores and this program may reassign
//! through its custodial address), and nothing else.
//!
//! A failed check aborts the whole operation before any state is touched,
//! so every error leaves every account exactly as it was.

use vstd::prelude::*;
use crate::address::{all_zero, Address};
use crate::error::VaultError;
use crate::instruction::{
    parse_instruction, required_accounts, spec_parse_instruction, RewardsVaultInstruction,
};
use crate::pda::{vault_address_of, vault_pda_found};
use crate::state::{original_authority_of, record_of, rewards_authority_of, RewardsVaultState};

verus! {

/// One ledger account as the processor sees it: its address, whether it
/// signed the transaction, its balance, and its raw data.
pub struct Account {
    pub key: Address,
    pub is_signer: bool,
    pub lamports: u64,
    pub data: Vec<u8>,
}

/// The mathematical image of an [`Account`].
#[verifier::ext_equal]
pub struct AccountView {
    pub key: Seq<u8>,
    pub is_signer: bool,
    pub lamports: u64,
    pub data: Seq<u8>,
}

impl View for Account {
    type V = AccountView;

    open spec fn view(&self) -> AccountView {
        AccountView {
            key: self.key@,
            is_signer: self.is_signer,
            lamports: self.lamports,
            data: self.data@,
        }
    }
}

impl DeepView for Account {
    type V = AccountView;

    open spec fn deep_view(&self) -> AccountView {
        self@
    }
}

/// The custodial record with every byte zero: the uninitialized sentinel.
pub open spec fn zero_record() -> Seq<u8> {
    Seq::new(64, |i: int| 0u8)
}

/// What must be paid into the custodial account to bring it up to its
/// required minimum balance.
pub open spec fn reserve_shortfall(lamports: u64, minimum: u64) -> int {
    if lamports < minimum {
        minimum - lamports
    } else {
        0
    }
}

/// The Enter transition, after the custodial address has been validated.
///
/// Checks, in order: the current withdraw authority must have signed; the
/// custodial account's data must be absent or a well-sized record; that
/// record must still be all zero; the offered authority must be the vote
/// account's actual withdraw authority; the funder must cover the custodial
/// account's reserve. Then the custodial account is funded to its reserve
/// and holds the two authorities, and the vote account's withdraw authority
/// becomes the custodial address. Any failure leaves every input unchanged.
pub open spec fn spec_enter(
    vault: AccountView,
    funder: AccountView,
    withdraw_authority: AccountView,
    rewards_authority_key: Seq<u8>,
    vote_auth: Seq<u8>,
    vault_rent_minimum: u64,
) -> (Result<(), VaultError>, AccountView, AccountView, Seq<u8>) {
    if !withdraw_authority.is_signer {
        (Err(VaultError::MissingRequiredSignature), vault, funder, vote_auth)
    } else if vault.data.len() != 0 && vault.data.len() != 64 {
        (Err(VaultError::InvalidAccountData), vault, funder, vote_auth)
    } else if vault.data.len() == 64 && !all_zero(vault.data) {
        (Err(VaultError::AccountAlreadyInitialized), vault, funder, vote_auth)
    } else if vote_auth != withdraw_authority.key {
        (Err(VaultError::MissingRequiredSignature), vault, funder, vote_auth)
    } else if funder.lamports < reserve_shortfall(vault.lamports, vault_rent_minimum) {
        (Err(VaultError::InsufficientFunds), vault, funder, vote_auth)
    } else {
        (
            Ok(()),
            AccountView {
                key: vault.key,
                is_signer: vault.is_signer,
                lamports: if vault.lamports < vault_rent_minimum {
                    vault_rent_minimum
                } else {
                    vault.lamports
                },
                data: record_of(withdraw_authority.key, rewards_authority_key),
            },
            AccountView {
                key: funder.key,
                is_signer: funder.is_signer,
                lamports: (funder.lamports - reserve_shortfall(
                    vault.lamports,
                    vault_rent_minimum,
                )) as u64,
                data: funder.data,
            },
            vault.key,
        )
    }
}

/// The Leave transition, after the custodial address has been validated.
///
/// Checks, in order: the custodial account must hold a well-sized record;
/// the record must be populated; the offered authority must equal the stored
/// original withdraw authority and must have signed; the vote account's
/// withdraw authority must still be the custodial address; the refund must
/// not overflow the recipient. Then the record is zeroed, the vote account's
/// withdraw authority returns to the original holder, and the custodial
/// account's entire balance moves to the refund recipient. Any failure
/// leaves every input unchanged.
pub open spec fn spec_leave(
    vault: AccountView,
    refunder: AccountView,
    withdraw_authority: AccountView,
    vote_auth: Seq<u8>,
) -> (Result<(), VaultError>, AccountView, AccountView, Seq<u8>) {
    if vault.data.len() != 64 {
        (Err(VaultError::InvalidAccountData), vault, refunder, vote_auth)
    } else if all_zero(vault.data) {
        (Err(VaultError::MissingRequiredSignature), vault, refunder, vote_auth)
    } else if original_authority_of(vault.data) != withdraw_authority.key
        || !withdraw_authority.is_signer {
        (Err(VaultError::MissingRequiredSignature), vault, refunder, vote_auth)
    } else if vote_auth != vault.key {
        (Err(VaultError::MissingRequiredSignature), vault, refunder, vote_auth)
    } else if refunder.lamports + vault.lamports > u64::MAX {
        (Err(VaultError::ArithmeticOverflow), vault, refunder, vote_auth)
    } else {
        (
            Ok(()),
            AccountView {
                key: vault.key,
                is_signer: vault.is_signer,
                lamports: 0u64,
                data: zero_record(),
            },
            AccountView {
                key: refunder.key,
                is_signer: refunder.is_signer,
                lamports: (refunder.lamports + vault.lamports) as u64,
                data: refunder.data,
            },
            withdraw_authority.key,
        )
    }
}

/// The WithdrawRewards transition, after the custodial address has been
/// validated.
///
/// Checks, in order: the custodial account must hold a populated well-sized
/// record; the offered authority must equal the stored rewards authority and
/// must have signed; the vote account's balance must be at least its minimum
/// reserve; the vote account's withdraw authority must still be the
/// custodial address; the payout must not overflow the recipient. Then
/// exactly the balance above the reserve moves from the vote account to the
/// recipient; the custodial record does not change. Any failure leaves
/// every input unchanged.
pub open spec fn spec_withdraw(
    vault: AccountView,
    vote: AccountView,
    recipient: AccountView,
    rewards_authority: AccountView,
    vote_auth: Seq<u8>,
    vote_minimum_reserve: u64,
) -> (Result<(), VaultError>, AccountView, AccountView) {
    if vault.data.len() != 64 {
        (Err(VaultError::InvalidAccountData), vote, recipient)
    } else if all_zero(vault.data) {
        (Err(VaultError::MissingRequiredSignature), vote, recipient)
    } else if rewards_authority_of(vault.data) != rewards_authority.key
        || !rewards_authority.is_signer {
        (Err(VaultError::MissingRequiredSignature), vote, recipient)
    } else if vote.lamports < vote_minimum_reserve {
        (Err(VaultError::InvalidInstructionData), vote, recipient)
    } else if vote_auth != vault.key {
        (Err(VaultError::MissingRequiredSignature), vote, recipient)
    } else if recipient.lamports + (vote.lamports - vote_minimum_reserve) > u64::MAX {
        (Err(VaultError::ArithmeticOverflow), vote, recipient)
    } else {
        (
            Ok(()),
            AccountView {
                key: vote.key,
                is_signer: vote.is_signer,
                lamports: vote_minimum_reserve,
                data: vote.data,
            },
            AccountView {
                key: recipient.key,
                is_signer: recipient.is_signer,
                lamports: (recipient.lamports + (vote.lamports - vote_minimum_reserve)) as u64,
                data: recipient.data,
            },
        )
    }
}

/// Enter applied to the ordered account list
/// [vault, vote, funder, withdraw_authority, rewards_authority, ..].
pub open spec fn spec_enter_apply(
    accounts: Seq<AccountView>,
    vote_auth: Seq<u8>,
    vault_rent_minimum: u64,
) -> (Result<(), VaultError>, Seq<AccountView>, Seq<u8>)
    recommends
        accounts.len() >= 8,
{
    let o = spec_enter(
        accounts[0],
        accounts[2],
        accounts[3],
        accounts[4].key,
        vote_auth,
        vault_rent_minimum,
    );
    if o.0 is Ok {
        (o.0, accounts.update(0, o.1).update(2, o.2), o.3)
    } else {
        (o.0, accounts, vote_auth)
    }
}

/// Leave applied to the ordered account list
/// [vault, vote, refund_recipient, withdraw_authority, ..].
pub open spec fn spec_leave_apply(accounts: Seq<AccountView>, vote_auth: Seq<u8>) -> (
    Result<(), VaultError>,
    Seq<AccountView>,
    Seq<u8>,
)
    recommends
        accounts.len() >= 6,
{
    let o = spec_leave(accounts[0], accounts[2], accounts[3], vote_auth);
    if o.0 is Ok {
        (o.0, accounts.update(0, o.1).update(2, o.2), o.3)
    } else {
        (o.0, accounts, vote_auth)
    }
}

/// WithdrawRewards applied to the ordered account list
/// [vault, vote, rewards_recipient, rewards_authority, ..].
pub open spec fn spec_withdraw_apply(
    accounts: Seq<AccountView>,
    vote_auth: Seq<u8>,
    vote_minimum_reserve: u64,
) -> (Result<(), VaultError>, Seq<AccountView>, Seq<u8>)
    recommends
        accounts.len() >= 5,
{
    let o = spec_withdraw(
        accounts[0],
        accounts[1],
        accounts[2],
        accounts[3],
        vote_auth,
        vote_minimum_reserve,
    );
    if o.0 is Ok {
        (o.0, accounts.update(1, o.1).update(2, o.2), vote_auth)
    } else {
        (o.0, accounts, vote_auth)
    }
}

/// The whole instruction: decode the opcode, check the account list and the
/// derived custodial address, then run the selected transition. The result
/// is the instruction's outcome, the new account list, and the vote
/// account's new withdraw authority.
pub open spec fn spec_process(
    accounts: Seq<AccountView>,
    instruction_data: Seq<u8>,
    vote_auth: Seq<u8>,
    vote_minimum_reserve: u64,
    vault_rent_minimum: u64,
) -> (Result<(), VaultError>, Seq<AccountView>, Seq<u8>) {
    match spec_parse_instruction(instruction_data) {
        Err(e) => (Err(e), accounts, vote_auth),
        Ok(op) => {
            if accounts.len() < 2 {
                (Err(VaultError::NotEnoughAccountKeys), accounts, vote_auth)
            } else if !(vault_pda_found(accounts[1].key) && vault_address_of(accounts[1].key)
                == accounts[0].key) {
                (Err(VaultError::InvalidArgument), accounts, vote_auth)
            } else if accounts.len() < required_accounts(op) {
                (Err(VaultError::NotEnoughAccountKeys), accounts, vote_auth)
            } else {
                match op {
                    RewardsVaultInstruction::Enter => spec_enter_apply(
                        accounts,
                        vote_auth,
                        vault_rent_minimum,
                    ),
                    RewardsVaultInstruction::Leave => spec_leave_apply(accounts, vote_auth),
                    RewardsVaultInstruction::WithdrawRewards => spec_withdraw_apply(
                        accounts,
                        vote_auth,
                        vote_minimum_reserve,
                    ),
                }
            }
        },
    }
}

/// A 64-byte record is all zero exactly when both stored fields are.
proof fn lemma_all_zero_split(data: Seq<u8>)
    requires
        data.len() == 64,
    ensures
        all_zero(data) <==> (all_zero(original_authority_of(data)) && all_zero(
            rewards_authority_of(data),
        )),
{
    if all_zero(data) {
        assert forall|i: int| 0 <= i < 32 implies original_authority_of(data)[i] == 0u8 by {
            assert(original_authority_of(data)[i] == data[i]);
        }
        assert forall|i: int| 0 <= i < 32 implies rewards_authority_of(data)[i] == 0u8 by {
            assert(rewards_authority_of(data)[i] == data[32 + i]);
        }
    }
    if all_zero(original_authority_of(data)) && all_zero(rewards_authority_of(data)) {
        assert forall|i: int| 0 <= i < 64 implies data[i] == 0u8 by {
            if i < 32 {
                assert(data[i] == original_authority_of(data)[i]);
            } else {
                assert(data[i] == rewards_authority_of(data)[i - 32]);
            }
        }
    }
}

/// Place a vote account under custody. The ordered account list is
/// [vault, vote, funder, withdraw_authority, rewards_authority,
/// system_allocator, authority_mgmt_program, clock]; the dispatcher has
/// already validated the custodial address against the derivation.
pub fn process_enter(
    accounts: &mut Vec<Account>,
    vote_withdraw_authority: &mut Address,
    vault_rent_minimum: u64,
) -> (r: Result<(), VaultError>)
    requires
        old(accounts)@.len() >= 8,
    ensures
        ({
            let o = spec_enter_apply(
                old(accounts).deep_view(),
                old(vote_withdraw_authority)@,
                vault_rent_minimum,
            );
            &&& r == o.0
            &&& final(accounts).deep_view() == o.1
            &&& final(vote_withdraw_authority)@ == o.2
        }),
{
    let ghost o = spec_enter_apply(
        old(accounts).deep_view(),
        old(vote_withdraw_authority)@,
        vault_rent_minimum,
    );
    if !accounts[3].is_signer {
        return Err(VaultError::MissingRequiredSignature);
    }
    let vault_data_len = accounts[0].data.len();
    if vault_data_len != 0 && vault_data_len != 64 {
        return Err(VaultError::InvalidAccountData);
    }
    if vault_data_len == 64 {
        proof {
            lemma_all_zero_split(old(accounts).deep_view()[0].data);
        }
        let populated = match RewardsVaultState::try_from_bytes(accounts[0].data.as_slice()) {
            Ok(st) => !st.is_zeroed(),
            Err(_) => false,
        };
        if populated {
            return Err(VaultError::AccountAlreadyInitialized);
        }
    }
    let wa_key = accounts[3].key;
    if !(*vote_withdraw_authority == wa_key) {
        return Err(VaultError::MissingRequiredSignature);
    }
    let vault_lamports = accounts[0].lamports;
    let shortfall = if vault_lamports < vault_rent_minimum {
        vault_rent_minimum - vault_lamports
    } else {
        0
    };
    if accounts[2].lamports < shortfall {
        return Err(VaultError::InsufficientFunds);
    }
    let ra_key = accounts[4].key;
    let record = RewardsVaultState {
        original_withdraw_authority: wa_key,
        rewards_authority: ra_key,
    };
    let new_data = record.to_bytes();
    let vault_key = accounts[0].key;
    accounts[0].data = new_data;
    accounts[0].lamports = if vault_lamports < vault_rent_minimum {
        vault_rent_minimum
    } else {
        vault_lamports
    };
    let funder_lamports = accounts[2].lamports;
    accounts[2].lamports = funder_lamports - shortfall;
    *vote_withdraw_authority = vault_key;
    proof {
        assert(accounts.deep_view() =~~= o.1);
    }
    Ok(())
}

/// End custody. The ordered account list is
/// [vault, vote, refund_recipient, withdraw_authority,
/// authority_mgmt_program, clock]; the dispatcher has already validated the
/// custodial address against the derivation.
pub fn process_leave(
    accounts: &mut Vec<Account>,
    vote_withdraw_authority: &mut Address,
) -> (r: Result<(), VaultError>)
    requires
        old(accounts)@.len() >= 6,
    ensures
        ({
            let o = spec_leave_apply(old(accounts).deep_view(), old(vote_withdraw_authority)@);
            &&& r == o.0
            &&& final(accounts).deep_view() == o.1
            &&& final(vote_withdraw_authority)@ == o.2
        }),
{
    let ghost o = spec_leave_apply(old(accounts).deep_view(), old(vote_withdraw_authority)@);
    if accounts[0].data.len() != 64 {
        return Err(VaultError::InvalidAccountData);
    }
    proof {
        lemma_all_zero_split(old(accounts).deep_view()[0].data);
    }
    let st = match RewardsVaultState::try_from_bytes(accounts[0].data.as_slice()) {
        Ok(st) => st,
        Err(e) => {
            return Err(e);
        },
    };
    if st.is_zeroed() {
        return Err(VaultError::MissingRequiredSignature);
    }
    let wa_key = accounts[3].key;
    if !(st.original_withdraw_authority == wa_key) || !accounts[3].is_signer {
        return Err(VaultError::MissingRequiredSignature);
    }
    let vault_key = accounts[0].key;
    if !(*vote_withdraw_authority == vault_key) {
        return Err(VaultError::MissingRequiredSignature);
    }
    let vault_lamports = accounts[0].lamports;
    let refunder_lamports = accounts[2].lamports;
    if u64::MAX - refunder_lamports < vault_lamports {
        return Err(VaultError::ArithmeticOverflow);
    }
    let zeroed = RewardsVaultState::zeroed();
    let new_data = zeroed.to_bytes();
    accounts[0].data = new_data;
    accounts[0].lamports = 0;
    accounts[2].lamports = refunder_lamports + vault_lamports;
    *vote_withdraw_authority = wa_key;
    proof {
        assert(accounts.deep_view()[0].data =~= zero_record());
        assert(accounts.deep_view() =~~= o.1);
    }
    Ok(())
}

/// Claim the vote account's balance above its minimum reserve. The ordered
/// account list is [vault, vote, rewards_recipient, rewards_authority,
/// authority_mgmt_program]; the dispatcher has already validated the
/// custodial address against the derivation.
pub fn process_withdraw(
    accounts: &mut Vec<Account>,
    vote_withdraw_authority: &Address,
    vote_minimum_reserve: u64,
) -> (r: Result<(), VaultError>)
    requires
        old(accounts)@.len() >= 5,
    ensures
        ({
            let o = spec_withdraw_apply(
                old(accounts).deep_view(),
                vote_withdraw_authority@,
                vote_minimum_reserve,
            );
            &&& r == o.0
            &&& final(accounts).deep_view() == o.1
        }),
{
    let ghost o = spec_withdraw_apply(
        old(accounts).deep_view(),
        vote_withdraw_authority@,
        vote_minimum_reserve,
    );
    if accounts[0].data.len() != 64 {
        return Err(VaultError::InvalidAccountData);
    }
    proof {
        lemma_all_zero_split(old(accounts).deep_view()[0].data);
    }
    let st = match RewardsVaultState::try_from_bytes(accounts[0].data.as_slice()) {
        Ok(st) => st,
        Err(e) => {
            return Err(e);
        },
    };
    if st.is_zeroed() {
        return Err(VaultError::MissingRequiredSignature);
    }
    let ra_key = accounts[3].key;
    if !(st.rewards_authority == ra_key) || !accounts[3].is_signer {
        return Err(VaultError::MissingRequiredSignature);
    }
    let vote_lamports = accounts[1].lamports;
    if vote_lamports < vote_minimum_reserve {
        return Err(VaultError::InvalidInstructionData);
    }
    let amount = vote_lamports - vote_minimum_reserve;
    let vault_key = accounts[0].key;
    if !(*vote_withdraw_authority == vault_key) {
        return Err(VaultError::MissingRequiredSignature);
    }
    let recipient_lamports = accounts[2].lamports;
    if u64::MAX - recipient_lamports < amount {
        return Err(VaultError::ArithmeticOverflow);
    }
    accounts[1].lamports = vote_minimum_reserve;
    accounts[2].lamports = recipient_lamports + amount;
    proof {
        assert(accounts.deep_view() =~~= o.1);
    }
    Ok(())
}

/// Process one instruction: decode the opcode byte, validate the account
/// list and the derived custodial address, and run the selected operation.
///
/// `accounts` is the instruction's ordered account list.
/// `vote_withdraw_authority` is the vote account's withdraw-authority field,
/// which the external vote program stores; this program reassigns it through
/// delegated invocations signed with the custodial address's derivation
/// seeds. `vote_minimum_reserve` and `vault_rent_minimum` are the
/// rent-exempt minimum balances the host ledger quotes for the vote
/// account's data size and for the 64-byte custodial record.
pub fn process_instruction(
    program_id: &Address,
    accounts: &mut Vec<Account>,
    instruction_data: &[u8],
    vote_withdraw_authority: &mut Address,
    vote_minimum_reserve: u64,
    vault_rent_minimum: u64,
) -> (r: Result<(), VaultError>)
    requires
        program_id@ == crate::pda::program_id(),
    ensures
        ({
            let o = spec_process(
                old(accounts).deep_view(),
                instruction_data@,
                old(vote_withdraw_authority)@,
                vote_minimum_reserve,
                vault_rent_minimum,
            );
            &&& r == o.0
            &&& final(accounts).deep_view() == o.1
            &&& final(vote_withdraw_authority)@ == o.2
        }),
{
    let op = match parse_instruction(instruction_data) {
        Ok(op) => op,
        Err(e) => {
            return Err(e);
        },
    };
    if accounts.len() < 2 {
        return Err(VaultError::NotEnoughAccountKeys);
    }
    let vault_key = accounts[0].key;
    let vote_key = accounts[1].key;
    let derived_matches = match crate::get_rewards_vault_address_and_bump_seed(&vote_key) {
        Some(p) => p.0 == vault_key,
        None => false,
    };
    if !derived_matches {
        return Err(VaultError::InvalidArgument);
    }
    match op {
        RewardsVaultInstruction::Enter => {
            if accounts.len() < 8 {
                return Err(VaultError::NotEnoughAccountKeys);
            }
            process_enter(accounts, vote_withdraw_authority, vault_rent_minimum)
        },
        RewardsVaultInstruction::Leave => {
            if accounts.len() < 6 {
                return Err(VaultError::NotEnoughAccountKeys);
            }
            process_leave(accounts, vote_withdraw_authority)
        },
        RewardsVaultInstruction::WithdrawRewards => {
            if accounts.len() < 5 {
                return Err(VaultError::NotEnoughAccountKeys);
            }
            process_withdraw(accounts, vote_withdraw_authority, vote_minimum_reserve)
        },
    }
}

} // verus!
