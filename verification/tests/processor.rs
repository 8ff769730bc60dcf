use sol_rewards_vault_program::address::Address;
use sol_rewards_vault_program::error::VaultError;
use sol_rewards_vault_program::get_rewards_vault_address;
use sol_rewards_vault_program::pda;
use sol_rewards_vault_program::processor::{process_instruction, Account};

const VAULT_RENT_MINIMUM: u64 = 1_113_600;
const VOTE_MINIMUM_RESERVE: u64 = 27_074_400;

fn addr(fill: u8) -> Address {
    Address { bytes: [fill; 32] }
}

fn acct(key: Address, is_signer: bool, lamports: u64) -> Account {
    Account { key, is_signer, lamports, data: Vec::new() }
}

fn enter_accounts(
    vault: Account,
    vote: Account,
    funder: Account,
    withdraw_authority: Account,
    rewards_authority: Account,
) -> Vec<Account> {
    vec![
        vault,
        vote,
        funder,
        withdraw_authority,
        rewards_authority,
        acct(addr(0xee), false, 0),
        acct(addr(0xef), false, 0),
        acct(addr(0xf0), false, 0),
    ]
}

fn leave_accounts(
    vault: Account,
    vote: Account,
    refund_recipient: Account,
    withdraw_authority: Account,
) -> Vec<Account> {
    vec![
        vault,
        vote,
        refund_recipient,
        withdraw_authority,
        acct(addr(0xef), false, 0),
        acct(addr(0xf0), false, 0),
    ]
}

fn withdraw_accounts(
    vault: Account,
    vote: Account,
    rewards_recipient: Account,
    rewards_authority: Account,
) -> Vec<Account> {
    vec![vault, vote, rewards_recipient, rewards_authority, acct(addr(0xef), false, 0)]
}

fn run(
    accounts: &mut Vec<Account>,
    opcode: u8,
    vote_withdraw_authority: &mut Address,
) -> Result<(), VaultError> {
    process_instruction(
        &pda::id(),
        accounts,
        &[opcode],
        vote_withdraw_authority,
        VOTE_MINIMUM_RESERVE,
        VAULT_RENT_MINIMUM,
    )
}

#[test]
fn test_enter() {
    let vote_key = addr(10);
    let vault_key = get_rewards_vault_address(&vote_key).unwrap();
    let withdrawer = addr(20);
    let invalid_withdrawer = addr(21);
    let rewards_authority = addr(30);
    let payer = addr(40);

    // invalid authorized withdrawer: signs, but is not the vote account's
    // withdraw authority
    let mut vote_auth = withdrawer;
    let mut accounts = enter_accounts(
        acct(vault_key, false, 0),
        acct(vote_key, false, VOTE_MINIMUM_RESERVE),
        acct(payer, true, 10_000_000),
        acct(invalid_withdrawer, true, 0),
        acct(rewards_authority, false, 0),
    );
    assert_eq!(
        run(&mut accounts, 0, &mut vote_auth),
        Err(VaultError::MissingRequiredSignature)
    );
    assert_eq!(vote_auth, withdrawer);

    // invalid vault address
    let wrong_vault = get_rewards_vault_address(&addr(99)).unwrap();
    let mut accounts = enter_accounts(
        acct(wrong_vault, false, 0),
        acct(vote_key, false, VOTE_MINIMUM_RESERVE),
        acct(payer, true, 10_000_000),
        acct(withdrawer, true, 0),
        acct(rewards_authority, false, 0),
    );
    assert_eq!(run(&mut accounts, 0, &mut vote_auth), Err(VaultError::InvalidArgument));

    // enter ok
    let mut accounts = enter_accounts(
        acct(vault_key, false, 0),
        acct(vote_key, false, VOTE_MINIMUM_RESERVE),
        acct(payer, true, 10_000_000),
        acct(withdrawer, true, 0),
        acct(rewards_authority, false, 0),
    );
    assert_eq!(run(&mut accounts, 0, &mut vote_auth), Ok(()));
    assert_eq!(accounts[0].lamports, VAULT_RENT_MINIMUM);
    assert_eq!(accounts[2].lamports, 10_000_000 - VAULT_RENT_MINIMUM);
    assert_eq!(&accounts[0].data[..32], &withdrawer.bytes);
    assert_eq!(&accounts[0].data[32..], &rewards_authority.bytes);
    assert_eq!(vote_auth, vault_key);

    // can't re-enter
    let funded_vault = Account {
        key: vault_key,
        is_signer: false,
        lamports: accounts[0].lamports,
        data: accounts[0].data.clone(),
    };
    let mut accounts = enter_accounts(
        funded_vault,
        acct(vote_key, false, VOTE_MINIMUM_RESERVE),
        acct(payer, true, 10_000_000),
        acct(withdrawer, true, 0),
        acct(rewards_authority, false, 0),
    );
    assert_eq!(
        run(&mut accounts, 0, &mut vote_auth),
        Err(VaultError::AccountAlreadyInitialized)
    );
    assert_eq!(accounts[0].lamports, VAULT_RENT_MINIMUM);
    assert_eq!(accounts[2].lamports, 10_000_000);
    assert_eq!(vote_auth, vault_key);
}

#[test]
fn test_leave() {
    let vote_key = addr(10);
    let vault_key = get_rewards_vault_address(&vote_key).unwrap();
    let withdrawer = addr(20);
    let invalid_withdrawer = addr(21);
    let rewards_authority = addr(30);
    let payer = addr(40);
    let refund_address = addr(50);

    // enter
    let mut vote_auth = withdrawer;
    let mut accounts = enter_accounts(
        acct(vault_key, false, 0),
        acct(vote_key, false, VOTE_MINIMUM_RESERVE),
        acct(payer, true, 10_000_000),
        acct(withdrawer, true, 0),
        acct(rewards_authority, false, 0),
    );
    assert_eq!(run(&mut accounts, 0, &mut vote_auth), Ok(()));
    let vault_after_enter = Account {
        key: vault_key,
        is_signer: false,
        lamports: accounts[0].lamports,
        data: accounts[0].data.clone(),
    };

    // leave: invalid authorized withdrawer
    let mut accounts = leave_accounts(
        Account {
            key: vault_key,
            is_signer: false,
            lamports: vault_after_enter.lamports,
            data: vault_after_enter.data.clone(),
        },
        acct(vote_key, false, VOTE_MINIMUM_RESERVE),
        acct(refund_address, false, 0),
        acct(invalid_withdrawer, true, 0),
    );
    assert_eq!(
        run(&mut accounts, 1, &mut vote_auth),
        Err(VaultError::MissingRequiredSignature)
    );
    assert_eq!(vote_auth, vault_key);

    // leave ok
    let mut accounts = leave_accounts(
        vault_after_enter,
        acct(vote_key, false, VOTE_MINIMUM_RESERVE),
        acct(refund_address, false, 0),
        acct(withdrawer, true, 0),
    );
    assert_eq!(run(&mut accounts, 1, &mut vote_auth), Ok(()));
    assert_eq!(accounts[0].lamports, 0);
    assert_eq!(accounts[0].data, vec![0u8; 64]);
    assert_eq!(accounts[2].lamports, VAULT_RENT_MINIMUM);
    assert_eq!(vote_auth, withdrawer);
}

#[test]
fn test_withdraw() {
    let vote_key = addr(10);
    let vault_key = get_rewards_vault_address(&vote_key).unwrap();
    let withdrawer = addr(20);
    let rewards_authority = addr(30);
    let payer = addr(40);
    let rewards_recipient = addr(60);
    let epoch_rewards: u64 = 12345678;

    // enter the rewards vault
    let mut vote_auth = withdrawer;
    let mut accounts = enter_accounts(
        acct(vault_key, false, 0),
        acct(vote_key, false, VOTE_MINIMUM_RESERVE),
        acct(payer, true, 10_000_000),
        acct(withdrawer, true, 0),
        acct(rewards_authority, false, 0),
    );
    assert_eq!(run(&mut accounts, 0, &mut vote_auth), Ok(()));
    let vault = Account {
        key: vault_key,
        is_signer: false,
        lamports: accounts[0].lamports,
        data: accounts[0].data.clone(),
    };

    // simulate epoch rewards
    let vote_balance = VOTE_MINIMUM_RESERVE + epoch_rewards;

    // the original withdraw authority cannot claim the rewards
    let mut accounts = withdraw_accounts(
        Account {
            key: vault_key,
            is_signer: false,
            lamports: vault.lamports,
            data: vault.data.clone(),
        },
        acct(vote_key, false, vote_balance),
        acct(payer, false, 0),
        acct(withdrawer, true, 0),
    );
    assert_eq!(
        run(&mut accounts, 2, &mut vote_auth),
        Err(VaultError::MissingRequiredSignature)
    );

    // the rewards authority can claim the rewards
    let mut accounts = withdraw_accounts(
        Account {
            key: vault_key,
            is_signer: false,
            lamports: vault.lamports,
            data: vault.data.clone(),
        },
        acct(vote_key, false, vote_balance),
        acct(rewards_recipient, false, 0),
        acct(rewards_authority, true, 0),
    );
    assert_eq!(run(&mut accounts, 2, &mut vote_auth), Ok(()));
    assert_eq!(accounts[2].lamports, epoch_rewards);
    assert_eq!(accounts[1].lamports, VOTE_MINIMUM_RESERVE);
    // custody is unchanged by a withdrawal
    assert_eq!(accounts[0].lamports, VAULT_RENT_MINIMUM);
    assert_eq!(vote_auth, vault_key);

    // leave the rewards vault
    let mut accounts = leave_accounts(
        vault,
        acct(vote_key, false, VOTE_MINIMUM_RESERVE),
        acct(payer, false, 0),
        acct(withdrawer, true, 0),
    );
    assert_eq!(run(&mut accounts, 1, &mut vote_auth), Ok(()));

    // the withdraw authority is the original holder's again
    assert_eq!(vote_auth, withdrawer);
}

#[test]
fn test_rejects_unknown_opcode() {
    let vote_key = addr(10);
    let vault_key = get_rewards_vault_address(&vote_key).unwrap();
    let mut vote_auth = addr(20);
    let mut accounts = vec![
        acct(vault_key, false, 0),
        acct(vote_key, false, VOTE_MINIMUM_RESERVE),
    ];
    assert_eq!(run(&mut accounts, 3, &mut vote_auth), Err(VaultError::InvalidInstructionData));
}

#[test]
fn test_rejects_empty_instruction_data() {
    let mut vote_auth = addr(20);
    let mut accounts = vec![acct(addr(1), false, 0), acct(addr(10), false, 0)];
    let r = process_instruction(
        &pda::id(),
        &mut accounts,
        &[],
        &mut vote_auth,
        VOTE_MINIMUM_RESERVE,
        VAULT_RENT_MINIMUM,
    );
    assert_eq!(r, Err(VaultError::InvalidInstructionData));
}

#[test]
fn test_rejects_short_account_list() {
    let vote_key = addr(10);
    let vault_key = get_rewards_vault_address(&vote_key).unwrap();
    let mut vote_auth = addr(20);

    let mut accounts = vec![acct(vault_key, false, 0)];
    assert_eq!(run(&mut accounts, 0, &mut vote_auth), Err(VaultError::NotEnoughAccountKeys));

    // enough for the address check, too short for Enter itself
    let mut accounts = vec![
        acct(vault_key, false, 0),
        acct(vote_key, false, VOTE_MINIMUM_RESERVE),
        acct(addr(40), true, 10_000_000),
    ];
    assert_eq!(run(&mut accounts, 0, &mut vote_auth), Err(VaultError::NotEnoughAccountKeys));
}

#[test]
fn test_enter_rejects_poor_funder() {
    let vote_key = addr(10);
    let vault_key = get_rewards_vault_address(&vote_key).unwrap();
    let withdrawer = addr(20);
    let mut vote_auth = withdrawer;
    let mut accounts = enter_accounts(
        acct(vault_key, false, 0),
        acct(vote_key, false, VOTE_MINIMUM_RESERVE),
        acct(addr(40), true, VAULT_RENT_MINIMUM - 1),
        acct(withdrawer, true, 0),
        acct(addr(30), false, 0),
    );
    assert_eq!(run(&mut accounts, 0, &mut vote_auth), Err(VaultError::InsufficientFunds));
    assert_eq!(vote_auth, withdrawer);
}

#[test]
fn test_enter_rejects_unsigned_authority() {
    let vote_key = addr(10);
    let vault_key = get_rewards_vault_address(&vote_key).unwrap();
    let withdrawer = addr(20);
    let mut vote_auth = withdrawer;
    let mut accounts = enter_accounts(
        acct(vault_key, false, 0),
        acct(vote_key, false, VOTE_MINIMUM_RESERVE),
        acct(addr(40), true, 10_000_000),
        acct(withdrawer, false, 0),
        acct(addr(30), false, 0),
    );
    assert_eq!(run(&mut accounts, 0, &mut vote_auth), Err(VaultError::MissingRequiredSignature));
}

#[test]
fn test_withdraw_rejects_balance_below_reserve() {
    let vote_key = addr(10);
    let vault_key = get_rewards_vault_address(&vote_key).unwrap();
    let withdrawer = addr(20);
    let rewards_authority = addr(30);

    let mut vote_auth = withdrawer;
    let mut accounts = enter_accounts(
        acct(vault_key, false, 0),
        acct(vote_key, false, VOTE_MINIMUM_RESERVE),
        acct(addr(40), true, 10_000_000),
        acct(withdrawer, true, 0),
        acct(rewards_authority, false, 0),
    );
    assert_eq!(run(&mut accounts, 0, &mut vote_auth), Ok(()));
    let vault = Account {
        key: vault_key,
        is_signer: false,
        lamports: accounts[0].lamports,
        data: accounts[0].data.clone(),
    };

    let mut accounts = withdraw_accounts(
        vault,
        acct(vote_key, false, VOTE_MINIMUM_RESERVE - 1),
        acct(addr(60), false, 0),
        acct(rewards_authority, true, 0),
    );
    assert_eq!(run(&mut accounts, 2, &mut vote_auth), Err(VaultError::InvalidInstructionData));
    assert_eq!(accounts[1].lamports, VOTE_MINIMUM_RESERVE - 1);
}

#[test]
fn test_leave_rejects_malformed_vault_record() {
    let vote_key = addr(10);
    let vault_key = get_rewards_vault_address(&vote_key).unwrap();
    let withdrawer = addr(20);
    let mut vote_auth = vault_key;
    let mut accounts = leave_accounts(
        Account { key: vault_key, is_signer: false, lamports: VAULT_RENT_MINIMUM, data: vec![7u8; 10] },
        acct(vote_key, false, VOTE_MINIMUM_RESERVE),
        acct(addr(50), false, 0),
        acct(withdrawer, true, 0),
    );
    assert_eq!(run(&mut accounts, 1, &mut vote_auth), Err(VaultError::InvalidAccountData));
    assert_eq!(accounts[0].data, vec![7u8; 10]);
}

#[test]
fn test_leave_rejects_refund_overflow() {
    let vote_key = addr(10);
    let vault_key = get_rewards_vault_address(&vote_key).unwrap();
    let withdrawer = addr(20);

    let mut vote_auth = withdrawer;
    let mut accounts = enter_accounts(
        acct(vault_key, false, 0),
        acct(vote_key, false, VOTE_MINIMUM_RESERVE),
        acct(addr(40), true, 10_000_000),
        acct(withdrawer, true, 0),
        acct(addr(30), false, 0),
    );
    assert_eq!(run(&mut accounts, 0, &mut vote_auth), Ok(()));
    let vault = Account {
        key: vault_key,
        is_signer: false,
        lamports: accounts[0].lamports,
        data: accounts[0].data.clone(),
    };

    let mut accounts = leave_accounts(
        vault,
        acct(vote_key, false, VOTE_MINIMUM_RESERVE),
        acct(addr(50), false, u64::MAX),
        acct(withdrawer, true, 0),
    );
    assert_eq!(run(&mut accounts, 1, &mut vote_auth), Err(VaultError::ArithmeticOverflow));
    assert_eq!(vote_auth, vault_key);
}
