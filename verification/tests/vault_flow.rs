use srs_vault::errors::{
    CheckInError, InitializeVaultError, ProtocolError, ServiceError, WithdrawError,
};
use srs_vault::ledger::{Ledger, LedgerEntry, Record};
use srs_vault::pda::derive_vault_address;
use srs_vault::service::{
    check_in, create_mint_permit, initialize_mint_permit, initialize_vault, mint_credential,
    withdraw, NftMinterProgram, VaultProgram,
};
use srs_vault::state::VaultAccount;

const HOUR: i64 = 60 * 60;
const T0: i64 = 1_700_000_000;

fn vault_program() -> VaultProgram {
    VaultProgram { program_id: [1; 32], nft_minter_program: [2; 32] }
}

fn minter_program() -> NftMinterProgram {
    NftMinterProgram { program_id: [2; 32] }
}

fn user_key() -> [u8; 32] {
    [3; 32]
}

fn deck() -> Vec<u8> {
    b"algebra".to_vec()
}

fn funded_ledger() -> Ledger {
    let mut ledger = Ledger::new();
    ledger.insert_entry(LedgerEntry {
        address: user_key(),
        lamports: 5000,
        record: Record::Wallet,
    });
    ledger
}

fn vault_addr() -> [u8; 32] {
    let (address, _nonce) =
        derive_vault_address(&vault_program().program_id, &user_key(), &deck()).unwrap();
    address
}

fn read_vault(ledger: &Ledger) -> Option<VaultAccount> {
    match ledger.read_entry(&vault_addr()) {
        Some(e) => match &e.record {
            Record::Vault(v) => Some(VaultAccount {
                user: v.user,
                deck_id: v.deck_id.clone(),
                initial_deposit_amount: v.initial_deposit_amount,
                start_timestamp: v.start_timestamp,
                last_check_in_timestamp: v.last_check_in_timestamp,
                streak_target: v.streak_target,
                streak_counter: v.streak_counter,
            }),
            _ => None,
        },
        None => None,
    }
}

fn wallet_balance(ledger: &Ledger) -> u64 {
    ledger.read_entry(&user_key()).unwrap().lamports
}

#[test]
fn initialize_sets_counter_and_transfers_deposit() {
    let program = vault_program();
    let mut ledger = funded_ledger();
    let r = initialize_vault(&program, &mut ledger, &user_key(), deck(), 1000, 5, T0);
    assert_eq!(r, Ok(()));
    let v = read_vault(&ledger).unwrap();
    assert_eq!(v.streak_counter, 1);
    assert_eq!(v.streak_target, 5);
    assert_eq!(v.start_timestamp, T0);
    assert_eq!(v.last_check_in_timestamp, T0);
    assert_eq!(v.initial_deposit_amount, 1000);
    assert_eq!(v.user, user_key());
    assert_eq!(v.deck_id, deck());
    assert_eq!(wallet_balance(&ledger), 4000);
    assert_eq!(ledger.read_entry(&vault_addr()).unwrap().lamports, 1000);
}

#[test]
fn initialize_rejects_empty_deck() {
    let program = vault_program();
    let mut ledger = funded_ledger();
    let r = initialize_vault(&program, &mut ledger, &user_key(), Vec::new(), 1000, 5, T0);
    assert_eq!(r, Err(ServiceError::InitializeVault(InitializeVaultError::InvalidDeckId)));
    assert_eq!(wallet_balance(&ledger), 5000);
    assert!(read_vault(&ledger).is_none());
}

#[test]
fn initialize_rejects_oversized_deck() {
    let program = vault_program();
    let mut ledger = funded_ledger();
    let long_deck = vec![7u8; 33];
    let r = initialize_vault(&program, &mut ledger, &user_key(), long_deck, 1000, 5, T0);
    assert_eq!(r, Err(ServiceError::InitializeVault(InitializeVaultError::InvalidDeckId)));
}

#[test]
fn initialize_rejects_zero_deposit() {
    let program = vault_program();
    let mut ledger = funded_ledger();
    let r = initialize_vault(&program, &mut ledger, &user_key(), deck(), 0, 5, T0);
    assert_eq!(
        r,
        Err(ServiceError::InitializeVault(InitializeVaultError::InvalidInitialDepositAmount))
    );
}

#[test]
fn initialize_rejects_zero_target() {
    let program = vault_program();
    let mut ledger = funded_ledger();
    let r = initialize_vault(&program, &mut ledger, &user_key(), deck(), 1000, 0, T0);
    assert_eq!(r, Err(ServiceError::InitializeVault(InitializeVaultError::InvalidStreakTarget)));
}

#[test]
fn initialize_rejects_insufficient_funds() {
    let program = vault_program();
    let mut ledger = funded_ledger();
    let r = initialize_vault(&program, &mut ledger, &user_key(), deck(), 6000, 5, T0);
    assert_eq!(r, Err(ServiceError::InitializeVault(InitializeVaultError::InsufficientFunds)));
    assert_eq!(wallet_balance(&ledger), 5000);
}

#[test]
fn initialize_rejects_second_vault_for_same_pair() {
    let program = vault_program();
    let mut ledger = funded_ledger();
    assert_eq!(initialize_vault(&program, &mut ledger, &user_key(), deck(), 1000, 5, T0), Ok(()));
    let r = initialize_vault(&program, &mut ledger, &user_key(), deck(), 1000, 5, T0);
    assert_eq!(r, Err(ServiceError::Protocol(ProtocolError::AccountAlreadyInUse)));
}

#[test]
fn check_in_too_early_leaves_state_unchanged() {
    let program = vault_program();
    let mut ledger = funded_ledger();
    initialize_vault(&program, &mut ledger, &user_key(), deck(), 1000, 5, T0).unwrap();
    let r = check_in(&program, &mut ledger, &user_key(), &deck(), T0 + 19 * HOUR);
    assert_eq!(r, Err(ServiceError::CheckIn(CheckInError::TooEarly)));
    let v = read_vault(&ledger).unwrap();
    assert_eq!(v.streak_counter, 1);
    assert_eq!(v.last_check_in_timestamp, T0);
}

#[test]
fn check_in_in_window_increments_streak() {
    let program = vault_program();
    let mut ledger = funded_ledger();
    initialize_vault(&program, &mut ledger, &user_key(), deck(), 1000, 5, T0).unwrap();
    let r = check_in(&program, &mut ledger, &user_key(), &deck(), T0 + 21 * HOUR);
    assert_eq!(r, Ok(()));
    let v = read_vault(&ledger).unwrap();
    assert_eq!(v.streak_counter, 2);
    assert_eq!(v.last_check_in_timestamp, T0 + 21 * HOUR);
    assert_eq!(v.start_timestamp, T0);
}

#[test]
fn check_in_window_boundaries_are_inclusive() {
    let program = vault_program();
    let mut ledger = funded_ledger();
    initialize_vault(&program, &mut ledger, &user_key(), deck(), 1000, 5, T0).unwrap();
    assert_eq!(check_in(&program, &mut ledger, &user_key(), &deck(), T0 + 20 * HOUR), Ok(()));
    assert_eq!(
        check_in(&program, &mut ledger, &user_key(), &deck(), T0 + 20 * HOUR + 48 * HOUR),
        Ok(())
    );
    assert_eq!(read_vault(&ledger).unwrap().streak_counter, 3);
}

#[test]
fn check_in_too_late_leaves_state_unchanged() {
    let program = vault_program();
    let mut ledger = funded_ledger();
    initialize_vault(&program, &mut ledger, &user_key(), deck(), 1000, 5, T0).unwrap();
    let r = check_in(&program, &mut ledger, &user_key(), &deck(), T0 + 49 * HOUR);
    assert_eq!(r, Err(ServiceError::CheckIn(CheckInError::TooLate)));
    let v = read_vault(&ledger).unwrap();
    assert_eq!(v.streak_counter, 1);
    assert_eq!(v.last_check_in_timestamp, T0);
}

#[test]
fn check_in_reports_counter_overflow() {
    let program = vault_program();
    let mut ledger = funded_ledger();
    ledger.insert_entry(LedgerEntry {
        address: vault_addr(),
        lamports: 1000,
        record: Record::Vault(VaultAccount {
            user: user_key(),
            deck_id: deck(),
            initial_deposit_amount: 1000,
            start_timestamp: T0,
            last_check_in_timestamp: T0,
            streak_target: 255,
            streak_counter: 255,
        }),
    });
    let r = check_in(&program, &mut ledger, &user_key(), &deck(), T0 + 21 * HOUR);
    assert_eq!(r, Err(ServiceError::CheckIn(CheckInError::Overflow)));
    assert_eq!(read_vault(&ledger).unwrap().streak_counter, 255);
}

#[test]
fn check_in_reports_unrepresentable_elapsed_time() {
    let program = vault_program();
    let mut ledger = funded_ledger();
    ledger.insert_entry(LedgerEntry {
        address: vault_addr(),
        lamports: 1000,
        record: Record::Vault(VaultAccount {
            user: user_key(),
            deck_id: deck(),
            initial_deposit_amount: 1000,
            start_timestamp: i64::MIN,
            last_check_in_timestamp: i64::MIN,
            streak_target: 5,
            streak_counter: 1,
        }),
    });
    let r = check_in(&program, &mut ledger, &user_key(), &deck(), 1);
    assert_eq!(r, Err(ServiceError::CheckIn(CheckInError::InvalidTimeCalculation)));
}

#[test]
fn check_in_rejects_foreign_owner() {
    let program = vault_program();
    let mut ledger = funded_ledger();
    ledger.insert_entry(LedgerEntry {
        address: vault_addr(),
        lamports: 1000,
        record: Record::Vault(VaultAccount {
            user: [9; 32],
            deck_id: deck(),
            initial_deposit_amount: 1000,
            start_timestamp: T0,
            last_check_in_timestamp: T0,
            streak_target: 5,
            streak_counter: 1,
        }),
    });
    let r = check_in(&program, &mut ledger, &user_key(), &deck(), T0 + 21 * HOUR);
    assert_eq!(r, Err(ServiceError::Protocol(ProtocolError::OwnerMismatch)));
}

#[test]
fn check_in_without_vault_reports_missing_account() {
    let program = vault_program();
    let mut ledger = funded_ledger();
    let r = check_in(&program, &mut ledger, &user_key(), &deck(), T0);
    assert_eq!(r, Err(ServiceError::Protocol(ProtocolError::AccountNotFound)));
}

#[test]
fn short_streak_scenario() {
    // initialize -> one good check-in -> one late check-in -> early withdraw.
    let program = vault_program();
    let minter = minter_program();
    let mut ledger = funded_ledger();
    initialize_vault(&program, &mut ledger, &user_key(), deck(), 1000, 5, T0).unwrap();
    assert_eq!(read_vault(&ledger).unwrap().streak_counter, 1);

    let t1 = T0 + 21 * HOUR;
    assert_eq!(check_in(&program, &mut ledger, &user_key(), &deck(), t1), Ok(()));
    assert_eq!(read_vault(&ledger).unwrap().streak_counter, 2);

    let t2 = t1 + 50 * HOUR;
    assert_eq!(
        check_in(&program, &mut ledger, &user_key(), &deck(), t2),
        Err(ServiceError::CheckIn(CheckInError::TooLate))
    );
    assert_eq!(read_vault(&ledger).unwrap().streak_counter, 2);

    initialize_mint_permit(&minter, &mut ledger, &user_key(), &user_key(), &deck()).unwrap();
    let r = withdraw(&program, &minter, &mut ledger, &user_key(), &deck(), t2);
    assert_eq!(r, Err(ServiceError::Withdraw(WithdrawError::StreakTargetNotMet)));
    assert!(read_vault(&ledger).is_some());
    assert_eq!(wallet_balance(&ledger), 4000);
}

#[test]
fn full_streak_scenario() {
    // Five check-ins spaced 21 to 47 hours apart reach the target of 5;
    // the withdrawal then returns the deposit and populates the permit,
    // and the permit mints exactly one credential.
    let program = vault_program();
    let minter = minter_program();
    let mut ledger = funded_ledger();
    initialize_vault(&program, &mut ledger, &user_key(), deck(), 1000, 5, T0).unwrap();

    let mut t = T0;
    for gap in [21, 47, 21, 47] {
        t += gap * HOUR;
        assert_eq!(check_in(&program, &mut ledger, &user_key(), &deck(), t), Ok(()));
    }
    let v = read_vault(&ledger).unwrap();
    assert_eq!(v.streak_counter, 5);
    assert_eq!(v.streak_counter, v.streak_target);

    initialize_mint_permit(&minter, &mut ledger, &user_key(), &user_key(), &deck()).unwrap();
    let t_withdraw = t + HOUR;
    assert_eq!(withdraw(&program, &minter, &mut ledger, &user_key(), &deck(), t_withdraw), Ok(()));
    assert_eq!(wallet_balance(&ledger), 5000);
    assert!(read_vault(&ledger).is_none());
    assert!(ledger.read_entry(&vault_addr()).is_none());

    // The vault is gone: a second withdrawal has no account to act on.
    let again = withdraw(&program, &minter, &mut ledger, &user_key(), &deck(), t_withdraw + 1);
    assert_eq!(again, Err(ServiceError::Protocol(ProtocolError::AccountNotFound)));

    // The populated permit mints the credential exactly once.
    assert_eq!(mint_credential(&minter, &mut ledger, &user_key(), &deck()), Ok(()));
    let second = mint_credential(&minter, &mut ledger, &user_key(), &deck());
    assert_eq!(second, Err(ServiceError::Protocol(ProtocolError::AccountNotFound)));
}

#[test]
fn withdraw_without_permit_account_fails_atomically() {
    let program = vault_program();
    let minter = minter_program();
    let mut ledger = funded_ledger();
    initialize_vault(&program, &mut ledger, &user_key(), deck(), 1000, 1, T0).unwrap();
    let r = withdraw(&program, &minter, &mut ledger, &user_key(), &deck(), T0 + HOUR);
    assert_eq!(r, Err(ServiceError::Protocol(ProtocolError::AccountNotFound)));
    assert!(read_vault(&ledger).is_some());
    assert_eq!(wallet_balance(&ledger), 4000);
}

#[test]
fn withdraw_rejects_undeclared_issuer_program() {
    let program = vault_program();
    let foreign = NftMinterProgram { program_id: [8; 32] };
    let mut ledger = funded_ledger();
    initialize_vault(&program, &mut ledger, &user_key(), deck(), 1000, 1, T0).unwrap();
    let r = withdraw(&program, &foreign, &mut ledger, &user_key(), &deck(), T0 + HOUR);
    assert_eq!(r, Err(ServiceError::Protocol(ProtocolError::WrongProgram)));
}

#[test]
fn withdraw_reports_balance_overflow() {
    let program = vault_program();
    let minter = minter_program();
    let mut ledger = Ledger::new();
    ledger.insert_entry(LedgerEntry {
        address: user_key(),
        lamports: u64::MAX,
        record: Record::Wallet,
    });
    ledger.insert_entry(LedgerEntry {
        address: vault_addr(),
        lamports: 1000,
        record: Record::Vault(VaultAccount {
            user: user_key(),
            deck_id: deck(),
            initial_deposit_amount: 1000,
            start_timestamp: T0,
            last_check_in_timestamp: T0,
            streak_target: 1,
            streak_counter: 1,
        }),
    });
    let r = withdraw(&program, &minter, &mut ledger, &user_key(), &deck(), T0 + HOUR);
    assert_eq!(r, Err(ServiceError::Withdraw(WithdrawError::Overflow)));
    assert_eq!(wallet_balance(&ledger), u64::MAX);
}

#[test]
fn check_in_rejects_a_record_of_the_wrong_kind() {
    let program = vault_program();
    let mut ledger = funded_ledger();
    ledger.insert_entry(LedgerEntry {
        address: vault_addr(),
        lamports: 0,
        record: Record::Wallet,
    });
    let r = check_in(&program, &mut ledger, &user_key(), &deck(), T0);
    assert_eq!(r, Err(ServiceError::Protocol(ProtocolError::WrongAccountKind)));
}

#[test]
fn withdraw_rejects_an_already_populated_permit() {
    let program = vault_program();
    let minter = minter_program();
    let mut ledger = funded_ledger();
    initialize_vault(&program, &mut ledger, &user_key(), deck(), 1000, 1, T0).unwrap();
    initialize_mint_permit(&minter, &mut ledger, &user_key(), &user_key(), &deck()).unwrap();
    create_mint_permit(&minter, &mut ledger, &user_key(), deck(), T0).unwrap();
    let r = withdraw(&program, &minter, &mut ledger, &user_key(), &deck(), T0 + HOUR);
    assert_eq!(r, Err(ServiceError::Protocol(ProtocolError::AccountAlreadyInUse)));
    // The failed withdrawal left everything in place.
    assert!(read_vault(&ledger).is_some());
    assert_eq!(wallet_balance(&ledger), 4000);
}
