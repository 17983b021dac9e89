use vstd::prelude::*;
use crate::deck_id_valid;
use crate::errors::{CheckInError, InitializeVaultError, WithdrawError};
use crate::state::VaultAccount;

verus! {

/// Minimum interval between check-ins: 20 hours, in seconds.
pub const MIN_CHECK_IN_INTERVAL: i64 = 20 * 60 * 60;

/// Maximum interval between check-ins: 48 hours, in seconds.
pub const MAX_CHECK_IN_INTERVAL: i64 = 48 * 60 * 60;

/// The elapsed time fits a signed 64-bit integer.
pub open spec fn elapsed_representable(last: i64, now: i64) -> bool {
    i64::MIN <= now - last <= i64::MAX
}

/// The elapsed time since the last check-in lies in the accepted window.
pub open spec fn check_in_window_ok(last: i64, now: i64) -> bool {
    MIN_CHECK_IN_INTERVAL <= now - last <= MAX_CHECK_IN_INTERVAL
}

/// The error vault initialization reports, in the order the checks are
/// made, or `None` when the inputs are accepted.
pub open spec fn initialize_vault_error(
    authority_lamports: u64,
    deck_id: Seq<u8>,
    initial_deposit_amount: u64,
    streak_target: u8,
) -> Option<InitializeVaultError> {
    if !deck_id_valid(deck_id) {
        Some(InitializeVaultError::InvalidDeckId)
    } else if initial_deposit_amount == 0 {
        Some(InitializeVaultError::InvalidInitialDepositAmount)
    } else if streak_target == 0 {
        Some(InitializeVaultError::InvalidStreakTarget)
    } else if authority_lamports < initial_deposit_amount {
        Some(InitializeVaultError::InsufficientFunds)
    } else {
        None
    }
}

/// The error a check-in reports, in the order the checks are made, or
/// `None` when the check-in is accepted.
pub open spec fn check_in_error(last: i64, now: i64, streak_counter: u8) -> Option<CheckInError> {
    if !elapsed_representable(last, now) {
        Some(CheckInError::InvalidTimeCalculation)
    } else if now - last < MIN_CHECK_IN_INTERVAL {
        Some(CheckInError::TooEarly)
    } else if now - last > MAX_CHECK_IN_INTERVAL {
        Some(CheckInError::TooLate)
    } else if streak_counter == u8::MAX {
        Some(CheckInError::Overflow)
    } else {
        None
    }
}

/// The inputs on which vault initialization succeeds: the deck
/// identifier is valid, the deposit and target are positive, and the
/// authority's balance covers the deposit.
pub open spec fn initialize_vault_accepted(
    authority_lamports: u64,
    deck_id: Seq<u8>,
    initial_deposit_amount: u64,
    streak_target: u8,
) -> bool {
    &&& authority_lamports >= initial_deposit_amount
    &&& deck_id_valid(deck_id)
    &&& initial_deposit_amount > 0
    &&& streak_target > 0
}

/// Validates the inputs of vault initialization and builds the initial
/// vault record: the streak counter starts at 1 and both timestamps are
/// the supplied clock reading.
pub fn initialize_vault_handler(
    vault_authority: &[u8; 32],
    authority_lamports: u64,
    deck_id: Vec<u8>,
    initial_deposit_amount: u64,
    streak_target: u8,
    now: i64,
) -> (r: Result<VaultAccount, InitializeVaultError>)
    ensures
        r is Ok <==> initialize_vault_accepted(
            authority_lamports, deck_id@, initial_deposit_amount, streak_target),
        r matches Ok(v) ==> {
            &&& v.user@ == vault_authority@
            &&& v.deck_id@ == deck_id@
            &&& v.initial_deposit_amount == initial_deposit_amount
            &&& v.start_timestamp == now
            &&& v.last_check_in_timestamp == now
            &&& v.streak_counter == 1
            &&& v.streak_target == streak_target
            &&& v.wf()
        },
        r matches Err(e) ==> Some(e) == initialize_vault_error(
            authority_lamports, deck_id@, initial_deposit_amount, streak_target),
        r == Err::<VaultAccount, InitializeVaultError>(InitializeVaultError::InvalidDeckId)
            <==> !deck_id_valid(deck_id@),
        r == Err::<VaultAccount, InitializeVaultError>(InitializeVaultError::InvalidInitialDepositAmount)
            <==> deck_id_valid(deck_id@) && initial_deposit_amount == 0,
        r == Err::<VaultAccount, InitializeVaultError>(InitializeVaultError::InvalidStreakTarget)
            <==> deck_id_valid(deck_id@) && initial_deposit_amount > 0 && streak_target == 0,
        r == Err::<VaultAccount, InitializeVaultError>(InitializeVaultError::InsufficientFunds)
            <==> deck_id_valid(deck_id@) && initial_deposit_amount > 0 && streak_target > 0
                && authority_lamports < initial_deposit_amount,
{
    if !crate::check_deck_id(&deck_id) {
        return Err(InitializeVaultError::InvalidDeckId);
    }
    if initial_deposit_amount == 0 {
        return Err(InitializeVaultError::InvalidInitialDepositAmount);
    }
    if streak_target == 0 {
        return Err(InitializeVaultError::InvalidStreakTarget);
    }
    if authority_lamports < initial_deposit_amount {
        return Err(InitializeVaultError::InsufficientFunds);
    }
    Ok(VaultAccount {
        user: *vault_authority,
        deck_id,
        initial_deposit_amount,
        start_timestamp: now,
        last_check_in_timestamp: now,
        streak_target,
        streak_counter: 1,
    })
}

/// Records one check-in: if the time elapsed since the last check-in lies
/// in the accepted window, the streak counter grows by exactly one and the
/// last check-in time moves forward to `now`; on any rejection the vault
/// is left unchanged.
pub fn check_in_handler(vault: &mut VaultAccount, now: i64) -> (r: Result<(), CheckInError>)
    ensures
        r is Ok <==> {
            &&& elapsed_representable(old(vault).last_check_in_timestamp, now)
            &&& check_in_window_ok(old(vault).last_check_in_timestamp, now)
            &&& old(vault).streak_counter < u8::MAX
        },
        r is Ok ==> {
            &&& final(vault).last_check_in_timestamp == now
            &&& final(vault).last_check_in_timestamp >= old(vault).last_check_in_timestamp
            &&& final(vault).streak_counter == old(vault).streak_counter + 1
            &&& final(vault).user@ == old(vault).user@
            &&& final(vault).deck_id@ == old(vault).deck_id@
            &&& final(vault).initial_deposit_amount == old(vault).initial_deposit_amount
            &&& final(vault).start_timestamp == old(vault).start_timestamp
            &&& final(vault).streak_target == old(vault).streak_target
            &&& (old(vault).wf() ==> final(vault).wf())
        },
        r is Err ==> *final(vault) == *old(vault),
        r matches Err(e) ==> Some(e) == check_in_error(
            old(vault).last_check_in_timestamp, now, old(vault).streak_counter),
        r == Err::<(), CheckInError>(CheckInError::InvalidTimeCalculation)
            <==> !elapsed_representable(old(vault).last_check_in_timestamp, now),
        r == Err::<(), CheckInError>(CheckInError::TooEarly)
            <==> elapsed_representable(old(vault).last_check_in_timestamp, now)
                && now - old(vault).last_check_in_timestamp < MIN_CHECK_IN_INTERVAL,
        r == Err::<(), CheckInError>(CheckInError::TooLate)
            <==> elapsed_representable(old(vault).last_check_in_timestamp, now)
                && now - old(vault).last_check_in_timestamp > MAX_CHECK_IN_INTERVAL,
        r == Err::<(), CheckInError>(CheckInError::Overflow)
            <==> elapsed_representable(old(vault).last_check_in_timestamp, now)
                && check_in_window_ok(old(vault).last_check_in_timestamp, now)
                && old(vault).streak_counter == u8::MAX,
{
    let time_since_last_check_in = match now.checked_sub(vault.last_check_in_timestamp) {
        Some(t) => t,
        None => {
            return Err(CheckInError::InvalidTimeCalculation);
        },
    };
    if time_since_last_check_in < MIN_CHECK_IN_INTERVAL {
        return Err(CheckInError::TooEarly);
    }
    if time_since_last_check_in > MAX_CHECK_IN_INTERVAL {
        return Err(CheckInError::TooLate);
    }
    let new_streak = match vault.streak_counter.checked_add(1) {
        Some(c) => c,
        None => {
            return Err(CheckInError::Overflow);
        },
    };
    vault.last_check_in_timestamp = now;
    vault.streak_counter = new_streak;
    Ok(())
}

/// The withdrawal guard: a withdrawal is permitted exactly when the streak
/// counter has reached the streak target.
pub fn withdraw_handler(vault: &VaultAccount) -> (r: Result<(), WithdrawError>)
    ensures
        r is Ok <==> vault.streak_counter >= vault.streak_target,
        r is Err <==> r == Err::<(), WithdrawError>(WithdrawError::StreakTargetNotMet)
            && vault.streak_counter < vault.streak_target,
{
    if vault.streak_counter < vault.streak_target {
        return Err(WithdrawError::StreakTargetNotMet);
    }
    Ok(())
}

} // verus!
