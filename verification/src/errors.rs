use vstd::prelude::*;

verus! {

/// Reasons vault initialization rejects its inputs.
#[derive(Clone, Copy, PartialEq, Eq, Structural, Debug)]
pub enum InitializeVaultError {
    /// The deck identifier is empty or longer than the stored bound.
    InvalidDeckId,
    /// The initial deposit amount is zero.
    InvalidInitialDepositAmount,
    /// The streak target is zero.
    InvalidStreakTarget,
    /// The authority's balance does not cover the deposit.
    InsufficientFunds,
}

/// Reasons a check-in is rejected.
#[derive(Clone, Copy, PartialEq, Eq, Structural, Debug)]
pub enum CheckInError {
    /// Less than the minimum interval has elapsed since the last check-in.
    TooEarly,
    /// More than the maximum interval has elapsed since the last check-in.
    TooLate,
    /// The elapsed time does not fit a signed 64-bit integer.
    InvalidTimeCalculation,
    /// Incrementing the streak counter would wrap.
    Overflow,
}

/// Reasons a withdrawal is rejected.
#[derive(Clone, Copy, PartialEq, Eq, Structural, Debug)]
pub enum WithdrawError {
    /// The streak counter has not reached the streak target.
    StreakTargetNotMet,
    /// Returning the funds would overflow the recipient's balance.
    Overflow,
}

/// Arithmetic that the ledger cannot represent.
#[derive(Clone, Copy, PartialEq, Eq, Structural, Debug)]
pub enum ArithmeticError {
    /// A balance update would overflow an unsigned 64-bit amount.
    Overflow,
}

/// Reasons credential minting is rejected.
#[derive(Clone, Copy, PartialEq, Eq, Structural, Debug)]
pub enum MintCredentialError {
    /// The permit is not bound to the declared owner.
    InvalidMintPermit,
}

/// Violations of the account-set protocol: a declared account does not
/// match what the instruction expects. These are fatal; there is no
/// partial acceptance of an account set.
#[derive(Clone, Copy, PartialEq, Eq, Structural, Debug)]
pub enum ProtocolError {
    /// A declared account does not exist on the ledger.
    AccountNotFound,
    /// An account to be created already exists at its derived address,
    /// or a record that may be written only once is already written.
    AccountAlreadyInUse,
    /// A declared account is not at the address derived from the seeds.
    AddressMismatch,
    /// A record is not of the kind the instruction expects.
    WrongAccountKind,
    /// A stored record is not bound to the declared owner.
    OwnerMismatch,
    /// A required signature is missing from the declared account set.
    MissingSignature,
    /// The instruction is addressed to a different program.
    WrongProgram,
    /// Two declared accounts alias the same address.
    DuplicateAccount,
    /// The account set does not have the shape the callee expects.
    MalformedAccountSet,
    /// No valid disambiguation nonce exists for the seeds.
    DerivationExhausted,
}

/// Any error an entry point of either service can surface. Every error
/// aborts the whole invocation: no state change of a failed call persists.
#[derive(Clone, Copy, PartialEq, Eq, Structural, Debug)]
pub enum ServiceError {
    InitializeVault(InitializeVaultError),
    CheckIn(CheckInError),
    Withdraw(WithdrawError),
    MintCredential(MintCredentialError),
    Arithmetic(ArithmeticError),
    Protocol(ProtocolError),
}

} // verus!
