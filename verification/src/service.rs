use vstd::prelude::*;
use crate::errors::{
    ArithmeticError, InitializeVaultError, MintCredentialError, ProtocolError, ServiceError,
    WithdrawError,
};
use crate::ledger::{EntryView, Ledger, LedgerEntry, Record, RecordView};
use crate::pda::{
    asset_address, derive_asset_address, derive_mint_permit_address, derive_vault_address,
    mint_permit_address, vault_address,
};
use crate::permit_instructions::{
    create_mint_permit_handler, credential_name, credential_uri, initialize_mint_permit_handler,
    mint_credential_handler,
};
use crate::state::{CredentialView, PermitView, VaultView};

verus! {

/// The deployed vault service: its own program id and the program id of
/// the issuer service it is allowed to invoke.
pub struct VaultProgram {
    pub program_id: [u8; 32],
    pub nft_minter_program: [u8; 32],
}

/// The deployed issuer service.
pub struct NftMinterProgram {
    pub program_id: [u8; 32],
}

/// One declared account of an instruction: its address, whether its
/// signature authorizes the call, and whether the callee may mutate it.
pub struct AccountMeta {
    pub address: [u8; 32],
    pub is_signer: bool,
    pub is_writable: bool,
}

/// The argument payload of an instruction addressed to the issuer service.
pub enum InstructionData {
    /// Populate a pre-allocated permit for `(user, deck_id)`.
    CreateMintPermit { deck_id: Vec<u8> },
}

/// A cross-service invocation: the target program, the declared account
/// set (minimal and ordered as the callee expects), and the arguments.
/// The authority it carries is scoped to this single call.
pub struct Instruction {
    pub program_id: [u8; 32],
    pub accounts: Vec<AccountMeta>,
    pub data: InstructionData,
}

/// The wallet balance stored at `a`, when `a` holds a plain wallet.
pub open spec fn wallet_lamports_at(l: Ledger, a: Seq<u8>) -> Option<u64> {
    match l.spec_entry(a) {
        Some(e) => match e.record {
            RecordView::Wallet => Some(e.lamports),
            _ => None,
        },
        None => None,
    }
}

/// The vault record stored at `a`, if one is.
pub open spec fn vault_record_at(l: Ledger, a: Seq<u8>) -> Option<VaultView> {
    match l.spec_entry(a) {
        Some(e) => match e.record {
            RecordView::Vault(v) => Some(v),
            _ => None,
        },
        None => None,
    }
}

/// The permit record stored at `a`, if one is.
pub open spec fn permit_record_at(l: Ledger, a: Seq<u8>) -> Option<PermitView> {
    match l.spec_entry(a) {
        Some(e) => match e.record {
            RecordView::Permit(p) => Some(p),
            _ => None,
        },
        None => None,
    }
}

/// The credential record stored at `a`, if one is.
pub open spec fn credential_record_at(l: Ledger, a: Seq<u8>) -> Option<CredentialView> {
    match l.spec_entry(a) {
        Some(e) => match e.record {
            RecordView::Credential(c) => Some(c),
            _ => None,
        },
        None => None,
    }
}

/// The inputs on which permit allocation succeeds: the permit address
/// derives, and nothing lives there yet.
pub open spec fn initialize_mint_permit_enabled(
    l: Ledger,
    minter_id: Seq<u8>,
    user: Seq<u8>,
    deck_id: Seq<u8>,
) -> bool {
    &&& mint_permit_address(minter_id, user, deck_id) is Some
    &&& l.spec_entry(mint_permit_address(minter_id, user, deck_id).unwrap().0) is None
}

/// Allocates the permit record of `(user, deck_id)` at its derived
/// address, bound to `user` and otherwise zeroed. `payer` is the declared
/// fee payer; storage deposits are not modeled, so the new account starts
/// with a zero balance and `payer` is left untouched.
pub fn initialize_mint_permit(
    minter: &NftMinterProgram,
    ledger: &mut Ledger,
    payer: &[u8; 32],
    user: &[u8; 32],
    deck_id: &Vec<u8>,
) -> (r: Result<(), ServiceError>)
    requires
        old(ledger).wf(),
    ensures
        final(ledger).wf(),
        r is Ok <==> initialize_mint_permit_enabled(
            *old(ledger), minter.program_id@, user@, deck_id@),
        r is Ok ==> ({
            let pa = mint_permit_address(minter.program_id@, user@, deck_id@).unwrap().0;
            &&& final(ledger).spec_entry(pa) == Some(EntryView {
                lamports: 0u64,
                record: RecordView::Permit(PermitView {
                    user: user@,
                    deck_id: Seq::empty(),
                    creation_timestamp: 0i64,
                }),
            })
            &&& forall|a: Seq<u8>| a != pa
                ==> final(ledger).spec_entry(a) == old(ledger).spec_entry(a)
        }),
        r is Err ==> *final(ledger) == *old(ledger),
        match r {
            Ok(_) => true,
            Err(ServiceError::Protocol(ProtocolError::DerivationExhausted)) =>
                mint_permit_address(minter.program_id@, user@, deck_id@) is None,
            Err(ServiceError::Protocol(ProtocolError::AccountAlreadyInUse)) =>
                mint_permit_address(minter.program_id@, user@, deck_id@) is Some
                && old(ledger).spec_entry(
                    mint_permit_address(minter.program_id@, user@, deck_id@).unwrap().0) is Some,
            Err(_) => false,
        },
{
    let permit_address = match derive_mint_permit_address(&minter.program_id, user, deck_id) {
        Some((address, _nonce)) => address,
        None => {
            return Err(ServiceError::Protocol(ProtocolError::DerivationExhausted));
        },
    };
    if ledger.read_entry(&permit_address).is_some() {
        return Err(ServiceError::Protocol(ProtocolError::AccountAlreadyInUse));
    }
    let permit = initialize_mint_permit_handler(user);
    ledger.insert_entry(LedgerEntry {
        address: permit_address,
        lamports: 0,
        record: Record::Permit(permit),
    });
    Ok(())
}

/// A permit record that is still as allocation left it: no deck
/// identifier and no creation time recorded yet.
pub open spec fn permit_unpopulated(p: PermitView) -> bool {
    p.deck_id.len() == 0 && p.creation_timestamp == 0
}

/// The inputs on which permit population succeeds: the permit address
/// derives, a permit lives there, it is bound to `user`, and it is
/// still unpopulated — a permit instance is populated at most once.
pub open spec fn create_mint_permit_enabled(
    l: Ledger,
    minter_id: Seq<u8>,
    user: Seq<u8>,
    deck_id: Seq<u8>,
) -> bool {
    &&& mint_permit_address(minter_id, user, deck_id) is Some
    &&& permit_record_at(l, mint_permit_address(minter_id, user, deck_id).unwrap().0)
        matches Some(p) && p.user == user && permit_unpopulated(p)
}

/// Populates the pre-allocated permit of `(user, deck_id)`: records the
/// deck identifier and the creation time. The permit must be bound to
/// `user` and must not have been populated before: the operation runs at
/// most once per permit instance.
pub fn create_mint_permit(
    minter: &NftMinterProgram,
    ledger: &mut Ledger,
    user: &[u8; 32],
    deck_id: Vec<u8>,
    now: i64,
) -> (r: Result<(), ServiceError>)
    requires
        old(ledger).wf(),
    ensures
        final(ledger).wf(),
        r is Ok <==> create_mint_permit_enabled(*old(ledger), minter.program_id@, user@, deck_id@),
        r is Ok ==> ({
            let pa = mint_permit_address(minter.program_id@, user@, deck_id@).unwrap().0;
            &&& final(ledger).spec_entry(pa) == Some(EntryView {
                lamports: old(ledger).spec_entry(pa).unwrap().lamports,
                record: RecordView::Permit(PermitView {
                    user: user@,
                    deck_id: deck_id@,
                    creation_timestamp: now,
                }),
            })
            &&& forall|a: Seq<u8>| a != pa
                ==> final(ledger).spec_entry(a) == old(ledger).spec_entry(a)
        }),
        r is Err ==> forall|a: Seq<u8>|
            final(ledger).spec_entry(a) == old(ledger).spec_entry(a),
        match r {
            Ok(_) => true,
            Err(ServiceError::Protocol(ProtocolError::DerivationExhausted)) =>
                mint_permit_address(minter.program_id@, user@, deck_id@) is None,
            Err(ServiceError::Protocol(ProtocolError::AccountNotFound)) =>
                mint_permit_address(minter.program_id@, user@, deck_id@) matches Some((pa, _))
                && old(ledger).spec_entry(pa) is None,
            Err(ServiceError::Protocol(ProtocolError::WrongAccountKind)) =>
                mint_permit_address(minter.program_id@, user@, deck_id@) matches Some((pa, _))
                && old(ledger).spec_entry(pa) is Some
                && permit_record_at(*old(ledger), pa) is None,
            Err(ServiceError::MintCredential(MintCredentialError::InvalidMintPermit)) =>
                mint_permit_address(minter.program_id@, user@, deck_id@) matches Some((pa, _))
                && permit_record_at(*old(ledger), pa) matches Some(p) && p.user != user@,
            Err(ServiceError::Protocol(ProtocolError::AccountAlreadyInUse)) =>
                mint_permit_address(minter.program_id@, user@, deck_id@) matches Some((pa, _))
                && permit_record_at(*old(ledger), pa) matches Some(p) && p.user == user@
                && !permit_unpopulated(p),
            Err(_) => false,
        },
{
    let permit_address = match derive_mint_permit_address(&minter.program_id, user, &deck_id) {
        Some((address, _nonce)) => address,
        None => {
            return Err(ServiceError::Protocol(ProtocolError::DerivationExhausted));
        },
    };
    let entry = match ledger.remove_entry(&permit_address) {
        Some(e) => e,
        None => {
            return Err(ServiceError::Protocol(ProtocolError::AccountNotFound));
        },
    };
    let mut permit = match entry.record {
        Record::Permit(p) => p,
        other => {
            ledger.insert_entry(LedgerEntry {
                address: entry.address,
                lamports: entry.lamports,
                record: other,
            });
            return Err(ServiceError::Protocol(ProtocolError::WrongAccountKind));
        },
    };
    if !crate::key_eq(&permit.user, user) {
        ledger.insert_entry(LedgerEntry {
            address: entry.address,
            lamports: entry.lamports,
            record: Record::Permit(permit),
        });
        return Err(ServiceError::MintCredential(MintCredentialError::InvalidMintPermit));
    }
    if permit.deck_id.len() != 0 || permit.creation_timestamp != 0 {
        ledger.insert_entry(LedgerEntry {
            address: entry.address,
            lamports: entry.lamports,
            record: Record::Permit(permit),
        });
        return Err(ServiceError::Protocol(ProtocolError::AccountAlreadyInUse));
    }
    create_mint_permit_handler(&mut permit, user, deck_id, now);
    ledger.insert_entry(LedgerEntry {
        address: entry.address,
        lamports: entry.lamports,
        record: Record::Permit(permit),
    });
    Ok(())
}

/// The deck identifier an instruction payload carries.
pub open spec fn data_deck_id(d: InstructionData) -> Seq<u8> {
    match d {
        InstructionData::CreateMintPermit { deck_id } => deck_id@,
    }
}

/// The account set a permit-population instruction must declare: exactly
/// the permit account (writable, at its derived address) and the signing
/// user (writable), in this order.
pub open spec fn create_mint_permit_account_set_ok(
    minter_id: Seq<u8>,
    accounts: Seq<AccountMeta>,
    deck_id: Seq<u8>,
) -> bool {
    &&& accounts.len() == 2
    &&& accounts[1].is_signer
    &&& accounts[0].is_writable
    &&& accounts[1].is_writable
    &&& mint_permit_address(minter_id, accounts[1].address@, deck_id) matches Some((pa, _))
        && pa == accounts[0].address@
}

/// The inputs on which a cross-service invocation of the issuer succeeds.
pub open spec fn invoke_enabled(l: Ledger, minter_id: Seq<u8>, ix: Instruction) -> bool {
    &&& ix.program_id@ == minter_id
    &&& create_mint_permit_account_set_ok(minter_id, ix.accounts@, data_deck_id(ix.data))
    &&& create_mint_permit_enabled(l, minter_id, ix.accounts@[1].address@, data_deck_id(ix.data))
}

/// Runs one instruction against the issuer service on behalf of a calling
/// service: the callee accepts exactly the minimal, correctly-ordered
/// account set it expects, and any mismatch — wrong address, wrong signer,
/// wrong declared program — is a fatal protocol error. The authority the
/// instruction carries is scoped to this single call; nothing of it
/// persists.
pub fn invoke(minter: &NftMinterProgram, ledger: &mut Ledger, ix: Instruction, now: i64) -> (r:
    Result<(), ServiceError>)
    requires
        old(ledger).wf(),
    ensures
        final(ledger).wf(),
        r is Ok <==> invoke_enabled(*old(ledger), minter.program_id@, ix),
        r is Ok ==> ({
            let user = ix.accounts@[1].address@;
            let deck = data_deck_id(ix.data);
            let pa = mint_permit_address(minter.program_id@, user, deck).unwrap().0;
            &&& final(ledger).spec_entry(pa) == Some(EntryView {
                lamports: old(ledger).spec_entry(pa).unwrap().lamports,
                record: RecordView::Permit(PermitView {
                    user: user,
                    deck_id: deck,
                    creation_timestamp: now,
                }),
            })
            &&& forall|a: Seq<u8>| a != pa
                ==> final(ledger).spec_entry(a) == old(ledger).spec_entry(a)
        }),
        r is Err ==> forall|a: Seq<u8>|
            final(ledger).spec_entry(a) == old(ledger).spec_entry(a),
        match r {
            Ok(_) => true,
            Err(ServiceError::Protocol(ProtocolError::WrongProgram)) =>
                ix.program_id@ != minter.program_id@,
            Err(ServiceError::Protocol(ProtocolError::MalformedAccountSet)) =>
                ix.program_id@ == minter.program_id@
                && (ix.accounts@.len() != 2
                    || (ix.accounts@[1].is_signer
                        && !(ix.accounts@[0].is_writable && ix.accounts@[1].is_writable))),
            Err(ServiceError::Protocol(ProtocolError::MissingSignature)) =>
                ix.program_id@ == minter.program_id@
                && ix.accounts@.len() == 2
                && !ix.accounts@[1].is_signer,
            Err(ServiceError::Protocol(ProtocolError::DerivationExhausted)) =>
                ix.program_id@ == minter.program_id@
                && ix.accounts@.len() == 2
                && ix.accounts@[1].is_signer
                && ix.accounts@[0].is_writable && ix.accounts@[1].is_writable
                && mint_permit_address(minter.program_id@, ix.accounts@[1].address@,
                    data_deck_id(ix.data)) is None,
            Err(ServiceError::Protocol(ProtocolError::AddressMismatch)) => {
                &&& ix.program_id@ == minter.program_id@
                &&& ix.accounts@.len() == 2
                &&& ix.accounts@[1].is_signer
                &&& ix.accounts@[0].is_writable && ix.accounts@[1].is_writable
                &&& mint_permit_address(minter.program_id@, ix.accounts@[1].address@,
                    data_deck_id(ix.data)) matches Some((pa, _))
                    && pa != ix.accounts@[0].address@
            },
            Err(ServiceError::Protocol(ProtocolError::AccountNotFound)) =>
                create_mint_permit_account_set_ok(minter.program_id@, ix.accounts@,
                    data_deck_id(ix.data))
                && ix.program_id@ == minter.program_id@
                && old(ledger).spec_entry(mint_permit_address(minter.program_id@,
                    ix.accounts@[1].address@, data_deck_id(ix.data)).unwrap().0) is None,
            Err(ServiceError::Protocol(ProtocolError::WrongAccountKind)) =>
                create_mint_permit_account_set_ok(minter.program_id@, ix.accounts@,
                    data_deck_id(ix.data))
                && ix.program_id@ == minter.program_id@
                && old(ledger).spec_entry(mint_permit_address(minter.program_id@,
                    ix.accounts@[1].address@, data_deck_id(ix.data)).unwrap().0) is Some
                && permit_record_at(*old(ledger), mint_permit_address(minter.program_id@,
                    ix.accounts@[1].address@, data_deck_id(ix.data)).unwrap().0) is None,
            Err(ServiceError::MintCredential(MintCredentialError::InvalidMintPermit)) => {
                &&& create_mint_permit_account_set_ok(minter.program_id@, ix.accounts@,
                    data_deck_id(ix.data))
                &&& ix.program_id@ == minter.program_id@
                &&& permit_record_at(*old(ledger), mint_permit_address(minter.program_id@,
                    ix.accounts@[1].address@, data_deck_id(ix.data)).unwrap().0)
                    matches Some(p) && p.user != ix.accounts@[1].address@
            },
            Err(ServiceError::Protocol(ProtocolError::AccountAlreadyInUse)) => {
                &&& create_mint_permit_account_set_ok(minter.program_id@, ix.accounts@,
                    data_deck_id(ix.data))
                &&& ix.program_id@ == minter.program_id@
                &&& permit_record_at(*old(ledger), mint_permit_address(minter.program_id@,
                    ix.accounts@[1].address@, data_deck_id(ix.data)).unwrap().0)
                    matches Some(p) && p.user == ix.accounts@[1].address@
                    && !permit_unpopulated(p)
            },
            Err(_) => false,
        },
{
    if !crate::key_eq(&ix.program_id, &minter.program_id) {
        return Err(ServiceError::Protocol(ProtocolError::WrongProgram));
    }
    let InstructionData::CreateMintPermit { deck_id } = ix.data;
    if ix.accounts.len() != 2 {
        return Err(ServiceError::Protocol(ProtocolError::MalformedAccountSet));
    }
    let permit_meta = &ix.accounts[0];
    let user_meta = &ix.accounts[1];
    if !user_meta.is_signer {
        return Err(ServiceError::Protocol(ProtocolError::MissingSignature));
    }
    if !permit_meta.is_writable || !user_meta.is_writable {
        return Err(ServiceError::Protocol(ProtocolError::MalformedAccountSet));
    }
    let derived = match derive_mint_permit_address(&minter.program_id, &user_meta.address, &deck_id) {
        Some((address, _nonce)) => address,
        None => {
            return Err(ServiceError::Protocol(ProtocolError::DerivationExhausted));
        },
    };
    if !crate::key_eq(&derived, &permit_meta.address) {
        return Err(ServiceError::Protocol(ProtocolError::AddressMismatch));
    }
    create_mint_permit(minter, ledger, &user_meta.address, deck_id, now)
}

/// The inputs on which vault creation succeeds: the vault address
/// derives and is distinct from the authority's wallet, the wallet
/// exists, the vault address is free, and the handler accepts the inputs.
pub open spec fn initialize_vault_enabled(
    l: Ledger,
    vault_id: Seq<u8>,
    user: Seq<u8>,
    deck_id: Seq<u8>,
    initial_deposit_amount: u64,
    streak_target: u8,
) -> bool {
    &&& vault_address(vault_id, user, deck_id) is Some
    &&& vault_address(vault_id, user, deck_id).unwrap().0 != user
    &&& wallet_lamports_at(l, user) is Some
    &&& l.spec_entry(vault_address(vault_id, user, deck_id).unwrap().0) is None
    &&& crate::vault_instructions::initialize_vault_accepted(
        wallet_lamports_at(l, user).unwrap(), deck_id, initial_deposit_amount, streak_target)
}

/// Creates the vault of `(vault_authority, deck_id)` at its derived
/// address and moves exactly `initial_deposit_amount` from the
/// authority's wallet into it; the new vault starts with a streak of 1
/// and both timestamps equal to the supplied clock reading. On any error
/// nothing changes.
pub fn initialize_vault(
    program: &VaultProgram,
    ledger: &mut Ledger,
    vault_authority: &[u8; 32],
    deck_id: Vec<u8>,
    initial_deposit_amount: u64,
    streak_target: u8,
    now: i64,
) -> (r: Result<(), ServiceError>)
    requires
        old(ledger).wf(),
    ensures
        final(ledger).wf(),
        r is Ok <==> initialize_vault_enabled(*old(ledger), program.program_id@,
            vault_authority@, deck_id@, initial_deposit_amount, streak_target),
        r is Ok ==> ({
            let user = vault_authority@;
            let va = vault_address(program.program_id@, user, deck_id@).unwrap().0;
            let funds = wallet_lamports_at(*old(ledger), user).unwrap();
            &&& final(ledger).spec_entry(user) == Some(EntryView {
                lamports: (funds - initial_deposit_amount) as u64,
                record: RecordView::Wallet,
            })
            &&& final(ledger).spec_entry(va) == Some(EntryView {
                lamports: initial_deposit_amount,
                record: RecordView::Vault(VaultView {
                    user: user,
                    deck_id: deck_id@,
                    initial_deposit_amount: initial_deposit_amount,
                    start_timestamp: now,
                    last_check_in_timestamp: now,
                    streak_target: streak_target,
                    streak_counter: 1u8,
                }),
            })
            &&& forall|a: Seq<u8>| a != user && a != va
                ==> final(ledger).spec_entry(a) == old(ledger).spec_entry(a)
        }),
        r is Err ==> *final(ledger) == *old(ledger),
        match r {
            Ok(_) => true,
            Err(ServiceError::Protocol(ProtocolError::DerivationExhausted)) =>
                deck_id@.len() <= crate::MAX_DECK_ID_LENGTH
                && vault_address(program.program_id@, vault_authority@, deck_id@) is None,
            Err(ServiceError::Protocol(ProtocolError::DuplicateAccount)) => {
                &&& deck_id@.len() <= crate::MAX_DECK_ID_LENGTH
                &&& vault_address(program.program_id@, vault_authority@, deck_id@)
                    matches Some((va, _))
                    && va == vault_authority@
            },
            Err(ServiceError::Protocol(ProtocolError::AccountNotFound)) => {
                &&& deck_id@.len() <= crate::MAX_DECK_ID_LENGTH
                &&& vault_address(program.program_id@, vault_authority@, deck_id@)
                    matches Some((va, _))
                    && va != vault_authority@
                &&& old(ledger).spec_entry(vault_authority@) is None
            },
            Err(ServiceError::Protocol(ProtocolError::WrongAccountKind)) => {
                &&& deck_id@.len() <= crate::MAX_DECK_ID_LENGTH
                &&& vault_address(program.program_id@, vault_authority@, deck_id@)
                    matches Some((va, _))
                    && va != vault_authority@
                &&& old(ledger).spec_entry(vault_authority@) is Some
                &&& wallet_lamports_at(*old(ledger), vault_authority@) is None
            },
            Err(ServiceError::Protocol(ProtocolError::AccountAlreadyInUse)) => {
                &&& deck_id@.len() <= crate::MAX_DECK_ID_LENGTH
                &&& vault_address(program.program_id@, vault_authority@, deck_id@)
                    matches Some((va, _))
                    && va != vault_authority@
                    && old(ledger).spec_entry(va) is Some
                &&& wallet_lamports_at(*old(ledger), vault_authority@) is Some
            },
            Err(ServiceError::InitializeVault(e)) => {
                ||| (deck_id@.len() > crate::MAX_DECK_ID_LENGTH
                    && e == InitializeVaultError::InvalidDeckId)
                ||| ({
                    &&& deck_id@.len() <= crate::MAX_DECK_ID_LENGTH
                    &&& vault_address(program.program_id@, vault_authority@, deck_id@)
                        matches Some((va, _))
                        && va != vault_authority@
                        && old(ledger).spec_entry(va) is None
                    &&& wallet_lamports_at(*old(ledger), vault_authority@) is Some
                    &&& Some(e) == crate::vault_instructions::initialize_vault_error(
                        wallet_lamports_at(*old(ledger), vault_authority@).unwrap(),
                        deck_id@, initial_deposit_amount, streak_target)
                })
            },
            Err(_) => false,
        },
{
    if deck_id.len() > crate::MAX_DECK_ID_LENGTH {
        return Err(ServiceError::InitializeVault(InitializeVaultError::InvalidDeckId));
    }
    let vault_addr = match derive_vault_address(&program.program_id, vault_authority, &deck_id) {
        Some((address, _nonce)) => address,
        None => {
            return Err(ServiceError::Protocol(ProtocolError::DerivationExhausted));
        },
    };
    if crate::key_eq(&vault_addr, vault_authority) {
        return Err(ServiceError::Protocol(ProtocolError::DuplicateAccount));
    }
    let funds: u64 = match ledger.read_entry(vault_authority) {
        Some(e) => match &e.record {
            Record::Wallet => e.lamports,
            _ => {
                return Err(ServiceError::Protocol(ProtocolError::WrongAccountKind));
            },
        },
        None => {
            return Err(ServiceError::Protocol(ProtocolError::AccountNotFound));
        },
    };
    if ledger.read_entry(&vault_addr).is_some() {
        return Err(ServiceError::Protocol(ProtocolError::AccountAlreadyInUse));
    }
    let vault = match crate::vault_instructions::initialize_vault_handler(
        vault_authority, funds, deck_id, initial_deposit_amount, streak_target, now) {
        Ok(v) => v,
        Err(e) => {
            return Err(ServiceError::InitializeVault(e));
        },
    };
    let wallet = ledger.remove_entry(vault_authority).unwrap();
    ledger.insert_entry(LedgerEntry {
        address: wallet.address,
        lamports: wallet.lamports - initial_deposit_amount,
        record: wallet.record,
    });
    ledger.insert_entry(LedgerEntry {
        address: vault_addr,
        lamports: initial_deposit_amount,
        record: Record::Vault(vault),
    });
    Ok(())
}

/// The inputs on which a check-in succeeds: the vault address derives, a
/// vault bound to `(user, deck_id)` lives there, and the check-in policy
/// accepts the elapsed time and the counter.
pub open spec fn check_in_enabled(
    l: Ledger,
    vault_id: Seq<u8>,
    user: Seq<u8>,
    deck_id: Seq<u8>,
    now: i64,
) -> bool {
    &&& vault_address(vault_id, user, deck_id) is Some
    &&& vault_record_at(l, vault_address(vault_id, user, deck_id).unwrap().0)
        matches Some(v)
        && v.user == user
        && v.deck_id == deck_id
        && crate::vault_instructions::check_in_error(
            v.last_check_in_timestamp, now, v.streak_counter) is None
}

/// Records one check-in on the vault of `(user, deck_id)`: within the
/// accepted window the streak counter grows by exactly one and the last
/// check-in time becomes `now`; on any error nothing changes.
pub fn check_in(
    program: &VaultProgram,
    ledger: &mut Ledger,
    user: &[u8; 32],
    deck_id: &Vec<u8>,
    now: i64,
) -> (r: Result<(), ServiceError>)
    requires
        old(ledger).wf(),
    ensures
        final(ledger).wf(),
        r is Ok <==> check_in_enabled(*old(ledger), program.program_id@, user@, deck_id@, now),
        r is Ok ==> ({
            let va = vault_address(program.program_id@, user@, deck_id@).unwrap().0;
            let e = old(ledger).spec_entry(va).unwrap();
            let v = vault_record_at(*old(ledger), va).unwrap();
            &&& final(ledger).spec_entry(va) == Some(EntryView {
                lamports: e.lamports,
                record: RecordView::Vault(VaultView {
                    last_check_in_timestamp: now,
                    streak_counter: (v.streak_counter + 1) as u8,
                    ..v
                }),
            })
            &&& forall|a: Seq<u8>| a != va
                ==> final(ledger).spec_entry(a) == old(ledger).spec_entry(a)
        }),
        r is Err ==> forall|a: Seq<u8>|
            final(ledger).spec_entry(a) == old(ledger).spec_entry(a),
        match r {
            Ok(_) => true,
            Err(ServiceError::Protocol(ProtocolError::DerivationExhausted)) =>
                vault_address(program.program_id@, user@, deck_id@) is None,
            Err(ServiceError::Protocol(ProtocolError::AccountNotFound)) => {
                &&& vault_address(program.program_id@, user@, deck_id@) matches Some((va, _))
                    && old(ledger).spec_entry(va) is None
            },
            Err(ServiceError::Protocol(ProtocolError::WrongAccountKind)) => {
                &&& vault_address(program.program_id@, user@, deck_id@) matches Some((va, _))
                    && old(ledger).spec_entry(va) is Some
                    && vault_record_at(*old(ledger), va) is None
            },
            Err(ServiceError::Protocol(ProtocolError::OwnerMismatch)) => {
                &&& vault_address(program.program_id@, user@, deck_id@) matches Some((va, _))
                    && vault_record_at(*old(ledger), va) matches Some(v)
                    && v.user != user@
            },
            Err(ServiceError::Protocol(ProtocolError::AddressMismatch)) => {
                &&& vault_address(program.program_id@, user@, deck_id@) matches Some((va, _))
                    && vault_record_at(*old(ledger), va) matches Some(v)
                    && v.user == user@
                    && v.deck_id != deck_id@
            },
            Err(ServiceError::CheckIn(e)) => {
                &&& vault_address(program.program_id@, user@, deck_id@) matches Some((va, _))
                    && vault_record_at(*old(ledger), va) matches Some(v)
                    && v.user == user@
                    && v.deck_id == deck_id@
                    && Some(e) == crate::vault_instructions::check_in_error(
                        v.last_check_in_timestamp, now, v.streak_counter)
            },
            Err(_) => false,
        },
{
    let vault_addr = match derive_vault_address(&program.program_id, user, deck_id) {
        Some((address, _nonce)) => address,
        None => {
            return Err(ServiceError::Protocol(ProtocolError::DerivationExhausted));
        },
    };
    let entry = match ledger.remove_entry(&vault_addr) {
        Some(e) => e,
        None => {
            return Err(ServiceError::Protocol(ProtocolError::AccountNotFound));
        },
    };
    let mut vault = match entry.record {
        Record::Vault(v) => v,
        other => {
            ledger.insert_entry(LedgerEntry {
                address: entry.address,
                lamports: entry.lamports,
                record: other,
            });
            return Err(ServiceError::Protocol(ProtocolError::WrongAccountKind));
        },
    };
    if !crate::key_eq(&vault.user, user) {
        ledger.insert_entry(LedgerEntry {
            address: entry.address,
            lamports: entry.lamports,
            record: Record::Vault(vault),
        });
        return Err(ServiceError::Protocol(ProtocolError::OwnerMismatch));
    }
    if !crate::bytes_eq(&vault.deck_id, deck_id) {
        ledger.insert_entry(LedgerEntry {
            address: entry.address,
            lamports: entry.lamports,
            record: Record::Vault(vault),
        });
        return Err(ServiceError::Protocol(ProtocolError::AddressMismatch));
    }
    match crate::vault_instructions::check_in_handler(&mut vault, now) {
        Ok(()) => {
            ledger.insert_entry(LedgerEntry {
                address: entry.address,
                lamports: entry.lamports,
                record: Record::Vault(vault),
            });
            Ok(())
        },
        Err(e) => {
            ledger.insert_entry(LedgerEntry {
                address: entry.address,
                lamports: entry.lamports,
                record: Record::Vault(vault),
            });
            Err(ServiceError::CheckIn(e))
        },
    }
}

/// The inputs on which a withdrawal succeeds: the declared issuer program
/// is the real one, both addresses derive and do not alias, the vault is
/// bound to `(user, deck_id)` and its streak counter has reached the
/// target, the user's wallet can absorb the vault's balance, and the
/// pre-allocated permit is bound to `user` and still unpopulated.
pub open spec fn withdraw_enabled(
    l: Ledger,
    vault_id: Seq<u8>,
    declared_minter: Seq<u8>,
    minter_id: Seq<u8>,
    user: Seq<u8>,
    deck_id: Seq<u8>,
) -> bool {
    &&& declared_minter == minter_id
    &&& vault_address(vault_id, user, deck_id) is Some
    &&& mint_permit_address(minter_id, user, deck_id) is Some
    &&& ({
        let va = vault_address(vault_id, user, deck_id).unwrap().0;
        let pa = mint_permit_address(minter_id, user, deck_id).unwrap().0;
        &&& va != user
        &&& pa != user
        &&& va != pa
        &&& vault_record_at(l, va) matches Some(v)
            && v.user == user
            && v.deck_id == deck_id
            && v.streak_counter >= v.streak_target
        &&& wallet_lamports_at(l, user) is Some
        &&& wallet_lamports_at(l, user).unwrap() + l.spec_entry(va).unwrap().lamports
            <= u64::MAX
        &&& permit_record_at(l, pa) matches Some(p) && p.user == user
            && permit_unpopulated(p)
    })
}

/// The error a withdrawal reports, in the order the checks are made, or
/// `None` when the withdrawal goes through.
pub open spec fn withdraw_error(
    l: Ledger,
    vault_id: Seq<u8>,
    declared_minter: Seq<u8>,
    minter_id: Seq<u8>,
    user: Seq<u8>,
    deck_id: Seq<u8>,
) -> Option<ServiceError> {
    if declared_minter != minter_id {
        Some(ServiceError::Protocol(ProtocolError::WrongProgram))
    } else if vault_address(vault_id, user, deck_id) is None {
        Some(ServiceError::Protocol(ProtocolError::DerivationExhausted))
    } else if mint_permit_address(minter_id, user, deck_id) is None {
        Some(ServiceError::Protocol(ProtocolError::DerivationExhausted))
    } else {
        let va = vault_address(vault_id, user, deck_id).unwrap().0;
        let pa = mint_permit_address(minter_id, user, deck_id).unwrap().0;
        if va == user || pa == user || va == pa {
            Some(ServiceError::Protocol(ProtocolError::DuplicateAccount))
        } else if l.spec_entry(va) is None {
            Some(ServiceError::Protocol(ProtocolError::AccountNotFound))
        } else if vault_record_at(l, va) is None {
            Some(ServiceError::Protocol(ProtocolError::WrongAccountKind))
        } else {
            let v = vault_record_at(l, va).unwrap();
            if v.user != user {
                Some(ServiceError::Protocol(ProtocolError::OwnerMismatch))
            } else if v.deck_id != deck_id {
                Some(ServiceError::Protocol(ProtocolError::AddressMismatch))
            } else if v.streak_counter < v.streak_target {
                Some(ServiceError::Withdraw(WithdrawError::StreakTargetNotMet))
            } else if l.spec_entry(user) is None {
                Some(ServiceError::Protocol(ProtocolError::AccountNotFound))
            } else if wallet_lamports_at(l, user) is None {
                Some(ServiceError::Protocol(ProtocolError::WrongAccountKind))
            } else if wallet_lamports_at(l, user).unwrap()
                + l.spec_entry(va).unwrap().lamports > u64::MAX {
                Some(ServiceError::Withdraw(WithdrawError::Overflow))
            } else if l.spec_entry(pa) is None {
                Some(ServiceError::Protocol(ProtocolError::AccountNotFound))
            } else if permit_record_at(l, pa) is None {
                Some(ServiceError::Protocol(ProtocolError::WrongAccountKind))
            } else if permit_record_at(l, pa).unwrap().user != user {
                Some(ServiceError::MintCredential(MintCredentialError::InvalidMintPermit))
            } else if !permit_unpopulated(permit_record_at(l, pa).unwrap()) {
                Some(ServiceError::Protocol(ProtocolError::AccountAlreadyInUse))
            } else {
                None
            }
        }
    }
}

/// Withdraws the vault of `(user, deck_id)`: once the streak counter has
/// reached the target, the whole balance the vault holds — the deposit,
/// and any storage deposit with it — returns to the user's wallet, the
/// vault is destroyed, and, atomically within the same call, the issuer
/// service is invoked to populate the pre-allocated permit of
/// `(user, deck_id)`. The permit account was allocated beforehand by
/// `initialize_mint_permit`; this call only populates it. If any part
/// fails — the permit invocation included — nothing changes.
pub fn withdraw(
    program: &VaultProgram,
    minter: &NftMinterProgram,
    ledger: &mut Ledger,
    user: &[u8; 32],
    deck_id: &Vec<u8>,
    now: i64,
) -> (r: Result<(), ServiceError>)
    requires
        old(ledger).wf(),
    ensures
        final(ledger).wf(),
        r is Ok <==> withdraw_enabled(*old(ledger), program.program_id@,
            program.nft_minter_program@, minter.program_id@, user@, deck_id@),
        r is Ok ==> ({
            let va = vault_address(program.program_id@, user@, deck_id@).unwrap().0;
            let pa = mint_permit_address(minter.program_id@, user@, deck_id@).unwrap().0;
            let funds = wallet_lamports_at(*old(ledger), user@).unwrap();
            let vault_balance = old(ledger).spec_entry(va).unwrap().lamports;
            &&& final(ledger).spec_entry(va) is None
            &&& final(ledger).spec_entry(user@) == Some(EntryView {
                lamports: (funds + vault_balance) as u64,
                record: RecordView::Wallet,
            })
            &&& final(ledger).spec_entry(pa) == Some(EntryView {
                lamports: old(ledger).spec_entry(pa).unwrap().lamports,
                record: RecordView::Permit(PermitView {
                    user: user@,
                    deck_id: deck_id@,
                    creation_timestamp: now,
                }),
            })
            &&& forall|a: Seq<u8>| a != va && a != user@ && a != pa
                ==> final(ledger).spec_entry(a) == old(ledger).spec_entry(a)
        }),
        r is Err ==> forall|a: Seq<u8>|
            final(ledger).spec_entry(a) == old(ledger).spec_entry(a),
        r matches Err(e) ==> Some(e) == withdraw_error(*old(ledger), program.program_id@,
            program.nft_minter_program@, minter.program_id@, user@, deck_id@),
{
    if !crate::key_eq(&program.nft_minter_program, &minter.program_id) {
        return Err(ServiceError::Protocol(ProtocolError::WrongProgram));
    }
    let vault_addr = match derive_vault_address(&program.program_id, user, deck_id) {
        Some((address, _nonce)) => address,
        None => {
            return Err(ServiceError::Protocol(ProtocolError::DerivationExhausted));
        },
    };
    let permit_addr = match derive_mint_permit_address(&minter.program_id, user, deck_id) {
        Some((address, _nonce)) => address,
        None => {
            return Err(ServiceError::Protocol(ProtocolError::DerivationExhausted));
        },
    };
    if crate::key_eq(&vault_addr, user) || crate::key_eq(&permit_addr, user)
        || crate::key_eq(&vault_addr, &permit_addr) {
        return Err(ServiceError::Protocol(ProtocolError::DuplicateAccount));
    }
    let vault_balance: u64 = match ledger.read_entry(&vault_addr) {
        Some(e) => match &e.record {
            Record::Vault(v) => {
                if !crate::key_eq(&v.user, user) {
                    return Err(ServiceError::Protocol(ProtocolError::OwnerMismatch));
                }
                if !crate::bytes_eq(&v.deck_id, deck_id) {
                    return Err(ServiceError::Protocol(ProtocolError::AddressMismatch));
                }
                if let Err(guard) = crate::vault_instructions::withdraw_handler(v) {
                    return Err(ServiceError::Withdraw(guard));
                }
                e.lamports
            },
            _ => {
                return Err(ServiceError::Protocol(ProtocolError::WrongAccountKind));
            },
        },
        None => {
            return Err(ServiceError::Protocol(ProtocolError::AccountNotFound));
        },
    };
    let funds: u64 = match ledger.read_entry(user) {
        Some(e) => match &e.record {
            Record::Wallet => e.lamports,
            _ => {
                return Err(ServiceError::Protocol(ProtocolError::WrongAccountKind));
            },
        },
        None => {
            return Err(ServiceError::Protocol(ProtocolError::AccountNotFound));
        },
    };
    let returned: u64 = match funds.checked_add(vault_balance) {
        Some(total) => total,
        None => {
            return Err(ServiceError::Withdraw(WithdrawError::Overflow));
        },
    };
    let mut accounts: Vec<AccountMeta> = Vec::new();
    accounts.push(AccountMeta { address: permit_addr, is_signer: false, is_writable: true });
    accounts.push(AccountMeta { address: *user, is_signer: true, is_writable: true });
    let ix = Instruction {
        program_id: program.nft_minter_program,
        accounts,
        data: InstructionData::CreateMintPermit { deck_id: crate::copy_bytes(deck_id) },
    };
    if let Err(e) = invoke(minter, ledger, ix, now) {
        return Err(e);
    }
    let _closed = ledger.remove_entry(&vault_addr);
    let wallet = ledger.remove_entry(user).unwrap();
    ledger.insert_entry(LedgerEntry {
        address: wallet.address,
        lamports: returned,
        record: wallet.record,
    });
    Ok(())
}

/// The inputs on which credential minting succeeds: both addresses derive
/// and do not alias, the populated permit of `(user, deck_id)` is bound
/// to `user`, the user's wallet can absorb the permit's balance, and the
/// credential's derived address is free.
pub open spec fn mint_credential_enabled(
    l: Ledger,
    minter_id: Seq<u8>,
    user: Seq<u8>,
    deck_id: Seq<u8>,
) -> bool {
    &&& mint_permit_address(minter_id, user, deck_id) is Some
    &&& asset_address(minter_id, user, deck_id) is Some
    &&& ({
        let pa = mint_permit_address(minter_id, user, deck_id).unwrap().0;
        let aa = asset_address(minter_id, user, deck_id).unwrap().0;
        &&& pa != user
        &&& aa != user
        &&& pa != aa
        &&& permit_record_at(l, pa) matches Some(p)
            && p.deck_id == deck_id
            && p.user == user
        &&& wallet_lamports_at(l, user) is Some
        &&& wallet_lamports_at(l, user).unwrap() + l.spec_entry(pa).unwrap().lamports
            <= u64::MAX
        &&& l.spec_entry(aa) is None
    })
}

/// The error credential minting reports, in the order the checks are
/// made, or `None` when the minting goes through.
pub open spec fn mint_credential_error(
    l: Ledger,
    minter_id: Seq<u8>,
    user: Seq<u8>,
    deck_id: Seq<u8>,
) -> Option<ServiceError> {
    if mint_permit_address(minter_id, user, deck_id) is None {
        Some(ServiceError::Protocol(ProtocolError::DerivationExhausted))
    } else if asset_address(minter_id, user, deck_id) is None {
        Some(ServiceError::Protocol(ProtocolError::DerivationExhausted))
    } else {
        let pa = mint_permit_address(minter_id, user, deck_id).unwrap().0;
        let aa = asset_address(minter_id, user, deck_id).unwrap().0;
        if pa == user || aa == user || pa == aa {
            Some(ServiceError::Protocol(ProtocolError::DuplicateAccount))
        } else if l.spec_entry(pa) is None {
            Some(ServiceError::Protocol(ProtocolError::AccountNotFound))
        } else if permit_record_at(l, pa) is None {
            Some(ServiceError::Protocol(ProtocolError::WrongAccountKind))
        } else {
            let p = permit_record_at(l, pa).unwrap();
            if p.deck_id != deck_id {
                Some(ServiceError::Protocol(ProtocolError::AddressMismatch))
            } else if p.user != user {
                Some(ServiceError::MintCredential(MintCredentialError::InvalidMintPermit))
            } else if l.spec_entry(user) is None {
                Some(ServiceError::Protocol(ProtocolError::AccountNotFound))
            } else if wallet_lamports_at(l, user) is None {
                Some(ServiceError::Protocol(ProtocolError::WrongAccountKind))
            } else if wallet_lamports_at(l, user).unwrap()
                + l.spec_entry(pa).unwrap().lamports > u64::MAX {
                Some(ServiceError::Arithmetic(ArithmeticError::Overflow))
            } else if l.spec_entry(aa) is Some {
                Some(ServiceError::Protocol(ProtocolError::AccountAlreadyInUse))
            } else {
                None
            }
        }
    }
}

/// Consumes the permit of `(user, deck_id)` and mints the credential it
/// authorizes: the permit's storage is destroyed and its balance returned
/// to the owner, and a credential owned by `user` — named after the deck,
/// at an address derived from `(user, deck_id)` — is created. The call is
/// exactly-once: a second attempt fails because the permit no longer
/// exists. If any part fails, nothing changes.
pub fn mint_credential(
    minter: &NftMinterProgram,
    ledger: &mut Ledger,
    user: &[u8; 32],
    deck_id: &Vec<u8>,
) -> (r: Result<(), ServiceError>)
    requires
        old(ledger).wf(),
    ensures
        final(ledger).wf(),
        r is Ok <==> mint_credential_enabled(*old(ledger), minter.program_id@, user@, deck_id@),
        r is Ok ==> ({
            let pa = mint_permit_address(minter.program_id@, user@, deck_id@).unwrap().0;
            let aa = asset_address(minter.program_id@, user@, deck_id@).unwrap().0;
            let funds = wallet_lamports_at(*old(ledger), user@).unwrap();
            let permit_balance = old(ledger).spec_entry(pa).unwrap().lamports;
            &&& final(ledger).spec_entry(pa) is None
            &&& final(ledger).spec_entry(user@) == Some(EntryView {
                lamports: (funds + permit_balance) as u64,
                record: RecordView::Wallet,
            })
            &&& final(ledger).spec_entry(aa) == Some(EntryView {
                lamports: 0u64,
                record: RecordView::Credential(CredentialView {
                    owner: user@,
                    name: credential_name(deck_id@),
                    uri: credential_uri(),
                }),
            })
            &&& forall|a: Seq<u8>| a != pa && a != user@ && a != aa
                ==> final(ledger).spec_entry(a) == old(ledger).spec_entry(a)
        }),
        r is Err ==> *final(ledger) == *old(ledger),
        r matches Err(e) ==> Some(e) == mint_credential_error(*old(ledger), minter.program_id@,
            user@, deck_id@),
{
    let permit_addr = match derive_mint_permit_address(&minter.program_id, user, deck_id) {
        Some((address, _nonce)) => address,
        None => {
            return Err(ServiceError::Protocol(ProtocolError::DerivationExhausted));
        },
    };
    let asset_addr = match derive_asset_address(&minter.program_id, user, deck_id) {
        Some((address, _nonce)) => address,
        None => {
            return Err(ServiceError::Protocol(ProtocolError::DerivationExhausted));
        },
    };
    if crate::key_eq(&permit_addr, user) || crate::key_eq(&asset_addr, user)
        || crate::key_eq(&permit_addr, &asset_addr) {
        return Err(ServiceError::Protocol(ProtocolError::DuplicateAccount));
    }
    let (credential, permit_balance) = match ledger.read_entry(&permit_addr) {
        Some(e) => match &e.record {
            Record::Permit(p) => {
                if !crate::bytes_eq(&p.deck_id, deck_id) {
                    return Err(ServiceError::Protocol(ProtocolError::AddressMismatch));
                }
                match mint_credential_handler(p, user, deck_id) {
                    Ok(c) => (c, e.lamports),
                    Err(e) => {
                        return Err(ServiceError::MintCredential(e));
                    },
                }
            },
            _ => {
                return Err(ServiceError::Protocol(ProtocolError::WrongAccountKind));
            },
        },
        None => {
            return Err(ServiceError::Protocol(ProtocolError::AccountNotFound));
        },
    };
    let funds: u64 = match ledger.read_entry(user) {
        Some(e) => match &e.record {
            Record::Wallet => e.lamports,
            _ => {
                return Err(ServiceError::Protocol(ProtocolError::WrongAccountKind));
            },
        },
        None => {
            return Err(ServiceError::Protocol(ProtocolError::AccountNotFound));
        },
    };
    let returned: u64 = match funds.checked_add(permit_balance) {
        Some(total) => total,
        None => {
            return Err(ServiceError::Arithmetic(ArithmeticError::Overflow));
        },
    };
    if ledger.read_entry(&asset_addr).is_some() {
        return Err(ServiceError::Protocol(ProtocolError::AccountAlreadyInUse));
    }
    let _consumed = ledger.remove_entry(&permit_addr);
    let wallet = ledger.remove_entry(user).unwrap();
    ledger.insert_entry(LedgerEntry {
        address: wallet.address,
        lamports: returned,
        record: wallet.record,
    });
    ledger.insert_entry(LedgerEntry {
        address: asset_addr,
        lamports: 0,
        record: Record::Credential(credential),
    });
    Ok(())
}

} // verus!
