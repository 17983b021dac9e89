use srs_vault::errors::{ArithmeticError, MintCredentialError, ProtocolError, ServiceError};
use srs_vault::ledger::{Ledger, LedgerEntry, Record};
use srs_vault::pda::{derive_asset_address, derive_mint_permit_address, derive_vault_address};
use srs_vault::service::{
    create_mint_permit, initialize_mint_permit, invoke, mint_credential, AccountMeta, Instruction,
    InstructionData, NftMinterProgram,
};
use srs_vault::state::MintPermit;

const T0: i64 = 1_700_000_000;

fn minter_program() -> NftMinterProgram {
    NftMinterProgram { program_id: [2; 32] }
}

fn user_key() -> [u8; 32] {
    [3; 32]
}

fn deck() -> Vec<u8> {
    b"algebra".to_vec()
}

fn permit_addr_for(user: &[u8; 32]) -> [u8; 32] {
    let (address, _nonce) =
        derive_mint_permit_address(&minter_program().program_id, user, &deck()).unwrap();
    address
}

fn funded_ledger() -> Ledger {
    let mut ledger = Ledger::new();
    ledger.insert_entry(LedgerEntry {
        address: user_key(),
        lamports: 5000,
        record: Record::Wallet,
    });
    ledger
}

fn read_permit(ledger: &Ledger, addr: &[u8; 32]) -> Option<MintPermit> {
    match ledger.read_entry(addr) {
        Some(e) => match &e.record {
            Record::Permit(p) => Some(MintPermit {
                user: p.user,
                deck_id: p.deck_id.clone(),
                creation_timestamp: p.creation_timestamp,
            }),
            _ => None,
        },
        None => None,
    }
}

#[test]
fn initialize_mint_permit_allocates_a_zeroed_record() {
    let minter = minter_program();
    let mut ledger = funded_ledger();
    let r = initialize_mint_permit(&minter, &mut ledger, &user_key(), &user_key(), &deck());
    assert_eq!(r, Ok(()));
    let p = read_permit(&ledger, &permit_addr_for(&user_key())).unwrap();
    assert_eq!(p.user, user_key());
    assert!(p.deck_id.is_empty());
    assert_eq!(p.creation_timestamp, 0);
}

#[test]
fn initialize_mint_permit_allocates_only_once() {
    let minter = minter_program();
    let mut ledger = funded_ledger();
    initialize_mint_permit(&minter, &mut ledger, &user_key(), &user_key(), &deck()).unwrap();
    let r = initialize_mint_permit(&minter, &mut ledger, &user_key(), &user_key(), &deck());
    assert_eq!(r, Err(ServiceError::Protocol(ProtocolError::AccountAlreadyInUse)));
}

#[test]
fn create_mint_permit_populates_the_record() {
    let minter = minter_program();
    let mut ledger = funded_ledger();
    initialize_mint_permit(&minter, &mut ledger, &user_key(), &user_key(), &deck()).unwrap();
    let r = create_mint_permit(&minter, &mut ledger, &user_key(), deck(), T0);
    assert_eq!(r, Ok(()));
    let p = read_permit(&ledger, &permit_addr_for(&user_key())).unwrap();
    assert_eq!(p.user, user_key());
    assert_eq!(p.deck_id, deck());
    assert_eq!(p.creation_timestamp, T0);
}

#[test]
fn create_mint_permit_needs_an_allocated_record() {
    let minter = minter_program();
    let mut ledger = funded_ledger();
    let r = create_mint_permit(&minter, &mut ledger, &user_key(), deck(), T0);
    assert_eq!(r, Err(ServiceError::Protocol(ProtocolError::AccountNotFound)));
}

#[test]
fn create_mint_permit_rejects_a_foreign_permit() {
    let minter = minter_program();
    let mut ledger = funded_ledger();
    // A record at the user's derived address, but bound to someone else.
    ledger.insert_entry(LedgerEntry {
        address: permit_addr_for(&user_key()),
        lamports: 0,
        record: Record::Permit(MintPermit {
            user: [9; 32],
            deck_id: Vec::new(),
            creation_timestamp: 0,
        }),
    });
    let r = create_mint_permit(&minter, &mut ledger, &user_key(), deck(), T0);
    assert_eq!(r, Err(ServiceError::MintCredential(MintCredentialError::InvalidMintPermit)));
}

fn well_formed_instruction() -> Instruction {
    Instruction {
        program_id: minter_program().program_id,
        accounts: vec![
            AccountMeta {
                address: permit_addr_for(&user_key()),
                is_signer: false,
                is_writable: true,
            },
            AccountMeta { address: user_key(), is_signer: true, is_writable: true },
        ],
        data: InstructionData::CreateMintPermit { deck_id: deck() },
    }
}

#[test]
fn invoke_populates_the_permit() {
    let minter = minter_program();
    let mut ledger = funded_ledger();
    initialize_mint_permit(&minter, &mut ledger, &user_key(), &user_key(), &deck()).unwrap();
    assert_eq!(invoke(&minter, &mut ledger, well_formed_instruction(), T0), Ok(()));
    let p = read_permit(&ledger, &permit_addr_for(&user_key())).unwrap();
    assert_eq!(p.deck_id, deck());
    assert_eq!(p.creation_timestamp, T0);
}

#[test]
fn invoke_rejects_a_foreign_target_program() {
    let minter = minter_program();
    let mut ledger = funded_ledger();
    let mut ix = well_formed_instruction();
    ix.program_id = [7; 32];
    let r = invoke(&minter, &mut ledger, ix, T0);
    assert_eq!(r, Err(ServiceError::Protocol(ProtocolError::WrongProgram)));
}

#[test]
fn invoke_rejects_a_short_account_set() {
    let minter = minter_program();
    let mut ledger = funded_ledger();
    let mut ix = well_formed_instruction();
    ix.accounts.pop();
    let r = invoke(&minter, &mut ledger, ix, T0);
    assert_eq!(r, Err(ServiceError::Protocol(ProtocolError::MalformedAccountSet)));
}

#[test]
fn invoke_rejects_a_missing_signature() {
    let minter = minter_program();
    let mut ledger = funded_ledger();
    let mut ix = well_formed_instruction();
    ix.accounts[1].is_signer = false;
    let r = invoke(&minter, &mut ledger, ix, T0);
    assert_eq!(r, Err(ServiceError::Protocol(ProtocolError::MissingSignature)));
}

#[test]
fn invoke_rejects_a_read_only_permit_account() {
    let minter = minter_program();
    let mut ledger = funded_ledger();
    let mut ix = well_formed_instruction();
    ix.accounts[0].is_writable = false;
    let r = invoke(&minter, &mut ledger, ix, T0);
    assert_eq!(r, Err(ServiceError::Protocol(ProtocolError::MalformedAccountSet)));
}

#[test]
fn invoke_rejects_a_wrong_permit_address() {
    let minter = minter_program();
    let mut ledger = funded_ledger();
    let mut ix = well_formed_instruction();
    ix.accounts[0].address = [6; 32];
    let r = invoke(&minter, &mut ledger, ix, T0);
    assert_eq!(r, Err(ServiceError::Protocol(ProtocolError::AddressMismatch)));
}

#[test]
fn mint_credential_issues_the_named_credential() {
    let minter = minter_program();
    let mut ledger = funded_ledger();
    initialize_mint_permit(&minter, &mut ledger, &user_key(), &user_key(), &deck()).unwrap();
    create_mint_permit(&minter, &mut ledger, &user_key(), deck(), T0).unwrap();
    assert_eq!(mint_credential(&minter, &mut ledger, &user_key(), &deck()), Ok(()));

    let (asset, _nonce) =
        derive_asset_address(&minter.program_id, &user_key(), &deck()).unwrap();
    let entry = ledger.read_entry(&asset).unwrap();
    match &entry.record {
        Record::Credential(c) => {
            assert_eq!(c.owner, user_key());
            assert_eq!(c.name, b"SRS Credential: algebra".to_vec());
            assert_eq!(c.uri, b"https://example.com/metadata".to_vec());
        },
        _ => panic!("expected a credential record"),
    }
    // The permit's storage is gone.
    assert!(ledger.read_entry(&permit_addr_for(&user_key())).is_none());
}

#[test]
fn mint_credential_rejects_a_foreign_permit() {
    let minter = minter_program();
    let mut ledger = funded_ledger();
    ledger.insert_entry(LedgerEntry {
        address: permit_addr_for(&user_key()),
        lamports: 0,
        record: Record::Permit(MintPermit {
            user: [9; 32],
            deck_id: deck(),
            creation_timestamp: T0,
        }),
    });
    let r = mint_credential(&minter, &mut ledger, &user_key(), &deck());
    assert_eq!(r, Err(ServiceError::MintCredential(MintCredentialError::InvalidMintPermit)));
    // Nothing was consumed.
    assert!(ledger.read_entry(&permit_addr_for(&user_key())).is_some());
}

#[test]
fn derived_addresses_are_deterministic_and_namespaced() {
    let minter = minter_program();
    let vault_id: [u8; 32] = [1; 32];
    let (vault_a, vault_nonce) =
        derive_vault_address(&vault_id, &user_key(), &deck()).unwrap();
    let (vault_b, nonce_b) = derive_vault_address(&vault_id, &user_key(), &deck()).unwrap();
    assert_eq!(vault_a, vault_b);
    assert_eq!(vault_nonce, nonce_b);

    // Distinct namespaces for the same (owner, deck) pair never collide.
    let (permit, _) =
        derive_mint_permit_address(&minter.program_id, &user_key(), &deck()).unwrap();
    let (asset, _) = derive_asset_address(&minter.program_id, &user_key(), &deck()).unwrap();
    let (vault_same_program, _) =
        derive_vault_address(&minter.program_id, &user_key(), &deck()).unwrap();
    assert_ne!(permit, asset);
    assert_ne!(permit, vault_same_program);
    assert_ne!(asset, vault_same_program);

    // The derivation actually computes something new.
    assert_ne!(vault_a, user_key());
    assert_ne!(vault_a, vault_id);

    // Another deck or another program moves the address.
    let (other_deck, _) =
        derive_vault_address(&vault_id, &user_key(), &b"geometry".to_vec()).unwrap();
    assert_ne!(vault_a, other_deck);
    let (other_program, _) =
        derive_vault_address(&minter.program_id, &user_key(), &deck()).unwrap();
    assert_ne!(vault_a, other_program);
}

#[test]
fn mint_credential_reports_balance_overflow() {
    let minter = minter_program();
    let mut ledger = Ledger::new();
    ledger.insert_entry(LedgerEntry {
        address: user_key(),
        lamports: u64::MAX,
        record: Record::Wallet,
    });
    // A populated permit whose storage deposit cannot be returned.
    ledger.insert_entry(LedgerEntry {
        address: permit_addr_for(&user_key()),
        lamports: 1,
        record: Record::Permit(MintPermit {
            user: user_key(),
            deck_id: deck(),
            creation_timestamp: T0,
        }),
    });
    let r = mint_credential(&minter, &mut ledger, &user_key(), &deck());
    assert_eq!(r, Err(ServiceError::Arithmetic(ArithmeticError::Overflow)));
    assert!(ledger.read_entry(&permit_addr_for(&user_key())).is_some());
}

#[test]
fn create_mint_permit_populates_only_once() {
    let minter = minter_program();
    let mut ledger = funded_ledger();
    initialize_mint_permit(&minter, &mut ledger, &user_key(), &user_key(), &deck()).unwrap();
    create_mint_permit(&minter, &mut ledger, &user_key(), deck(), T0).unwrap();
    let r = create_mint_permit(&minter, &mut ledger, &user_key(), deck(), T0 + 5);
    assert_eq!(r, Err(ServiceError::Protocol(ProtocolError::AccountAlreadyInUse)));
    // The recorded creation time stands; nothing was overwritten.
    let p = read_permit(&ledger, &permit_addr_for(&user_key())).unwrap();
    assert_eq!(p.creation_timestamp, T0);
    assert_eq!(p.deck_id, deck());
}

#[test]
fn invoke_populates_a_permit_only_once() {
    let minter = minter_program();
    let mut ledger = funded_ledger();
    initialize_mint_permit(&minter, &mut ledger, &user_key(), &user_key(), &deck()).unwrap();
    assert_eq!(invoke(&minter, &mut ledger, well_formed_instruction(), T0), Ok(()));
    let r = invoke(&minter, &mut ledger, well_formed_instruction(), T0 + 5);
    assert_eq!(r, Err(ServiceError::Protocol(ProtocolError::AccountAlreadyInUse)));
    let p = read_permit(&ledger, &permit_addr_for(&user_key())).unwrap();
    assert_eq!(p.creation_timestamp, T0);
}
