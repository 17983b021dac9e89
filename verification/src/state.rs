use vstd::prelude::*;
use crate::deck_id_valid;
use crate::MAX_DECK_ID_LENGTH;

verus! {

/// The escrow record of one (user, deck) pair: a deposit held until the
/// streak target is reached, together with the check-in bookkeeping.
pub struct VaultAccount {
    /// The owner's identity (a 32-byte account address).
    pub user: [u8; 32],
    /// The deck identifier, at most `MAX_DECK_ID_LENGTH` bytes.
    pub deck_id: Vec<u8>,
    /// The amount moved into the vault when it was created.
    pub initial_deposit_amount: u64,
    /// The timestamp of creation.
    pub start_timestamp: i64,
    /// The timestamp of the most recent successful check-in.
    pub last_check_in_timestamp: i64,
    /// The streak length that permits withdrawal.
    pub streak_target: u8,
    /// The current streak length; 1 immediately after creation.
    pub streak_counter: u8,
}

/// The mathematical content of a vault record: its byte strings as
/// sequences, everything else as it is stored.
pub ghost struct VaultView {
    pub user: Seq<u8>,
    pub deck_id: Seq<u8>,
    pub initial_deposit_amount: u64,
    pub start_timestamp: i64,
    pub last_check_in_timestamp: i64,
    pub streak_target: u8,
    pub streak_counter: u8,
}

impl VaultView {
    /// What every live vault satisfies: a valid deck identifier, a positive
    /// deposit and target, a counter of at least one, and a last check-in
    /// no earlier than creation.
    pub open spec fn wf(self) -> bool {
        &&& deck_id_valid(self.deck_id)
        &&& self.initial_deposit_amount > 0
        &&& self.streak_target > 0
        &&& self.streak_counter >= 1
        &&& self.start_timestamp <= self.last_check_in_timestamp
    }
}

impl View for VaultAccount {
    type V = VaultView;

    open spec fn view(&self) -> VaultView {
        VaultView {
            user: self.user@,
            deck_id: self.deck_id@,
            initial_deposit_amount: self.initial_deposit_amount,
            start_timestamp: self.start_timestamp,
            last_check_in_timestamp: self.last_check_in_timestamp,
            streak_target: self.streak_target,
            streak_counter: self.streak_counter,
        }
    }
}

impl VaultAccount {
    /// What every live vault satisfies; see `VaultView::wf`.
    pub open spec fn wf(&self) -> bool {
        self@.wf()
    }
}

/// A one-time authorization record enabling credential issuance for one
/// (user, deck) pair. Allocated once, populated once, consumed once.
pub struct MintPermit {
    /// The owner's identity (a 32-byte account address).
    pub user: [u8; 32],
    /// The deck identifier; empty until the permit is populated.
    pub deck_id: Vec<u8>,
    /// When the permit was populated; zero until then.
    pub creation_timestamp: i64,
}

/// The mathematical content of a permit record.
pub ghost struct PermitView {
    pub user: Seq<u8>,
    pub deck_id: Seq<u8>,
    pub creation_timestamp: i64,
}

impl PermitView {
    /// What every stored permit satisfies: the deck identifier fits the
    /// stored bound (it is empty until the permit is populated).
    pub open spec fn wf(self) -> bool {
        self.deck_id.len() <= MAX_DECK_ID_LENGTH
    }
}

impl View for MintPermit {
    type V = PermitView;

    open spec fn view(&self) -> PermitView {
        PermitView {
            user: self.user@,
            deck_id: self.deck_id@,
            creation_timestamp: self.creation_timestamp,
        }
    }
}

impl MintPermit {
    /// What every stored permit satisfies; see `PermitView::wf`.
    pub open spec fn wf(&self) -> bool {
        self@.wf()
    }
}

/// A non-fungible credential: the uniquely addressed record proving that
/// the streak target of one deck was met, carrying its attributes.
pub struct CredentialAsset {
    /// The identity the credential is issued to.
    pub owner: [u8; 32],
    /// The display name, carrying the deck identifier.
    pub name: Vec<u8>,
    /// The metadata location.
    pub uri: Vec<u8>,
}

/// The mathematical content of a credential record.
pub ghost struct CredentialView {
    pub owner: Seq<u8>,
    pub name: Seq<u8>,
    pub uri: Seq<u8>,
}

impl View for CredentialAsset {
    type V = CredentialView;

    open spec fn view(&self) -> CredentialView {
        CredentialView { owner: self.owner@, name: self.name@, uri: self.uri@ }
    }
}

} // verus!
