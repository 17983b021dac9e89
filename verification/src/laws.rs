use vstd::prelude::*;
use crate::ledger::Ledger;
use crate::pda::{mint_permit_address, vault_address};
use crate::service::{
    create_mint_permit_enabled, mint_credential_enabled, permit_record_at, permit_unpopulated,
    vault_record_at, withdraw_enabled,
};

verus! {

/// A withdrawal is never enabled while the vault's streak counter is
/// below the streak target: `withdraw` fails on every such state.
pub proof fn lemma_withdraw_requires_target(
    l: Ledger,
    vault_id: Seq<u8>,
    declared_minter: Seq<u8>,
    minter_id: Seq<u8>,
    user: Seq<u8>,
    deck_id: Seq<u8>,
)
    requires
        vault_address(vault_id, user, deck_id) matches Some((va, _))
            && vault_record_at(l, va) matches Some(v)
            && v.streak_counter < v.streak_target,
    ensures
        !withdraw_enabled(l, vault_id, declared_minter, minter_id, user, deck_id),
{
}

/// A withdrawal succeeds at most once: once the vault's account is gone —
/// as it is after every successful withdrawal — no further withdrawal of
/// the same `(user, deck_id)` pair is enabled.
pub proof fn lemma_withdraw_at_most_once(
    l: Ledger,
    vault_id: Seq<u8>,
    declared_minter: Seq<u8>,
    minter_id: Seq<u8>,
    user: Seq<u8>,
    deck_id: Seq<u8>,
)
    requires
        vault_address(vault_id, user, deck_id) matches Some((va, _))
            && l.spec_entry(va) is None,
    ensures
        !withdraw_enabled(l, vault_id, declared_minter, minter_id, user, deck_id),
{
}

/// A permit is populated at most once: once the record carries a deck
/// identifier or a creation time — as it does after every successful
/// population — no further population of the same `(user, deck_id)` pair
/// is enabled.
pub proof fn lemma_create_mint_permit_at_most_once(
    l: Ledger,
    minter_id: Seq<u8>,
    user: Seq<u8>,
    deck_id: Seq<u8>,
)
    requires
        mint_permit_address(minter_id, user, deck_id) matches Some((pa, _))
            && permit_record_at(l, pa) matches Some(p)
            && !permit_unpopulated(p),
    ensures
        !create_mint_permit_enabled(l, minter_id, user, deck_id),
{
}

/// A permit is consumed at most once: once the permit's account is gone —
/// as it is after every successful minting — no further minting for the
/// same `(user, deck_id)` pair is enabled, because the record no longer
/// exists.
pub proof fn lemma_mint_credential_at_most_once(
    l: Ledger,
    minter_id: Seq<u8>,
    user: Seq<u8>,
    deck_id: Seq<u8>,
)
    requires
        mint_permit_address(minter_id, user, deck_id) matches Some((pa, _))
            && l.spec_entry(pa) is None,
    ensures
        !mint_credential_enabled(l, minter_id, user, deck_id),
{
}

} // verus!
