//! A time-locked incentive vault paired with a one-time credential
//! issuer, modeled as two services over an explicit, account-addressed
//! ledger.
//!
//! A user deposits funds against a study-deck identifier, grows a streak
//! by checking in once within a bounded daily window, and on reaching
//! the streak target withdraws the deposit while, atomically in the same
//! call, the issuer service populates a one-time mint permit. Consuming
//! the permit mints a uniquely addressed credential. Account addresses
//! are derived, never stored: any party can recompute them from the
//! namespace, the owner and the deck identifier.
//!
//! Every state transition is all-or-nothing: an invocation that fails
//! leaves the ledger exactly as it found it.

use vstd::prelude::*;

pub mod codec;
pub mod errors;
pub mod laws;
pub mod ledger;
pub mod pda;
pub mod permit_instructions;
pub mod service;
pub mod state;
pub mod vault_instructions;

verus! {

/// Upper bound, in bytes, on a deck identifier.
pub const MAX_DECK_ID_LENGTH: usize = 32;

/// A deck identifier is valid when it is non-empty and within the stored bound.
pub open spec fn deck_id_valid(deck_id: Seq<u8>) -> bool {
    0 < deck_id.len() <= MAX_DECK_ID_LENGTH
}

/// Checks a deck identifier against the stored bound.
pub fn check_deck_id(deck_id: &Vec<u8>) -> (r: bool)
    ensures
        r == deck_id_valid(deck_id@),
{
    0 < deck_id.len() && deck_id.len() <= MAX_DECK_ID_LENGTH
}

/// Copies a byte string.
pub fn copy_bytes(v: &Vec<u8>) -> (r: Vec<u8>)
    ensures
        r@ == v@,
{
    let mut out: Vec<u8> = Vec::new();
    let mut i: usize = 0;
    while i < v.len()
        invariant
            i <= v.len(),
            out@ == v@.take(i as int),
        decreases v.len() - i,
    {
        out.push(v[i]);
        i += 1;
    }
    assert(out@ =~= v@);
    out
}

/// Compares two byte strings.
pub fn bytes_eq(a: &Vec<u8>, b: &Vec<u8>) -> (r: bool)
    ensures
        r == (a@ == b@),
{
    if a.len() != b.len() {
        assert(a@ != b@);
        return false;
    }
    let mut i: usize = 0;
    while i < a.len()
        invariant
            i <= a.len(),
            a@.len() == b@.len(),
            forall|j: int| 0 <= j < i ==> a@[j] == b@[j],
        decreases a.len() - i,
    {
        if a[i] != b[i] {
            assert(a@ != b@);
            return false;
        }
        i += 1;
    }
    proof {
        assert(a@ =~= b@);
    }
    true
}

/// Compares two 32-byte account addresses.
pub fn key_eq(a: &[u8; 32], b: &[u8; 32]) -> (r: bool)
    ensures
        r == (a@ == b@),
{
    let mut i: usize = 0;
    while i < 32
        invariant
            i <= 32,
            forall|j: int| 0 <= j < i ==> a@[j] == b@[j],
        decreases 32 - i,
    {
        if a[i] != b[i] {
            assert(a@ != b@);
            return false;
        }
        i += 1;
    }
    proof {
        assert(a@ =~= b@);
    }
    true
}

} // verus!
