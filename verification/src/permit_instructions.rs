use vstd::prelude::*;
use vstd::slice::slice_to_vec;
use vstd::array::array_as_slice;
use crate::errors::MintCredentialError;
use crate::state::{CredentialAsset, MintPermit};

verus! {

/// The display-name prefix of an issued credential ("SRS Credential: "
/// in ASCII).
pub open spec fn credential_name_prefix() -> Seq<u8> {
    seq![83u8, 82u8, 83u8, 32u8, 67u8, 114u8, 101u8, 100u8, 101u8, 110u8, 116u8, 105u8, 97u8,
        108u8, 58u8, 32u8]
}

/// The display name of the credential of a deck: the prefix followed by
/// the deck identifier.
pub open spec fn credential_name(deck_id: Seq<u8>) -> Seq<u8> {
    credential_name_prefix() + deck_id
}

/// The fixed metadata location of every issued credential
/// ("https://example.com/metadata" in ASCII).
pub open spec fn credential_uri() -> Seq<u8> {
    seq![104u8, 116u8, 116u8, 112u8, 115u8, 58u8, 47u8, 47u8, 101u8, 120u8, 97u8, 109u8, 112u8,
        108u8, 101u8, 46u8, 99u8, 111u8, 109u8, 47u8, 109u8, 101u8, 116u8, 97u8, 100u8, 97u8,
        116u8, 97u8]
}

/// Allocates a fresh permit record bound to `user`: the deck identifier
/// and the creation time stay zeroed until the permit is populated.
pub fn initialize_mint_permit_handler(user: &[u8; 32]) -> (p: MintPermit)
    ensures
        p.user@ == user@,
        p.deck_id@ == Seq::<u8>::empty(),
        p.creation_timestamp == 0,
        p.wf(),
{
    MintPermit { user: *user, deck_id: Vec::new(), creation_timestamp: 0 }
}

/// Populates a permit that the account-set validation has already bound
/// to `user`: records the deck identifier and the creation time.
pub fn create_mint_permit_handler(permit: &mut MintPermit, user: &[u8; 32], deck_id: Vec<u8>, now: i64)
    requires
        old(permit).user@ == user@,
    ensures
        final(permit).user@ == user@,
        final(permit).deck_id@ == deck_id@,
        final(permit).creation_timestamp == now,
{
    permit.user = *user;
    permit.deck_id = deck_id;
    permit.creation_timestamp = now;
}

/// Checks that the permit is bound to `user` and builds the credential
/// it authorizes: owned by `user`, named after the deck, with the fixed
/// metadata location.
pub fn mint_credential_handler(permit: &MintPermit, user: &[u8; 32], deck_id: &Vec<u8>) -> (r: Result<
    CredentialAsset,
    MintCredentialError,
>)
    ensures
        r is Ok <==> permit.user@ == user@,
        r matches Ok(c) ==> {
            &&& c.owner@ == user@
            &&& c.name@ == credential_name(deck_id@)
            &&& c.uri@ == credential_uri()
        },
        r is Err <==> r == Err::<CredentialAsset, MintCredentialError>(
            MintCredentialError::InvalidMintPermit) && permit.user@ != user@,
{
    if !crate::key_eq(&permit.user, user) {
        return Err(MintCredentialError::InvalidMintPermit);
    }
    let prefix: [u8; 16] = [83, 82, 83, 32, 67, 114, 101, 100, 101, 110, 116, 105, 97, 108, 58, 32];
    let mut name: Vec<u8> = slice_to_vec(array_as_slice(&prefix));
    assert(name@ =~= credential_name_prefix());
    let mut i: usize = 0;
    while i < deck_id.len()
        invariant
            i <= deck_id.len(),
            name@ == credential_name_prefix() + deck_id@.take(i as int),
        decreases deck_id.len() - i,
    {
        name.push(deck_id[i]);
        assert(name@ =~= credential_name_prefix() + deck_id@.take(i + 1));
        i += 1;
    }
    assert(name@ =~= credential_name(deck_id@));
    let uri_bytes: [u8; 28] = [104, 116, 116, 112, 115, 58, 47, 47, 101, 120, 97, 109, 112, 108,
        101, 46, 99, 111, 109, 47, 109, 101, 116, 97, 100, 97, 116, 97];
    let uri: Vec<u8> = slice_to_vec(array_as_slice(&uri_bytes));
    assert(uri@ =~= credential_uri());
    Ok(CredentialAsset { owner: *user, name, uri })
}

} // verus!
