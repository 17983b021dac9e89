use vstd::prelude::*;
use vstd::slice::slice_to_vec;
use vstd::array::array_as_slice;

verus! {

/// The address and disambiguation nonce that the hosting environment
/// derives from a seed list and a program id, or `None` when the
/// derivation is exhausted. The result depends on the seeds and the
/// program id alone; it is left unspecified here and is computed by
/// `find_program_address` below.
pub uninterp spec fn pda_of(seeds: Seq<Seq<u8>>, program_id: Seq<u8>) -> Option<(Seq<u8>, u8)>;

/// The views of a list of seed byte strings.
pub open spec fn seeds_view(seeds: Seq<Vec<u8>>) -> Seq<Seq<u8>> {
    seeds.map_values(|s: Vec<u8>| s@)
}

/// Relies on anchor_lang's `Pubkey::try_find_program_address`: a pure
/// search, by hashing, for a program derived address and its bump nonce.
/// It depends only on the seeds and the program id; it returns `None`
/// when the nonce search is exhausted, or when the seeds exceed the
/// environment's bounds on their number or length.
#[verifier::external_body]
fn find_program_address(seeds: &Vec<Vec<u8>>, program_id: &[u8; 32]) -> (r: Option<([u8; 32], u8)>)
    ensures
        match r {
            Some((address, nonce)) => pda_of(seeds_view(seeds@), program_id@)
                == Some((address@, nonce)),
            None => pda_of(seeds_view(seeds@), program_id@) is None,
        },
{
    let program = anchor_lang::prelude::Pubkey::new_from_array(*program_id);
    let seed_refs: Vec<&[u8]> = seeds.iter().map(|s| s.as_slice()).collect();
    anchor_lang::prelude::Pubkey::try_find_program_address(&seed_refs, &program)
        .map(|(address, nonce)| (address.to_bytes(), nonce))
}

/// The namespace prefix of vault account seeds ("vault" in ASCII).
pub open spec fn vault_seed_prefix() -> Seq<u8> {
    seq![118u8, 97u8, 117u8, 108u8, 116u8]
}

/// The namespace prefix of mint permit seeds ("mint_permit" in ASCII).
pub open spec fn mint_permit_seed_prefix() -> Seq<u8> {
    seq![109u8, 105u8, 110u8, 116u8, 95u8, 112u8, 101u8, 114u8, 109u8, 105u8, 116u8]
}

/// The namespace prefix of credential asset seeds ("asset" in ASCII).
pub open spec fn asset_seed_prefix() -> Seq<u8> {
    seq![97u8, 115u8, 115u8, 101u8, 116u8]
}

/// The seed list of a namespaced account: the namespace prefix, the
/// owner's address, and the deck identifier.
pub open spec fn namespaced_seeds(prefix: Seq<u8>, user: Seq<u8>, deck_id: Seq<u8>) -> Seq<Seq<u8>> {
    seq![prefix, user, deck_id]
}

/// Builds the seed list for `prefix_bytes`, `user` and `deck_id`.
fn build_seeds(prefix_bytes: Vec<u8>, user: &[u8; 32], deck_id: &Vec<u8>) -> (r: Vec<Vec<u8>>)
    ensures
        seeds_view(r@) == namespaced_seeds(prefix_bytes@, user@, deck_id@),
{
    let mut seeds: Vec<Vec<u8>> = Vec::new();
    seeds.push(prefix_bytes);
    seeds.push(slice_to_vec(array_as_slice(user)));
    seeds.push(crate::copy_bytes(deck_id));
    assert(seeds_view(seeds@) =~= namespaced_seeds(prefix_bytes@, user@, deck_id@));
    seeds
}

/// The "vault" namespace prefix as bytes.
fn vault_prefix_bytes() -> (r: Vec<u8>)
    ensures
        r@ == vault_seed_prefix(),
{
    let a: [u8; 5] = [118, 97, 117, 108, 116];
    let v = slice_to_vec(array_as_slice(&a));
    assert(v@ =~= vault_seed_prefix());
    v
}

/// The "mint_permit" namespace prefix as bytes.
fn mint_permit_prefix_bytes() -> (r: Vec<u8>)
    ensures
        r@ == mint_permit_seed_prefix(),
{
    let a: [u8; 11] = [109, 105, 110, 116, 95, 112, 101, 114, 109, 105, 116];
    let v = slice_to_vec(array_as_slice(&a));
    assert(v@ =~= mint_permit_seed_prefix());
    v
}

/// The "asset" namespace prefix as bytes.
fn asset_prefix_bytes() -> (r: Vec<u8>)
    ensures
        r@ == asset_seed_prefix(),
{
    let a: [u8; 5] = [97, 115, 115, 101, 116];
    let v = slice_to_vec(array_as_slice(&a));
    assert(v@ =~= asset_seed_prefix());
    v
}

/// The derived address and nonce of the vault account of `(user, deck_id)`
/// under `program_id`, as the specification sees it.
pub open spec fn vault_address(program_id: Seq<u8>, user: Seq<u8>, deck_id: Seq<u8>) -> Option<(Seq<u8>, u8)> {
    pda_of(namespaced_seeds(vault_seed_prefix(), user, deck_id), program_id)
}

/// The derived address and nonce of the mint permit of `(user, deck_id)`
/// under `program_id`, as the specification sees it.
pub open spec fn mint_permit_address(program_id: Seq<u8>, user: Seq<u8>, deck_id: Seq<u8>) -> Option<(Seq<u8>, u8)> {
    pda_of(namespaced_seeds(mint_permit_seed_prefix(), user, deck_id), program_id)
}

/// The derived address and nonce of the credential asset of
/// `(user, deck_id)` under `program_id`, as the specification sees it.
pub open spec fn asset_address(program_id: Seq<u8>, user: Seq<u8>, deck_id: Seq<u8>) -> Option<(Seq<u8>, u8)> {
    pda_of(namespaced_seeds(asset_seed_prefix(), user, deck_id), program_id)
}

/// Derives the vault account address of `(user, deck_id)` under
/// `program_id`, together with its disambiguation nonce. Any party can
/// recompute this to verify ownership of a vault without a stored index.
pub fn derive_vault_address(program_id: &[u8; 32], user: &[u8; 32], deck_id: &Vec<u8>) -> (r: Option<([u8; 32], u8)>)
    ensures
        match r {
            Some((address, nonce)) => vault_address(program_id@, user@, deck_id@)
                == Some((address@, nonce)),
            None => vault_address(program_id@, user@, deck_id@) is None,
        },
{
    let seeds = build_seeds(vault_prefix_bytes(), user, deck_id);
    find_program_address(&seeds, program_id)
}

/// Derives the mint permit address of `(user, deck_id)` under
/// `program_id`, together with its disambiguation nonce.
pub fn derive_mint_permit_address(program_id: &[u8; 32], user: &[u8; 32], deck_id: &Vec<u8>) -> (r: Option<([u8; 32], u8)>)
    ensures
        match r {
            Some((address, nonce)) => mint_permit_address(program_id@, user@, deck_id@)
                == Some((address@, nonce)),
            None => mint_permit_address(program_id@, user@, deck_id@) is None,
        },
{
    let seeds = build_seeds(mint_permit_prefix_bytes(), user, deck_id);
    find_program_address(&seeds, program_id)
}

/// Derives the credential asset address of `(user, deck_id)` under
/// `program_id`, together with its disambiguation nonce.
pub fn derive_asset_address(program_id: &[u8; 32], user: &[u8; 32], deck_id: &Vec<u8>) -> (r: Option<([u8; 32], u8)>)
    ensures
        match r {
            Some((address, nonce)) => asset_address(program_id@, user@, deck_id@)
                == Some((address@, nonce)),
            None => asset_address(program_id@, user@, deck_id@) is None,
        },
{
    let seeds = build_seeds(asset_prefix_bytes(), user, deck_id);
    find_program_address(&seeds, program_id)
}

} // verus!
