use vstd::prelude::*;
use vstd::slice::slice_to_vec;
use vstd::array::array_as_slice;
use crate::MAX_DECK_ID_LENGTH;
use crate::state::{MintPermit, PermitView, VaultAccount, VaultView};

verus! {

/// The fixed prefix identifying a persisted vault record.
pub open spec fn vault_discriminator() -> Seq<u8> {
    seq![230u8, 251u8, 241u8, 83u8, 139u8, 202u8, 93u8, 28u8]
}

/// The fixed prefix identifying a persisted permit record.
pub open spec fn mint_permit_discriminator() -> Seq<u8> {
    seq![59u8, 227u8, 230u8, 205u8, 187u8, 35u8, 226u8, 211u8]
}

/// The little-endian bytes of a 32-bit length prefix.
pub open spec fn u32_le_bytes(x: u32) -> Seq<u8> {
    seq![
        (x & 0xff) as u8,
        ((x >> 8) & 0xff) as u8,
        ((x >> 16) & 0xff) as u8,
        ((x >> 24) & 0xff) as u8,
    ]
}

/// The little-endian bytes of an unsigned 64-bit field.
pub open spec fn u64_le_bytes(x: u64) -> Seq<u8> {
    seq![
        (x & 0xff) as u8,
        ((x >> 8) & 0xff) as u8,
        ((x >> 16) & 0xff) as u8,
        ((x >> 24) & 0xff) as u8,
        ((x >> 32) & 0xff) as u8,
        ((x >> 40) & 0xff) as u8,
        ((x >> 48) & 0xff) as u8,
        ((x >> 56) & 0xff) as u8,
    ]
}

/// The little-endian two's-complement bytes of a signed 64-bit field.
pub open spec fn i64_le_bytes(x: i64) -> Seq<u8> {
    u64_le_bytes(x as u64)
}

/// The 32-bit value read from four little-endian bytes.
pub open spec fn u32_from_le(b: Seq<u8>) -> u32
    recommends
        b.len() == 4,
{
    (b[0] as u32) | ((b[1] as u32) << 8) | ((b[2] as u32) << 16) | ((b[3] as u32) << 24)
}

/// The unsigned 64-bit value read from eight little-endian bytes.
pub open spec fn u64_from_le(b: Seq<u8>) -> u64
    recommends
        b.len() == 8,
{
    (b[0] as u64) | ((b[1] as u64) << 8) | ((b[2] as u64) << 16) | ((b[3] as u64) << 24)
        | ((b[4] as u64) << 32) | ((b[5] as u64) << 40) | ((b[6] as u64) << 48)
        | ((b[7] as u64) << 56)
}

/// The signed 64-bit value read from eight little-endian bytes.
pub open spec fn i64_from_le(b: Seq<u8>) -> i64
    recommends
        b.len() == 8,
{
    u64_from_le(b) as i64
}

/// Reading back the four little-endian bytes of a 32-bit value yields
/// the value.
pub proof fn lemma_u32_le_round_trip(x: u32)
    ensures
        u32_from_le(u32_le_bytes(x)) == x,
{
    assert((((x & 0xff) as u8) as u32) | ((((x >> 8) & 0xff) as u8) as u32) << 8
        | ((((x >> 16) & 0xff) as u8) as u32) << 16
        | ((((x >> 24) & 0xff) as u8) as u32) << 24 == x) by (bit_vector);
}

/// Reading back the eight little-endian bytes of an unsigned 64-bit
/// value yields the value.
pub proof fn lemma_u64_le_round_trip(x: u64)
    ensures
        u64_from_le(u64_le_bytes(x)) == x,
{
    assert((((x & 0xff) as u8) as u64) | ((((x >> 8) & 0xff) as u8) as u64) << 8
        | ((((x >> 16) & 0xff) as u8) as u64) << 16
        | ((((x >> 24) & 0xff) as u8) as u64) << 24
        | ((((x >> 32) & 0xff) as u8) as u64) << 32
        | ((((x >> 40) & 0xff) as u8) as u64) << 40
        | ((((x >> 48) & 0xff) as u8) as u64) << 48
        | ((((x >> 56) & 0xff) as u8) as u64) << 56 == x) by (bit_vector);
}

/// Reading back the eight little-endian bytes of a signed 64-bit value
/// yields the value.
pub proof fn lemma_i64_le_round_trip(x: i64)
    ensures
        i64_from_le(i64_le_bytes(x)) == x,
{
    lemma_u64_le_round_trip(x as u64);
    assert(((x as u64) as i64) == x) by (bit_vector);
}

fn push_u32_le(out: &mut Vec<u8>, x: u32)
    ensures
        final(out)@ == old(out)@ + u32_le_bytes(x),
{
    out.push((x & 0xff) as u8);
    out.push(((x >> 8) & 0xff) as u8);
    out.push(((x >> 16) & 0xff) as u8);
    out.push(((x >> 24) & 0xff) as u8);
    assert(out@ =~= old(out)@ + u32_le_bytes(x));
}

fn push_u64_le(out: &mut Vec<u8>, x: u64)
    ensures
        final(out)@ == old(out)@ + u64_le_bytes(x),
{
    out.push((x & 0xff) as u8);
    out.push(((x >> 8) & 0xff) as u8);
    out.push(((x >> 16) & 0xff) as u8);
    out.push(((x >> 24) & 0xff) as u8);
    out.push(((x >> 32) & 0xff) as u8);
    out.push(((x >> 40) & 0xff) as u8);
    out.push(((x >> 48) & 0xff) as u8);
    out.push(((x >> 56) & 0xff) as u8);
    assert(out@ =~= old(out)@ + u64_le_bytes(x));
}

fn push_i64_le(out: &mut Vec<u8>, x: i64)
    ensures
        final(out)@ == old(out)@ + i64_le_bytes(x),
{
    push_u64_le(out, #[verifier::truncate] (x as u64));
}

fn push_bytes(out: &mut Vec<u8>, b: &Vec<u8>)
    ensures
        final(out)@ == old(out)@ + b@,
{
    let mut i: usize = 0;
    while i < b.len()
        invariant
            i <= b.len(),
            out@ == old(out)@ + b@.take(i as int),
        decreases b.len() - i,
    {
        out.push(b[i]);
        assert(out@ =~= old(out)@ + b@.take(i + 1));
        i += 1;
    }
    assert(out@ =~= old(out)@ + b@);
}

fn push_key(out: &mut Vec<u8>, k: &[u8; 32])
    ensures
        final(out)@ == old(out)@ + k@,
{
    let mut i: usize = 0;
    while i < 32
        invariant
            i <= 32,
            out@ == old(out)@ + k@.take(i as int),
        decreases 32 - i,
    {
        out.push(k[i]);
        assert(out@ =~= old(out)@ + k@.take(i + 1));
        i += 1;
    }
    assert(out@ =~= old(out)@ + k@);
}

fn read_u32_le(b: &Vec<u8>, off: usize) -> (x: u32)
    requires
        off + 4 <= b@.len(),
    ensures
        x == u32_from_le(b@.subrange(off as int, off as int + 4)),
{
    let len = b.len();
    let x = (b[off] as u32) | ((b[off + 1] as u32) << 8) | ((b[off + 2] as u32) << 16)
        | ((b[off + 3] as u32) << 24);
    proof {
        let s = b@.subrange(off as int, off as int + 4);
        assert(s[0] == b@[off as int]);
        assert(s[1] == b@[off as int + 1]);
        assert(s[2] == b@[off as int + 2]);
        assert(s[3] == b@[off as int + 3]);
    }
    x
}

fn read_u64_le(b: &Vec<u8>, off: usize) -> (x: u64)
    requires
        off + 8 <= b@.len(),
    ensures
        x == u64_from_le(b@.subrange(off as int, off as int + 8)),
{
    let len = b.len();
    let x = (b[off] as u64) | ((b[off + 1] as u64) << 8) | ((b[off + 2] as u64) << 16)
        | ((b[off + 3] as u64) << 24) | ((b[off + 4] as u64) << 32)
        | ((b[off + 5] as u64) << 40) | ((b[off + 6] as u64) << 48)
        | ((b[off + 7] as u64) << 56);
    proof {
        let s = b@.subrange(off as int, off as int + 8);
        assert(s[0] == b@[off as int]);
        assert(s[1] == b@[off as int + 1]);
        assert(s[2] == b@[off as int + 2]);
        assert(s[3] == b@[off as int + 3]);
        assert(s[4] == b@[off as int + 4]);
        assert(s[5] == b@[off as int + 5]);
        assert(s[6] == b@[off as int + 6]);
        assert(s[7] == b@[off as int + 7]);
    }
    x
}

fn read_i64_le(b: &Vec<u8>, off: usize) -> (x: i64)
    requires
        off + 8 <= b@.len(),
    ensures
        x == i64_from_le(b@.subrange(off as int, off as int + 8)),
{
    let u = read_u64_le(b, off);
    #[verifier::truncate] (u as i64)
}

fn read_key(b: &Vec<u8>, off: usize) -> (k: [u8; 32])
    requires
        off + 32 <= b@.len(),
    ensures
        k@ == b@.subrange(off as int, off as int + 32),
{
    let mut k: [u8; 32] = [0; 32];
    let len = b.len();
    let mut i: usize = 0;
    while i < 32
        invariant
            off + 32 <= b@.len(),
            b@.len() <= usize::MAX,
            i <= 32,
            forall|j: int| 0 <= j < i ==> k@[j] == b@[off + j],
        decreases 32 - i,
    {
        k[i] = b[off + i];
        i += 1;
    }
    assert(k@ =~= b@.subrange(off as int, off as int + 32));
    k
}

/// The persisted bytes of a vault record: the fixed discriminator, the
/// owner's 32-byte identity, the deck identifier as length-prefixed
/// bytes, then the fixed-width integer fields, little endian.
pub open spec fn spec_encode_vault_account(v: VaultView) -> Seq<u8> {
    vault_discriminator() + v.user + u32_le_bytes(v.deck_id.len() as u32) + v.deck_id
        + u64_le_bytes(v.initial_deposit_amount) + i64_le_bytes(v.start_timestamp)
        + i64_le_bytes(v.last_check_in_timestamp) + seq![v.streak_target, v.streak_counter]
}

/// The vault record read back from persisted bytes, or `None` when the
/// bytes are not a well-formed vault record.
pub open spec fn spec_decode_vault_account(b: Seq<u8>) -> Option<VaultView> {
    if b.len() < 44 {
        None
    } else if b.subrange(0, 8) != vault_discriminator() {
        None
    } else {
        let n = u32_from_le(b.subrange(40, 44)) as int;
        if n > MAX_DECK_ID_LENGTH {
            None
        } else if b.len() != 70 + n {
            None
        } else {
            Some(VaultView {
                user: b.subrange(8, 40),
                deck_id: b.subrange(44, 44 + n),
                initial_deposit_amount: u64_from_le(b.subrange(44 + n, 52 + n)),
                start_timestamp: i64_from_le(b.subrange(52 + n, 60 + n)),
                last_check_in_timestamp: i64_from_le(b.subrange(60 + n, 68 + n)),
                streak_target: b[68 + n],
                streak_counter: b[69 + n],
            })
        }
    }
}

/// Serializes a vault record into its persisted layout.
pub fn encode_vault_account(v: &VaultAccount) -> (r: Vec<u8>)
    requires
        v.deck_id@.len() <= MAX_DECK_ID_LENGTH,
    ensures
        r@ == spec_encode_vault_account(v@),
{
    let disc: [u8; 8] = [230, 251, 241, 83, 139, 202, 93, 28];
    let mut out: Vec<u8> = slice_to_vec(array_as_slice(&disc));
    assert(out@ =~= vault_discriminator());
    push_key(&mut out, &v.user);
    push_u32_le(&mut out, v.deck_id.len() as u32);
    push_bytes(&mut out, &v.deck_id);
    push_u64_le(&mut out, v.initial_deposit_amount);
    push_i64_le(&mut out, v.start_timestamp);
    push_i64_le(&mut out, v.last_check_in_timestamp);
    out.push(v.streak_target);
    out.push(v.streak_counter);
    assert(out@ =~= spec_encode_vault_account(v@));
    out
}

/// Parses the persisted layout of a vault record.
pub fn decode_vault_account(bytes: &Vec<u8>) -> (r: Option<VaultAccount>)
    ensures
        match r {
            Some(v) => spec_decode_vault_account(bytes@) == Some(v@),
            None => spec_decode_vault_account(bytes@) is None,
        },
{
    if bytes.len() < 44 {
        return None;
    }
    let disc: [u8; 8] = [230, 251, 241, 83, 139, 202, 93, 28];
    let mut i: usize = 0;
    while i < 8
        invariant
            i <= 8,
            bytes@.len() >= 44,
            disc@ == vault_discriminator(),
            forall|j: int| 0 <= j < i ==> bytes@[j] == disc@[j],
        decreases 8 - i,
    {
        if bytes[i] != disc[i] {
            assert(bytes@.subrange(0, 8)[i as int] != vault_discriminator()[i as int]);
            return None;
        }
        i += 1;
    }
    assert(bytes@.subrange(0, 8) =~= vault_discriminator());
    let n = read_u32_le(bytes, 40);
    if n > MAX_DECK_ID_LENGTH as u32 {
        return None;
    }
    let n: usize = n as usize;
    if bytes.len() != 70 + n {
        return None;
    }
    let user = read_key(bytes, 8);
    let mut deck_id: Vec<u8> = Vec::new();
    let mut i: usize = 0;
    while i < n
        invariant
            bytes@.len() == 70 + n,
            n <= MAX_DECK_ID_LENGTH,
            i <= n,
            deck_id@ == bytes@.subrange(44, 44 + i as int),
        decreases n - i,
    {
        deck_id.push(bytes[44 + i]);
        assert(deck_id@ =~= bytes@.subrange(44, 44 + i + 1));
        i += 1;
    }
    let initial_deposit_amount = read_u64_le(bytes, 44 + n);
    let start_timestamp = read_i64_le(bytes, 52 + n);
    let last_check_in_timestamp = read_i64_le(bytes, 60 + n);
    let streak_target = bytes[68 + n];
    let streak_counter = bytes[69 + n];
    let v = VaultAccount {
        user,
        deck_id,
        initial_deposit_amount,
        start_timestamp,
        last_check_in_timestamp,
        streak_target,
        streak_counter,
    };
    proof {
        assert(spec_decode_vault_account(bytes@) == Some(v@));
    }
    Some(v)
}

/// Reading back the persisted bytes of a vault record yields the record:
/// the layout loses nothing.
pub proof fn lemma_vault_account_round_trip(v: VaultView)
    requires
        v.user.len() == 32,
        v.deck_id.len() <= MAX_DECK_ID_LENGTH,
    ensures
        spec_decode_vault_account(spec_encode_vault_account(v)) == Some(v),
{
    let b = spec_encode_vault_account(v);
    let n = v.deck_id.len() as int;
    assert(b.len() == 70 + n);
    assert(b.subrange(0, 8) =~= vault_discriminator());
    assert(b.subrange(40, 44) =~= u32_le_bytes(v.deck_id.len() as u32));
    lemma_u32_le_round_trip(v.deck_id.len() as u32);
    assert(b.subrange(8, 40) =~= v.user);
    assert(b.subrange(44, 44 + n) =~= v.deck_id);
    assert(b.subrange(44 + n, 52 + n) =~= u64_le_bytes(v.initial_deposit_amount));
    lemma_u64_le_round_trip(v.initial_deposit_amount);
    assert(b.subrange(52 + n, 60 + n) =~= i64_le_bytes(v.start_timestamp));
    lemma_i64_le_round_trip(v.start_timestamp);
    assert(b.subrange(60 + n, 68 + n) =~= i64_le_bytes(v.last_check_in_timestamp));
    lemma_i64_le_round_trip(v.last_check_in_timestamp);
    assert(b[68 + n] == v.streak_target);
    assert(b[69 + n] == v.streak_counter);
}

/// The persisted bytes of a permit record: the fixed discriminator, the
/// owner's 32-byte identity, the deck identifier as length-prefixed
/// bytes, then the creation time, little endian.
pub open spec fn spec_encode_mint_permit(p: PermitView) -> Seq<u8> {
    mint_permit_discriminator() + p.user + u32_le_bytes(p.deck_id.len() as u32) + p.deck_id
        + i64_le_bytes(p.creation_timestamp)
}

/// The permit record read back from persisted bytes, or `None` when the
/// bytes are not a well-formed permit record.
pub open spec fn spec_decode_mint_permit(b: Seq<u8>) -> Option<PermitView> {
    if b.len() < 44 {
        None
    } else if b.subrange(0, 8) != mint_permit_discriminator() {
        None
    } else {
        let n = u32_from_le(b.subrange(40, 44)) as int;
        if n > MAX_DECK_ID_LENGTH {
            None
        } else if b.len() != 52 + n {
            None
        } else {
            Some(PermitView {
                user: b.subrange(8, 40),
                deck_id: b.subrange(44, 44 + n),
                creation_timestamp: i64_from_le(b.subrange(44 + n, 52 + n)),
            })
        }
    }
}

/// Serializes a permit record into its persisted layout.
pub fn encode_mint_permit(p: &MintPermit) -> (r: Vec<u8>)
    requires
        p.deck_id@.len() <= MAX_DECK_ID_LENGTH,
    ensures
        r@ == spec_encode_mint_permit(p@),
{
    let disc: [u8; 8] = [59, 227, 230, 205, 187, 35, 226, 211];
    let mut out: Vec<u8> = slice_to_vec(array_as_slice(&disc));
    assert(out@ =~= mint_permit_discriminator());
    push_key(&mut out, &p.user);
    push_u32_le(&mut out, p.deck_id.len() as u32);
    push_bytes(&mut out, &p.deck_id);
    push_i64_le(&mut out, p.creation_timestamp);
    assert(out@ =~= spec_encode_mint_permit(p@));
    out
}

/// Parses the persisted layout of a permit record.
pub fn decode_mint_permit(bytes: &Vec<u8>) -> (r: Option<MintPermit>)
    ensures
        match r {
            Some(p) => spec_decode_mint_permit(bytes@) == Some(p@),
            None => spec_decode_mint_permit(bytes@) is None,
        },
{
    if bytes.len() < 44 {
        return None;
    }
    let disc: [u8; 8] = [59, 227, 230, 205, 187, 35, 226, 211];
    let mut i: usize = 0;
    while i < 8
        invariant
            i <= 8,
            bytes@.len() >= 44,
            disc@ == mint_permit_discriminator(),
            forall|j: int| 0 <= j < i ==> bytes@[j] == disc@[j],
        decreases 8 - i,
    {
        if bytes[i] != disc[i] {
            assert(bytes@.subrange(0, 8)[i as int] != mint_permit_discriminator()[i as int]);
            return None;
        }
        i += 1;
    }
    assert(bytes@.subrange(0, 8) =~= mint_permit_discriminator());
    let n = read_u32_le(bytes, 40);
    if n > MAX_DECK_ID_LENGTH as u32 {
        return None;
    }
    let n: usize = n as usize;
    if bytes.len() != 52 + n {
        return None;
    }
    let user = read_key(bytes, 8);
    let mut deck_id: Vec<u8> = Vec::new();
    let mut i: usize = 0;
    while i < n
        invariant
            bytes@.len() == 52 + n,
            n <= MAX_DECK_ID_LENGTH,
            i <= n,
            deck_id@ == bytes@.subrange(44, 44 + i as int),
        decreases n - i,
    {
        deck_id.push(bytes[44 + i]);
        assert(deck_id@ =~= bytes@.subrange(44, 44 + i + 1));
        i += 1;
    }
    let creation_timestamp = read_i64_le(bytes, 44 + n);
    let p = MintPermit { user, deck_id, creation_timestamp };
    proof {
        assert(spec_decode_mint_permit(bytes@) == Some(p@));
    }
    Some(p)
}

/// Reading back the persisted bytes of a permit record yields the
/// record: the layout loses nothing.
pub proof fn lemma_mint_permit_round_trip(p: PermitView)
    requires
        p.user.len() == 32,
        p.deck_id.len() <= MAX_DECK_ID_LENGTH,
    ensures
        spec_decode_mint_permit(spec_encode_mint_permit(p)) == Some(p),
{
    let b = spec_encode_mint_permit(p);
    let n = p.deck_id.len() as int;
    assert(b.len() == 52 + n);
    assert(b.subrange(0, 8) =~= mint_permit_discriminator());
    assert(b.subrange(40, 44) =~= u32_le_bytes(p.deck_id.len() as u32));
    lemma_u32_le_round_trip(p.deck_id.len() as u32);
    assert(b.subrange(8, 40) =~= p.user);
    assert(b.subrange(44, 44 + n) =~= p.deck_id);
    assert(b.subrange(44 + n, 52 + n) =~= i64_le_bytes(p.creation_timestamp));
    lemma_i64_le_round_trip(p.creation_timestamp);
}

} // verus!
