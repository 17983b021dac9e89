use srs_vault::codec::{
    decode_mint_permit, decode_vault_account, encode_mint_permit, encode_vault_account,
};
use srs_vault::state::{MintPermit, VaultAccount};

fn sample_vault() -> VaultAccount {
    VaultAccount {
        user: [3; 32],
        deck_id: b"algebra".to_vec(),
        initial_deposit_amount: 1000,
        start_timestamp: 1_700_000_000,
        last_check_in_timestamp: 1_700_075_600,
        streak_target: 5,
        streak_counter: 2,
    }
}

#[test]
fn vault_record_layout_is_exact() {
    let bytes = encode_vault_account(&sample_vault());
    // discriminator + owner + length prefix + deck + three 8-byte fields
    // + two single-byte counters
    assert_eq!(bytes.len(), 8 + 32 + 4 + 7 + 8 + 8 + 8 + 2);
    assert_eq!(&bytes[0..8], &[230, 251, 241, 83, 139, 202, 93, 28]);
    assert_eq!(&bytes[8..40], &[3; 32]);
    assert_eq!(&bytes[40..44], &[7, 0, 0, 0]);
    assert_eq!(&bytes[44..51], b"algebra");
    // 1000 = 0x3e8, little endian
    assert_eq!(&bytes[51..59], &[0xe8, 0x03, 0, 0, 0, 0, 0, 0]);
    assert_eq!(bytes[75], 5);
    assert_eq!(bytes[76], 2);
}

#[test]
fn vault_record_round_trips() {
    let v = sample_vault();
    let bytes = encode_vault_account(&v);
    let back = decode_vault_account(&bytes).unwrap();
    assert_eq!(back.user, v.user);
    assert_eq!(back.deck_id, v.deck_id);
    assert_eq!(back.initial_deposit_amount, v.initial_deposit_amount);
    assert_eq!(back.start_timestamp, v.start_timestamp);
    assert_eq!(back.last_check_in_timestamp, v.last_check_in_timestamp);
    assert_eq!(back.streak_target, v.streak_target);
    assert_eq!(back.streak_counter, v.streak_counter);
}

#[test]
fn vault_record_round_trips_with_negative_timestamps() {
    let v = VaultAccount {
        user: [0xab; 32],
        deck_id: vec![0; 32],
        initial_deposit_amount: u64::MAX,
        start_timestamp: -5,
        last_check_in_timestamp: i64::MIN,
        streak_target: 255,
        streak_counter: 255,
    };
    let bytes = encode_vault_account(&v);
    let back = decode_vault_account(&bytes).unwrap();
    assert_eq!(back.start_timestamp, -5);
    assert_eq!(back.last_check_in_timestamp, i64::MIN);
    assert_eq!(back.initial_deposit_amount, u64::MAX);
}

#[test]
fn vault_decoder_rejects_foreign_bytes() {
    let mut bytes = encode_vault_account(&sample_vault());
    bytes[0] ^= 1;
    assert!(decode_vault_account(&bytes).is_none());

    let mut truncated = encode_vault_account(&sample_vault());
    truncated.pop();
    assert!(decode_vault_account(&truncated).is_none());

    let mut oversized_len = encode_vault_account(&sample_vault());
    oversized_len[40] = 33;
    assert!(decode_vault_account(&oversized_len).is_none());

    assert!(decode_vault_account(&Vec::new()).is_none());
}

#[test]
fn permit_record_layout_is_exact() {
    let p = MintPermit {
        user: [4; 32],
        deck_id: b"ab".to_vec(),
        creation_timestamp: 256,
    };
    let bytes = encode_mint_permit(&p);
    let expected: Vec<u8> = [
        vec![59, 227, 230, 205, 187, 35, 226, 211],
        vec![4; 32],
        vec![2, 0, 0, 0],
        b"ab".to_vec(),
        vec![0, 1, 0, 0, 0, 0, 0, 0],
    ]
    .concat();
    assert_eq!(bytes, expected);
}

#[test]
fn permit_record_round_trips() {
    let p = MintPermit {
        user: [7; 32],
        deck_id: b"algebra".to_vec(),
        creation_timestamp: -1,
    };
    let bytes = encode_mint_permit(&p);
    let back = decode_mint_permit(&bytes).unwrap();
    assert_eq!(back.user, p.user);
    assert_eq!(back.deck_id, p.deck_id);
    assert_eq!(back.creation_timestamp, -1);
}

#[test]
fn permit_decoder_rejects_a_vault_record() {
    let bytes = encode_vault_account(&sample_vault());
    assert!(decode_mint_permit(&bytes).is_none());
}
