use blitzi::hexcode::{decode_hex, encode_hex};
use blitzi::opid::derive_pay_operation_id;
use blitzi::types::PaymentHash;

#[test]
fn encode_hex_known_values() {
    assert_eq!(encode_hex(&vec![0xbe, 0xef]), "beef");
    assert_eq!(encode_hex(&vec![]), "");
    assert_eq!(encode_hex(&vec![0x00, 0xff, 0x0a]), "00ff0a");
}

#[test]
fn decode_hex_known_values() {
    assert_eq!(decode_hex(&b"beef".to_vec()), Some(vec![0xbe, 0xef]));
    assert_eq!(decode_hex(&b"".to_vec()), Some(vec![]));
    assert_eq!(decode_hex(&b"00FF0a".to_vec()), Some(vec![0x00, 0xff, 0x0a]));
}

#[test]
fn decode_hex_rejects_odd_length() {
    assert_eq!(decode_hex(&b"abc".to_vec()), None);
}

#[test]
fn decode_hex_rejects_non_digits() {
    assert_eq!(decode_hex(&b"zz".to_vec()), None);
    assert_eq!(decode_hex(&b"0g".to_vec()), None);
}

#[test]
fn decode_undoes_encode() {
    let bytes: Vec<u8> = (0u16..=255).map(|b| b as u8).collect();
    let encoded = encode_hex(&bytes);
    assert_eq!(decode_hex(&encoded.into_bytes()), Some(bytes));
}

#[test]
fn operation_id_matches_digest_of_hash_and_index() {
    let hash = PaymentHash { bytes: vec![0x11; 32] };
    let id = derive_pay_operation_id(&hash, 0);
    assert_eq!(
        encode_hex(&id.bytes),
        "c51d1e37d6b4ba298319cc1961241df2c262ea57d5eaaa3e22e77dacc20f3930"
    );
}

#[test]
fn operation_id_is_deterministic() {
    let hash1 = PaymentHash { bytes: vec![0x11; 32] };
    let hash2 = PaymentHash { bytes: vec![0x11; 32] };
    let id1 = derive_pay_operation_id(&hash1, 0);
    let id2 = derive_pay_operation_id(&hash2, 0);
    assert_eq!(id1.bytes, id2.bytes);
}

#[test]
fn operation_id_differs_per_attempt_index() {
    let hash = PaymentHash { bytes: vec![0x11; 32] };
    let id0 = derive_pay_operation_id(&hash, 0);
    let id1 = derive_pay_operation_id(&hash, 1);
    assert_ne!(id0.bytes, id1.bytes);
    assert_eq!(
        encode_hex(&id1.bytes),
        "f64452b17b68be7331e7cf1b69504c343f6ba17918b424129b11813009683a39"
    );
}

#[test]
fn operation_id_differs_from_payment_hash() {
    let hash = PaymentHash { bytes: vec![0x11; 32] };
    let id = derive_pay_operation_id(&hash, 0);
    assert_ne!(id.bytes, hash.bytes);
}
