use zaddr_kit::{is_valid_zcash_address, normalize_zcash_address, ParseFailure};

use bech32::{Bech32, Hrp};
use zcash_address::unified::Bech32mZip316;
use zcash_address::{ToAddress, ZcashAddress};
use zcash_protocol::consensus::NetworkType;

#[test]
fn unknown_bech32_prefix_is_a_mismatch() {
    let s = bech32::encode::<Bech32>(Hrp::parse("zsomething").unwrap(), &[1u8; 43]).unwrap();
    assert_eq!(
        normalize_zcash_address(&s),
        Err(ParseFailure::ChecksumOrNetworkMismatch)
    );
    assert!(!is_valid_zcash_address(&s));
}

#[test]
fn uppercase_sapling_is_a_mismatch() {
    let s = ZcashAddress::from_sapling(NetworkType::Main, [7u8; 43])
        .encode()
        .to_uppercase();
    assert_eq!(
        normalize_zcash_address(&s),
        Err(ParseFailure::ChecksumOrNetworkMismatch)
    );
}

#[test]
fn wrong_payload_length_is_a_mismatch() {
    // A correctly checksummed Base58 string whose payload is too short for
    // a transparent address.
    let mut payload = vec![0x1c, 0xb8];
    payload.extend_from_slice(&[0u8; 10]);
    let s = bs58::encode(payload).with_check().into_string();
    assert!(s.len() >= 20);
    assert_eq!(
        normalize_zcash_address(&s),
        Err(ParseFailure::ChecksumOrNetworkMismatch)
    );
}

#[test]
fn sprout_prefix_is_a_mismatch() {
    // A correctly checksummed Base58 string under the legacy sprout prefix,
    // which is outside the supported variants.
    let mut payload = vec![0x16, 0x9a];
    payload.extend_from_slice(&[0u8; 64]);
    let s = bs58::encode(payload).with_check().into_string();
    assert_eq!(
        normalize_zcash_address(&s),
        Err(ParseFailure::ChecksumOrNetworkMismatch)
    );
}

/// Builds the string encoding of a unified container from raw item bytes,
/// bypassing the construction-time validation.
fn encode_raw_unified(items: &[u8]) -> String {
    let mut padded = items.to_vec();
    let mut padding = [0u8; 16];
    padding[0] = b'u';
    padded.extend_from_slice(&padding);
    let jumbled = f4jumble::f4jumble(&padded).unwrap();
    bech32::encode::<Bech32mZip316>(Hrp::parse("u").unwrap(), &jumbled).unwrap()
}

#[test]
fn transparent_only_container_is_malformed() {
    // A p2pkh and a p2sh receiver and nothing else: a transparent-only
    // container, which the rules reject.
    let mut items = vec![0x00, 20];
    items.extend_from_slice(&[3u8; 20]);
    items.extend_from_slice(&[0x01, 20]);
    items.extend_from_slice(&[4u8; 20]);
    let s = encode_raw_unified(&items);
    assert_eq!(
        normalize_zcash_address(&s),
        Err(ParseFailure::MalformedUnifiedContainer)
    );
    assert!(!is_valid_zcash_address(&s));
}

#[test]
fn duplicate_typecode_container_is_malformed() {
    let mut items = Vec::new();
    for _ in 0..2 {
        items.extend_from_slice(&[0x02, 43]);
        items.extend_from_slice(&[6u8; 43]);
    }
    let s = encode_raw_unified(&items);
    assert_eq!(
        normalize_zcash_address(&s),
        Err(ParseFailure::MalformedUnifiedContainer)
    );
}
