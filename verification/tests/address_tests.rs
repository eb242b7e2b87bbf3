use zaddr_kit::{
    get_address_receivers, get_zcash_address_type, is_valid_zcash_address,
    normalize_zcash_address, ParseFailure,
};

use zcash_address::unified::{Encoding, Receiver};
use zcash_address::{ToAddress, ZcashAddress};
use zcash_protocol::consensus::NetworkType;

const P2PKH_MAIN: &str = "t1XUKmDLFcRDxvf9A7tawmgePDN8NK6os35";

#[test]
fn end_to_end_p2pkh_with_noise() {
    let input = "see my address: t1XUKmDLFcRDxvf9A7tawmgePDN8NK6os35 thanks";
    assert_eq!(normalize_zcash_address(input).unwrap(), P2PKH_MAIN);
    assert_eq!(get_zcash_address_type(input).unwrap(), "p2pkh");
    let r = get_address_receivers(input).unwrap();
    assert_eq!(r.p2pkh(), Some(P2PKH_MAIN));
    assert_eq!(r.p2sh(), None);
    assert_eq!(r.sapling(), None);
    assert_eq!(r.orchard(), None);
    assert!(is_valid_zcash_address(input));
}

#[test]
fn normalize_is_idempotent() {
    let once = normalize_zcash_address(P2PKH_MAIN).unwrap();
    assert_eq!(once, P2PKH_MAIN);
    let twice = normalize_zcash_address(&once).unwrap();
    assert_eq!(twice, once);
}

#[test]
fn noise_variants_are_stripped() {
    for input in [
        "<t1XUKmDLFcRDxvf9A7tawmgePDN8NK6os35>",
        "address: t1XUKmDLFcRDxvf9A7tawmgePDN8NK6os35!",
        "  t1XUKmDLFcRDxvf9A7tawmgePDN8NK6os35  ",
        "(t1XUKmDLFcRDxvf9A7tawmgePDN8NK6os35)",
    ] {
        assert_eq!(normalize_zcash_address(input).unwrap(), P2PKH_MAIN);
        assert_eq!(get_zcash_address_type(input).unwrap(), "p2pkh");
    }
}

#[test]
fn first_qualifying_token_wins() {
    let sapling = ZcashAddress::from_sapling(NetworkType::Main, [7u8; 43]).encode();
    let input = format!("{} and then {}", P2PKH_MAIN, sapling);
    assert_eq!(normalize_zcash_address(&input).unwrap(), P2PKH_MAIN);
    // A short alphanumeric run before the address does not count.
    let input2 = format!("ref AB12CD34EF56GH78Q: {}", sapling);
    assert_eq!(normalize_zcash_address(&input2).unwrap(), sapling);
}

#[test]
fn empty_input_is_not_an_address() {
    assert_eq!(normalize_zcash_address(""), Err(ParseFailure::NotAnAddress));
    assert_eq!(get_zcash_address_type(""), Err(ParseFailure::NotAnAddress));
    assert!(get_address_receivers("").is_err());
    assert!(!is_valid_zcash_address(""));
}

#[test]
fn punctuation_only_is_not_an_address() {
    let input = "... !!! ??? ,,, ;;; ---";
    assert_eq!(
        normalize_zcash_address(input),
        Err(ParseFailure::NotAnAddress)
    );
    assert!(!is_valid_zcash_address(input));
}

#[test]
fn corrupted_checksum_is_rejected() {
    // Same length and alphabet as a real address, last character changed.
    let corrupted = "t1XUKmDLFcRDxvf9A7tawmgePDN8NK6os34";
    assert_eq!(
        normalize_zcash_address(corrupted),
        Err(ParseFailure::UnrecognizedEncoding)
    );
    assert!(get_zcash_address_type(corrupted).is_err());
    assert!(get_address_receivers(corrupted).is_err());
    assert!(!is_valid_zcash_address(corrupted));
}

#[test]
fn sapling_roundtrip_and_decomposition() {
    let s = ZcashAddress::from_sapling(NetworkType::Main, [7u8; 43]).encode();
    assert_eq!(normalize_zcash_address(&s).unwrap(), s);
    assert_eq!(get_zcash_address_type(&s).unwrap(), "sapling");
    let r = get_address_receivers(&s).unwrap();
    assert_eq!(r.sapling(), Some(s.as_str()));
    assert_eq!(r.p2pkh(), None);
    assert_eq!(r.p2sh(), None);
    assert_eq!(r.orchard(), None);
}

#[test]
fn p2sh_roundtrip_and_decomposition() {
    let s = ZcashAddress::from_transparent_p2sh(NetworkType::Main, [9u8; 20]).encode();
    assert_eq!(normalize_zcash_address(&s).unwrap(), s);
    assert_eq!(get_zcash_address_type(&s).unwrap(), "p2sh");
    let r = get_address_receivers(&s).unwrap();
    assert_eq!(r.p2sh(), Some(s.as_str()));
    assert_eq!(r.p2pkh(), None);
    assert_eq!(r.sapling(), None);
    assert_eq!(r.orchard(), None);
}

#[test]
fn tex_classifies_and_decomposes_to_p2pkh() {
    let hash = [5u8; 20];
    let tex = ZcashAddress::from_tex(NetworkType::Main, hash).encode();
    let p2pkh = ZcashAddress::from_transparent_p2pkh(NetworkType::Main, hash).encode();
    assert_eq!(normalize_zcash_address(&tex).unwrap(), tex);
    assert_eq!(get_zcash_address_type(&tex).unwrap(), "tex");
    let r = get_address_receivers(&tex).unwrap();
    assert_eq!(r.p2pkh(), Some(p2pkh.as_str()));
    assert_eq!(r.p2sh(), None);
    assert_eq!(r.sapling(), None);
    assert_eq!(r.orchard(), None);
    // The transcoded field is a valid p2pkh address in its own right.
    assert_eq!(get_zcash_address_type(&p2pkh).unwrap(), "p2pkh");
}

#[test]
fn unified_decomposition_is_complete() {
    let sap = [2u8; 43];
    let pkh = [3u8; 20];
    let orc = [4u8; 43];
    let ua = zcash_address::unified::Address::try_from_items(vec![
        Receiver::Sapling(sap),
        Receiver::P2pkh(pkh),
        Receiver::Orchard(orc),
    ])
    .unwrap();
    let ua_str = ua.encode(&NetworkType::Main);

    assert_eq!(get_zcash_address_type(&ua_str).unwrap(), "unified");
    assert_eq!(normalize_zcash_address(&ua_str).unwrap(), ua_str);

    let r = get_address_receivers(&ua_str).unwrap();
    let expect_p2pkh = ZcashAddress::from_transparent_p2pkh(NetworkType::Main, pkh).encode();
    let expect_sapling = ZcashAddress::from_sapling(NetworkType::Main, sap).encode();
    let orc_ua =
        zcash_address::unified::Address::try_from_items(vec![Receiver::Orchard(orc)]).unwrap();
    let expect_orchard = orc_ua.encode(&NetworkType::Main);

    assert_eq!(r.p2pkh(), Some(expect_p2pkh.as_str()));
    assert_eq!(r.sapling(), Some(expect_sapling.as_str()));
    assert_eq!(r.orchard(), Some(expect_orchard.as_str()));
    assert_eq!(r.p2sh(), None);

    // Each populated field is independently re-parseable and reclassifies
    // correctly; the orchard receiver comes back as a one-item unified
    // address.
    assert_eq!(get_zcash_address_type(r.p2pkh().unwrap()).unwrap(), "p2pkh");
    assert_eq!(
        get_zcash_address_type(r.sapling().unwrap()).unwrap(),
        "sapling"
    );
    assert_eq!(
        get_zcash_address_type(r.orchard().unwrap()).unwrap(),
        "unified"
    );
}

#[test]
fn unknown_receivers_are_dropped() {
    let sap = [6u8; 43];
    let ua = zcash_address::unified::Address::try_from_items(vec![
        Receiver::Sapling(sap),
        Receiver::Unknown {
            typecode: 0xfe,
            data: vec![1, 2, 3, 4],
        },
    ])
    .unwrap();
    let ua_str = ua.encode(&NetworkType::Main);
    let r = get_address_receivers(&ua_str).unwrap();
    let expect_sapling = ZcashAddress::from_sapling(NetworkType::Main, sap).encode();
    assert_eq!(r.sapling(), Some(expect_sapling.as_str()));
    assert_eq!(r.p2pkh(), None);
    assert_eq!(r.p2sh(), None);
    assert_eq!(r.orchard(), None);
}

#[test]
fn testnet_addresses_parse_under_their_own_prefixes() {
    let p = ZcashAddress::from_transparent_p2pkh(NetworkType::Test, [8u8; 20]).encode();
    assert_eq!(get_zcash_address_type(&p).unwrap(), "p2pkh");
    assert_eq!(normalize_zcash_address(&p).unwrap(), p);

    let s = ZcashAddress::from_sapling(NetworkType::Test, [8u8; 43]).encode();
    assert_eq!(get_zcash_address_type(&s).unwrap(), "sapling");
    assert_eq!(normalize_zcash_address(&s).unwrap(), s);

    let t = ZcashAddress::from_tex(NetworkType::Test, [8u8; 20]).encode();
    assert_eq!(get_zcash_address_type(&t).unwrap(), "tex");

    let r = ZcashAddress::from_sapling(NetworkType::Regtest, [8u8; 43]).encode();
    assert_eq!(get_zcash_address_type(&r).unwrap(), "sapling");
    assert_eq!(normalize_zcash_address(&r).unwrap(), r);
}

#[test]
fn uppercase_bech32_is_not_canonical() {
    let s = ZcashAddress::from_sapling(NetworkType::Main, [7u8; 43]).encode();
    let upper = s.to_uppercase();
    assert!(!is_valid_zcash_address(&upper));
}

#[test]
fn unified_testnet_roundtrip() {
    let ua = zcash_address::unified::Address::try_from_items(vec![
        Receiver::Sapling([1u8; 43]),
        Receiver::Orchard([2u8; 43]),
    ])
    .unwrap();
    let ua_str = ua.encode(&NetworkType::Test);
    assert_eq!(get_zcash_address_type(&ua_str).unwrap(), "unified");
    assert_eq!(normalize_zcash_address(&ua_str).unwrap(), ua_str);
    let r = get_address_receivers(&ua_str).unwrap();
    assert!(r.sapling().is_some());
    assert!(r.orchard().is_some());
    assert_eq!(r.p2pkh(), None);
    assert_eq!(r.p2sh(), None);
}

#[test]
fn short_runs_do_not_qualify() {
    // Nineteen alphanumeric characters: one short of the threshold.
    let input = "abcdefghij123456789";
    assert_eq!(
        normalize_zcash_address(input),
        Err(ParseFailure::NotAnAddress)
    );
}

#[test]
fn unified_with_p2sh_receiver() {
    let sh = [11u8; 20];
    let ua = zcash_address::unified::Address::try_from_items(vec![
        Receiver::P2sh(sh),
        Receiver::Orchard([12u8; 43]),
    ])
    .unwrap();
    let ua_str = ua.encode(&NetworkType::Main);
    let r = get_address_receivers(&ua_str).unwrap();
    let expect_p2sh = ZcashAddress::from_transparent_p2sh(NetworkType::Main, sh).encode();
    assert_eq!(r.p2sh(), Some(expect_p2sh.as_str()));
    assert_eq!(r.p2pkh(), None);
    assert_eq!(r.sapling(), None);
    assert!(r.orchard().is_some());
    assert_eq!(get_zcash_address_type(r.p2sh().unwrap()).unwrap(), "p2sh");
}

#[test]
fn regtest_unified_roundtrip() {
    let ua = zcash_address::unified::Address::try_from_items(vec![Receiver::Orchard([13u8; 43])])
        .unwrap();
    let ua_str = ua.encode(&NetworkType::Regtest);
    assert_eq!(get_zcash_address_type(&ua_str).unwrap(), "unified");
    assert_eq!(normalize_zcash_address(&ua_str).unwrap(), ua_str);
    let r = get_address_receivers(&ua_str).unwrap();
    // A lone orchard receiver re-wraps as the same single-item container.
    assert_eq!(r.orchard(), Some(ua_str.as_str()));
    assert_eq!(get_zcash_address_type(&ZcashAddress::from_tex(
        NetworkType::Regtest,
        [14u8; 20],
    )
    .encode())
    .unwrap(), "tex");
}
