//! Variant dispatch: parsing a candidate token into a classified address.
//!
//! The candidate is tried against the known encodings in a fixed order:
//! unified container first, then Bech32 (shielded sapling), then Bech32m
//! (restricted transparent), then Base58Check (transparent). The prefix
//! tables below are the library's knowledge of which network and variant each
//! checksummed form belongs to; the checksummed forms themselves are decoded
//! by the codec boundary.

use vstd::prelude::*;

use crate::address::{Network, ParsedAddress, ParsedAddressV, PoolReceiver, ReceiverV};
use crate::codec::{
    b32_dec, b32_enc, b32m_dec, b32m_enc, b58_dec, b58_enc, b58check_decode, b58check_encode,
    bech32_decode, bech32_encode, bech32m_decode, bech32m_encode, receiver_wf, ua_dec, ua_decode,
    ua_enc, ua_encode, ua_receivers, UaDecV, UaErr,
};
use crate::extract::{spec_is_alnum, str_eq};

verus! {

/// Why an input could not be turned into an address.
#[derive(Clone, Copy, PartialEq, Eq, Structural, Debug)]
pub enum ParseFailure {
    /// Token extraction found no qualifying substring.
    NotAnAddress,
    /// The token is not checksummed under any known encoding.
    UnrecognizedEncoding,
    /// The token decodes structurally but fails integrity or network
    /// verification: an unknown prefix, or a payload of the wrong length.
    ChecksumOrNetworkMismatch,
    /// The token is a unified container that violates a structural rule.
    MalformedUnifiedContainer,
}

/// The human-readable prefix of a shielded sapling address.
pub open spec fn spec_sapling_hrp(net: Network) -> Seq<char> {
    match net {
        Network::Main => "zs"@,
        Network::Test => "ztestsapling"@,
        Network::Regtest => "zregtestsapling"@,
    }
}

/// Executable table for `spec_sapling_hrp`.
pub fn sapling_hrp(net: Network) -> (r: &'static str)
    ensures
        r@ == spec_sapling_hrp(net),
{
    match net {
        Network::Main => "zs",
        Network::Test => "ztestsapling",
        Network::Regtest => "zregtestsapling",
    }
}

/// The human-readable prefix of a restricted transparent address.
pub open spec fn spec_tex_hrp(net: Network) -> Seq<char> {
    match net {
        Network::Main => "tex"@,
        Network::Test => "textest"@,
        Network::Regtest => "texregtest"@,
    }
}

/// Executable table for `spec_tex_hrp`.
pub fn tex_hrp(net: Network) -> (r: &'static str)
    ensures
        r@ == spec_tex_hrp(net),
{
    match net {
        Network::Main => "tex",
        Network::Test => "textest",
        Network::Regtest => "texregtest",
    }
}

/// The two lead bytes of a Base58Check hashed-public-key address. The
/// testnet prefix also covers regtest, whose transparent encoding is shared
/// with testnet; a decoded transparent address is therefore never classified
/// as regtest.
pub open spec fn spec_p2pkh_prefix(net: Network) -> Seq<u8> {
    match net {
        Network::Main => seq![0x1cu8, 0xb8u8],
        Network::Test => seq![0x1du8, 0x25u8],
        Network::Regtest => seq![0x1du8, 0x25u8],
    }
}

/// The two lead bytes of a Base58Check hashed-script address.
pub open spec fn spec_p2sh_prefix(net: Network) -> Seq<u8> {
    match net {
        Network::Main => seq![0x1cu8, 0xbdu8],
        Network::Test => seq![0x1cu8, 0xbau8],
        Network::Regtest => seq![0x1cu8, 0xbau8],
    }
}

/// Every payload inside the address has the length its variant demands.
pub open spec fn addr_wf(a: ParsedAddressV) -> bool {
    match a {
        ParsedAddressV::P2pkh { hash, .. } => hash.len() == 20,
        ParsedAddressV::P2sh { hash, .. } => hash.len() == 20,
        ParsedAddressV::Sapling { data, .. } => data.len() == 43,
        ParsedAddressV::Tex { hash, .. } => hash.len() == 20,
        ParsedAddressV::Unified { receivers, .. } => forall|i: int|
            0 <= i < receivers.len() ==> receiver_wf(#[trigger] receivers[i]),
    }
}

/// The canonical string encoding of an address.
pub open spec fn canonical(a: ParsedAddressV) -> Seq<char> {
    match a {
        ParsedAddressV::P2pkh { net, hash } => b58_enc(spec_p2pkh_prefix(net) + hash),
        ParsedAddressV::P2sh { net, hash } => b58_enc(spec_p2sh_prefix(net) + hash),
        ParsedAddressV::Sapling { net, data } => b32_enc(spec_sapling_hrp(net), data),
        ParsedAddressV::Tex { net, hash } => b32m_enc(spec_tex_hrp(net), hash),
        ParsedAddressV::Unified { net, receivers } => ua_enc(net, receivers),
    }
}

/// Classification of a Bech32-checksummed token: the prefix selects the
/// network of a sapling address, whose payload must be 43 bytes.
pub open spec fn spec_parse_sapling(hrp: Seq<char>, data: Seq<u8>) -> Result<
    ParsedAddressV,
    ParseFailure,
> {
    if hrp == spec_sapling_hrp(Network::Main) {
        spec_sapling_of(Network::Main, data)
    } else if hrp == spec_sapling_hrp(Network::Test) {
        spec_sapling_of(Network::Test, data)
    } else if hrp == spec_sapling_hrp(Network::Regtest) {
        spec_sapling_of(Network::Regtest, data)
    } else {
        Err(ParseFailure::ChecksumOrNetworkMismatch)
    }
}

pub open spec fn spec_sapling_of(net: Network, data: Seq<u8>) -> Result<
    ParsedAddressV,
    ParseFailure,
> {
    if data.len() == 43 {
        Ok(ParsedAddressV::Sapling { net, data })
    } else {
        Err(ParseFailure::ChecksumOrNetworkMismatch)
    }
}

/// Classification of a Bech32m-checksummed token: the prefix selects the
/// network of a restricted transparent address, whose payload must be 20
/// bytes.
pub open spec fn spec_parse_tex(hrp: Seq<char>, data: Seq<u8>) -> Result<
    ParsedAddressV,
    ParseFailure,
> {
    if hrp == spec_tex_hrp(Network::Main) {
        spec_tex_of(Network::Main, data)
    } else if hrp == spec_tex_hrp(Network::Test) {
        spec_tex_of(Network::Test, data)
    } else if hrp == spec_tex_hrp(Network::Regtest) {
        spec_tex_of(Network::Regtest, data)
    } else {
        Err(ParseFailure::ChecksumOrNetworkMismatch)
    }
}

pub open spec fn spec_tex_of(net: Network, data: Seq<u8>) -> Result<ParsedAddressV, ParseFailure> {
    if data.len() == 20 {
        Ok(ParsedAddressV::Tex { net, hash: data })
    } else {
        Err(ParseFailure::ChecksumOrNetworkMismatch)
    }
}

/// Classification of a Base58Check payload: two lead bytes select variant
/// and network of a transparent address, followed by a 20-byte hash.
pub open spec fn spec_parse_b58(payload: Seq<u8>) -> Result<ParsedAddressV, ParseFailure> {
    if payload.len() == 22 {
        if payload.subrange(0, 2) == spec_p2pkh_prefix(Network::Main) {
            Ok(ParsedAddressV::P2pkh { net: Network::Main, hash: payload.subrange(2, 22) })
        } else if payload.subrange(0, 2) == spec_p2sh_prefix(Network::Main) {
            Ok(ParsedAddressV::P2sh { net: Network::Main, hash: payload.subrange(2, 22) })
        } else if payload.subrange(0, 2) == spec_p2pkh_prefix(Network::Test) {
            Ok(ParsedAddressV::P2pkh { net: Network::Test, hash: payload.subrange(2, 22) })
        } else if payload.subrange(0, 2) == spec_p2sh_prefix(Network::Test) {
            Ok(ParsedAddressV::P2sh { net: Network::Test, hash: payload.subrange(2, 22) })
        } else {
            Err(ParseFailure::ChecksumOrNetworkMismatch)
        }
    } else {
        Err(ParseFailure::ChecksumOrNetworkMismatch)
    }
}

/// What parsing a candidate token yields: the encodings are tried in a fixed
/// order, and a token that decodes under none of them is unrecognized. A
/// unified decode that fails for a reason other than "not this encoding"
/// is terminal, exactly as the dispatch of the outside address crate treats
/// it.
pub open spec fn spec_parse(t: Seq<char>) -> Result<ParsedAddressV, ParseFailure> {
    match ua_dec(t) {
        UaDecV::Found { net, receivers } => Ok(ParsedAddressV::Unified { net, receivers }),
        UaDecV::BadEncoding => Err(ParseFailure::UnrecognizedEncoding),
        UaDecV::BadContainer => Err(ParseFailure::MalformedUnifiedContainer),
        _ => match b32_dec(t) {
            Some((hrp, data)) => spec_parse_sapling(hrp, data),
            None => match b32m_dec(t) {
                Some((hrp, data)) => spec_parse_tex(hrp, data),
                None => match b58_dec(t) {
                    Some(payload) => spec_parse_b58(payload),
                    None => Err(ParseFailure::UnrecognizedEncoding),
                },
            },
        },
    }
}

/// Copies the 20-byte hash out of a 22-byte Base58Check payload.
fn tail_hash(payload: &Vec<u8>) -> (r: Vec<u8>)
    requires
        payload@.len() == 22,
    ensures
        r@ == payload@.subrange(2, 22),
{
    let mut hash: Vec<u8> = Vec::new();
    let mut k: usize = 2;
    while k < 22
        invariant
            2 <= k <= 22,
            payload@.len() == 22,
            hash@ == payload@.subrange(2, k as int),
        decreases 22 - k,
    {
        hash.push(payload[k]);
        k = k + 1;
        proof {
            assert(hash@ =~= payload@.subrange(2, k as int));
        }
    }
    proof {
        assert(hash@ =~= payload@.subrange(2, 22));
    }
    hash
}

/// Parses a candidate token and computes its canonical re-encoding.
///
/// On success the returned string is the canonical form of the parsed
/// address, and parsing that string again yields the same address: the
/// canonical form is itself a plain alphanumeric token of qualifying length,
/// so normalization is idempotent and classification is stable across it.
pub fn parse_with_canon(token: &str) -> (r: Result<(ParsedAddress, String), ParseFailure>)
    ensures
        r matches Ok((a, c)) ==> spec_parse(token@) == Ok::<ParsedAddressV, ParseFailure>(a@)
            && addr_wf(a@) && c@ == canonical(a@) && spec_parse(c@) == Ok::<
            ParsedAddressV,
            ParseFailure,
        >(a@) && c@.len() >= 20 && (forall|i: int|
            0 <= i < c@.len() ==> spec_is_alnum(#[trigger] c@[i])),
        r matches Err(e) ==> spec_parse(token@) == Err::<ParsedAddressV, ParseFailure>(e),
{
    match ua_decode(token) {
        Ok((net, ua)) => {
            let receivers = ua_receivers(&ua);
            let canon = ua_encode(net, &ua);
            let a = ParsedAddress::Unified { net, receivers };
            proof {
                assert(a@ == (ParsedAddressV::Unified {
                    net,
                    receivers: receivers@.map_values(|p: PoolReceiver| p@),
                }));
                let items = receivers@.map_values(|p: PoolReceiver| p@);
                assert forall|i: int| 0 <= i < items.len() implies receiver_wf(
                    #[trigger] items[i],
                ) by {
                    assert(items[i] == receivers@[i]@);
                }
            }
            Ok((a, canon))
        },
        Err(UaErr::BadEncoding) => Err(ParseFailure::UnrecognizedEncoding),
        Err(UaErr::BadContainer) => Err(ParseFailure::MalformedUnifiedContainer),
        Err(_) => {
            match bech32_decode(token) {
                Some((hrp, data)) => parse_sapling_token(token, &hrp, data),
                None => match bech32m_decode(token) {
                    Some((hrp, data)) => parse_tex_token(token, &hrp, data),
                    None => match b58check_decode(token) {
                        Some(payload) => parse_b58_token(token, payload),
                        None => Err(ParseFailure::UnrecognizedEncoding),
                    },
                },
            }
        },
    }
}

/// The sapling arm of the dispatch: `token` decoded under Bech32 to `(hrp,
/// data)`, and neither the unified nor (a fortiori) any later decoder claims
/// it.
fn parse_sapling_token(token: &str, hrp: &String, data: Vec<u8>) -> (r: Result<
    (ParsedAddress, String),
    ParseFailure,
>)
    requires
        b32_dec(token@) == Some((hrp@, data@)),
        ua_dec(token@) == UaDecV::NotUnified || ua_dec(token@) == UaDecV::UnknownPrefix,
    ensures
        r matches Ok((a, c)) ==> spec_parse(token@) == Ok::<ParsedAddressV, ParseFailure>(a@)
            && addr_wf(a@) && c@ == canonical(a@) && spec_parse(c@) == Ok::<
            ParsedAddressV,
            ParseFailure,
        >(a@) && c@.len() >= 20 && (forall|i: int|
            0 <= i < c@.len() ==> spec_is_alnum(#[trigger] c@[i])),
        r matches Err(e) ==> spec_parse(token@) == Err::<ParsedAddressV, ParseFailure>(e),
{
    proof {
        reveal_strlit("zs");
        reveal_strlit("ztestsapling");
        reveal_strlit("zregtestsapling");
    }
    let net: Network = if str_eq(hrp.as_str(), "zs") {
        Network::Main
    } else if str_eq(hrp.as_str(), "ztestsapling") {
        Network::Test
    } else if str_eq(hrp.as_str(), "zregtestsapling") {
        Network::Regtest
    } else {
        return Err(ParseFailure::ChecksumOrNetworkMismatch);
    };
    if data.len() != 43 {
        return Err(ParseFailure::ChecksumOrNetworkMismatch);
    }
    let canon = bech32_encode(sapling_hrp(net), &data);
    let a = ParsedAddress::Sapling { net, data };
    Ok((a, canon))
}

/// The restricted-transparent arm of the dispatch: `token` decoded under
/// Bech32m to `(hrp, data)`, and no earlier decoder claims it.
fn parse_tex_token(token: &str, hrp: &String, data: Vec<u8>) -> (r: Result<
    (ParsedAddress, String),
    ParseFailure,
>)
    requires
        b32m_dec(token@) == Some((hrp@, data@)),
        b32_dec(token@) is None,
        ua_dec(token@) == UaDecV::NotUnified || ua_dec(token@) == UaDecV::UnknownPrefix,
    ensures
        r matches Ok((a, c)) ==> spec_parse(token@) == Ok::<ParsedAddressV, ParseFailure>(a@)
            && addr_wf(a@) && c@ == canonical(a@) && spec_parse(c@) == Ok::<
            ParsedAddressV,
            ParseFailure,
        >(a@) && c@.len() >= 20 && (forall|i: int|
            0 <= i < c@.len() ==> spec_is_alnum(#[trigger] c@[i])),
        r matches Err(e) ==> spec_parse(token@) == Err::<ParsedAddressV, ParseFailure>(e),
{
    proof {
        reveal_strlit("tex");
        reveal_strlit("textest");
        reveal_strlit("texregtest");
        reveal_strlit("u");
        reveal_strlit("utest");
        reveal_strlit("uregtest");
    }
    let net: Network = if str_eq(hrp.as_str(), "tex") {
        Network::Main
    } else if str_eq(hrp.as_str(), "textest") {
        Network::Test
    } else if str_eq(hrp.as_str(), "texregtest") {
        Network::Regtest
    } else {
        return Err(ParseFailure::ChecksumOrNetworkMismatch);
    };
    if data.len() != 20 {
        return Err(ParseFailure::ChecksumOrNetworkMismatch);
    }
    let canon = bech32m_encode(tex_hrp(net), &data);
    let a = ParsedAddress::Tex { net, hash: data };
    Ok((a, canon))
}

/// The transparent arm of the dispatch: `token` decoded under Base58Check to
/// `payload`, and no earlier decoder claims it.
fn parse_b58_token(token: &str, payload: Vec<u8>) -> (r: Result<
    (ParsedAddress, String),
    ParseFailure,
>)
    requires
        b58_dec(token@) == Some(payload@),
        b32m_dec(token@) is None,
        b32_dec(token@) is None,
        ua_dec(token@) == UaDecV::NotUnified || ua_dec(token@) == UaDecV::UnknownPrefix,
    ensures
        r matches Ok((a, c)) ==> spec_parse(token@) == Ok::<ParsedAddressV, ParseFailure>(a@)
            && addr_wf(a@) && c@ == canonical(a@) && spec_parse(c@) == Ok::<
            ParsedAddressV,
            ParseFailure,
        >(a@) && c@.len() >= 20 && (forall|i: int|
            0 <= i < c@.len() ==> spec_is_alnum(#[trigger] c@[i])),
        r matches Err(e) ==> spec_parse(token@) == Err::<ParsedAddressV, ParseFailure>(e),
{
    if payload.len() != 22 {
        return Err(ParseFailure::ChecksumOrNetworkMismatch);
    }
    let b0 = payload[0];
    let b1 = payload[1];
    let a = if b0 == 0x1c && b1 == 0xb8 {
        ParsedAddress::P2pkh { net: Network::Main, hash: tail_hash(&payload) }
    } else if b0 == 0x1c && b1 == 0xbd {
        ParsedAddress::P2sh { net: Network::Main, hash: tail_hash(&payload) }
    } else if b0 == 0x1d && b1 == 0x25 {
        ParsedAddress::P2pkh { net: Network::Test, hash: tail_hash(&payload) }
    } else if b0 == 0x1c && b1 == 0xba {
        ParsedAddress::P2sh { net: Network::Test, hash: tail_hash(&payload) }
    } else {
        return Err(ParseFailure::ChecksumOrNetworkMismatch);
    };
    proof {
        assert(payload@.subrange(0, 2) =~= seq![b0, b1]);
        assert(payload@ =~= payload@.subrange(0, 2) + payload@.subrange(2, 22));
    }
    let canon = b58check_encode(&payload);
    Ok((a, canon))
}

} // verus!
