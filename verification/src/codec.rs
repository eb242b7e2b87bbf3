//! The checksummed string codecs, consumed as an opaque boundary.
//!
//! The library's own logic (token extraction, variant dispatch, classification
//! and decomposition) is verified; the low-level transforms between byte
//! payloads and checksum-protected text (Base58Check, Bech32, Bech32m, and the
//! unified-container codec) are performed by outside crates behind the trusted
//! items in this module. Each trusted contract states only what the outside
//! source shows; encoded forms themselves are left abstract, as named results.

use vstd::prelude::*;

use crate::address::{Network, PoolReceiver, ReceiverV};
use crate::extract::spec_is_alnum;
use zcash_address::unified;
use zcash_address::unified::{Container, Encoding};
use zcash_protocol::consensus::NetworkType;

verus! {

/// The unified-container type of the outside address crate, declared so that
/// values of it can be carried through signatures. It is opaque here: its
/// contents are reached only through `ua_items`.
#[verifier::external_type_specification]
#[verifier::external_body]
pub struct ExUnifiedAddress(unified::Address);

/// What decoding a candidate string as a unified container yields.
pub enum UaDecV {
    /// A structurally valid container for the given network, holding the
    /// given receivers in preference order.
    Found { net: Network, receivers: Seq<ReceiverV> },
    /// The string is not checksummed in the unified container's form at all.
    NotUnified,
    /// Checksummed in the right form, but under a human-readable prefix that
    /// belongs to no known network.
    UnknownPrefix,
    /// The outer form is right but a receiver inside is encoded wrongly.
    BadEncoding,
    /// The container violates a structural rule (duplicate or misordered
    /// typecodes, transparent-only receiver set, typecode out of range).
    BadContainer,
}

/// How an attempt to decode a string as a unified container failed.
#[derive(Clone, Copy, PartialEq, Eq, Structural, Debug)]
pub enum UaErr {
    NotUnified,
    UnknownPrefix,
    BadEncoding,
    BadContainer,
}

/// The result of decoding a string as a unified container.
pub uninterp spec fn ua_dec(s: Seq<char>) -> UaDecV;

/// The receivers a unified container holds, in preference order.
pub uninterp spec fn ua_items(ua: unified::Address) -> Seq<ReceiverV>;

/// Whether a container is within the length bounds under which the outside
/// crate's encoder is total.
pub uninterp spec fn ua_encodable(ua: unified::Address) -> bool;

/// The canonical string encoding of a unified container with the given
/// receivers (in preference order) for the given network.
pub uninterp spec fn ua_enc(net: Network, receivers: Seq<ReceiverV>) -> Seq<char>;

/// The Base58Check encoding of a byte payload.
pub uninterp spec fn b58_enc(payload: Seq<u8>) -> Seq<char>;

/// The payload a Base58Check string decodes to, if its checksum verifies.
pub uninterp spec fn b58_dec(s: Seq<char>) -> Option<Seq<u8>>;

/// The Bech32 encoding of a byte payload under a human-readable prefix.
pub uninterp spec fn b32_enc(hrp: Seq<char>, data: Seq<u8>) -> Seq<char>;

/// The prefix and payload a Bech32 string decodes to, if its checksum verifies.
pub uninterp spec fn b32_dec(s: Seq<char>) -> Option<(Seq<char>, Seq<u8>)>;

/// The Bech32m encoding of a byte payload under a human-readable prefix.
pub uninterp spec fn b32m_enc(hrp: Seq<char>, data: Seq<u8>) -> Seq<char>;

/// The prefix and payload a Bech32m string decodes to, if its checksum verifies.
pub uninterp spec fn b32m_dec(s: Seq<char>) -> Option<(Seq<char>, Seq<u8>)>;

/// Whether every receiver payload has the length its kind demands.
pub open spec fn receiver_wf(r: ReceiverV) -> bool {
    match r {
        ReceiverV::P2pkh { hash } => hash.len() == 20,
        ReceiverV::P2sh { hash } => hash.len() == 20,
        ReceiverV::Sapling { data } => data.len() == 43,
        ReceiverV::Orchard { data } => data.len() == 43,
        ReceiverV::Unknown { .. } => true,
    }
}

/// Relies on `unified::Address::decode`: it accepts exactly the strings that
/// are Bech32m-checksummed (under the extended code length of ZIP 316),
/// carry the unified prefix of a known network, and hold a structurally valid
/// receiver list. Its failures are mapped one arm per outside variant: the
/// two outside errors that mean "not this encoding at all" (`NotUnified`,
/// `UnknownPrefix`) keep those meanings, receiver-level encoding faults map
/// to `BadEncoding`, and the container-rule violations map to `BadContainer`.
/// A decoded container re-encodes within the codec's length bounds, since its
/// raw form was just decoded from them.
#[verifier::external_body]
pub(crate) fn ua_decode(s: &str) -> (r: Result<(Network, unified::Address), UaErr>)
    ensures
        r matches Ok((net, ua)) ==> ua_dec(s@) == (UaDecV::Found {
            net,
            receivers: ua_items(ua),
        }) && ua_encodable(ua),
        r matches Err(e) ==> ua_dec(s@) == (match e {
            UaErr::NotUnified => UaDecV::NotUnified,
            UaErr::UnknownPrefix => UaDecV::UnknownPrefix,
            UaErr::BadEncoding => UaDecV::BadEncoding,
            UaErr::BadContainer => UaDecV::BadContainer,
        }),
{
    match unified::Address::decode(s) {
        Ok((net, ua)) => Ok((
            match net {
                NetworkType::Main => Network::Main,
                NetworkType::Test => Network::Test,
                NetworkType::Regtest => Network::Regtest,
            },
            ua,
        )),
        Err(unified::ParseError::NotUnified) => Err(UaErr::NotUnified),
        Err(unified::ParseError::UnknownPrefix(_)) => Err(UaErr::UnknownPrefix),
        Err(unified::ParseError::InvalidEncoding(_)) => Err(UaErr::BadEncoding),
        Err(_) => Err(UaErr::BadContainer),
    }
}

/// Relies on `unified::Container::items`: it returns the container's
/// receivers, sorted into preference order; each payload is moved into the
/// library's receiver type unchanged. The fixed-size payload arrays of the
/// outside receiver enum give the length facts.
#[verifier::external_body]
pub(crate) fn ua_receivers(ua: &unified::Address) -> (r: Vec<PoolReceiver>)
    ensures
        r@.map_values(|p: PoolReceiver| p@) == ua_items(*ua),
        forall|i: int| 0 <= i < r@.len() ==> receiver_wf((#[trigger] r@[i])@),
{
    ua.items()
        .into_iter()
        .map(|rc| match rc {
            unified::Receiver::P2pkh(h) => PoolReceiver::P2pkh { hash: h.to_vec() },
            unified::Receiver::P2sh(h) => PoolReceiver::P2sh { hash: h.to_vec() },
            unified::Receiver::Sapling(d) => PoolReceiver::Sapling { data: d.to_vec() },
            unified::Receiver::Orchard(d) => PoolReceiver::Orchard { data: d.to_vec() },
            unified::Receiver::Unknown { typecode, data } => PoolReceiver::Unknown {
                typecode,
                data,
            },
        })
        .collect()
}

/// Relies on `unified::Encoding::try_from_items`: a single orchard receiver
/// is always accepted (one item is trivially sorted and duplicate-free, and
/// an orchard receiver is not transparent), and the resulting container is
/// well within the codec's length bounds.
#[verifier::external_body]
pub(crate) fn ua_from_orchard(data: &Vec<u8>) -> (r: Option<unified::Address>)
    requires
        data@.len() == 43,
    ensures
        r is Some,
        r matches Some(ua) ==> ua_items(ua) == seq![ReceiverV::Orchard { data: data@ }]
            && ua_encodable(ua),
{
    let arr: [u8; 43] = data.as_slice().try_into().ok()?;
    unified::Address::try_from_items(vec![unified::Receiver::Orchard(arr)]).ok()
}

/// Relies on `unified::Encoding::encode`: for a container within the codec's
/// length bounds it returns the canonical string, which is the network's
/// unified prefix (lowercase letters), the separator `1`, and Bech32m data
/// characters — all alphanumeric, and far longer than 20 characters because
/// the jumbled payload is at least 48 bytes. Decoding that string yields the
/// same network and the same receivers: the outside crate documents that its
/// encoding preserves the container's contents and order round-trip.
#[verifier::external_body]
pub(crate) fn ua_encode(net: Network, ua: &unified::Address) -> (r: String)
    requires
        ua_encodable(*ua),
    ensures
        r@ == ua_enc(net, ua_items(*ua)),
        ua_dec(r@) == (UaDecV::Found { net, receivers: ua_items(*ua) }),
        r@.len() >= 20,
        forall|i: int| 0 <= i < r@.len() ==> spec_is_alnum(r@[i]),
{
    let n = match net {
        Network::Main => NetworkType::Main,
        Network::Test => NetworkType::Test,
        Network::Regtest => NetworkType::Regtest,
    };
    ua.encode(&n)
}

/// Relies on `bech32::primitives::decode::CheckedHrpstring::new::<Bech32>`:
/// it accepts exactly the strings whose Bech32 checksum verifies, and yields
/// the human-readable prefix as parsed and the regrouped payload bytes.
#[verifier::external_body]
pub(crate) fn bech32_decode(s: &str) -> (r: Option<(String, Vec<u8>)>)
    ensures
        r matches Some((hrp, data)) ==> b32_dec(s@) == Some((hrp@, data@)),
        r is None ==> b32_dec(s@) is None,
{
    bech32::primitives::decode::CheckedHrpstring::new::<bech32::Bech32>(s)
        .ok()
        .map(|p| (p.hrp().as_str().to_string(), p.byte_iter().collect()))
}

/// Relies on `bech32::primitives::decode::CheckedHrpstring::new::<Bech32m>`,
/// as `bech32_decode` but for the Bech32m checksum.
#[verifier::external_body]
pub(crate) fn bech32m_decode(s: &str) -> (r: Option<(String, Vec<u8>)>)
    ensures
        r matches Some((hrp, data)) ==> b32m_dec(s@) == Some((hrp@, data@)),
        r is None ==> b32m_dec(s@) is None,
{
    bech32::primitives::decode::CheckedHrpstring::new::<bech32::Bech32m>(s)
        .ok()
        .map(|p| (p.hrp().as_str().to_string(), p.byte_iter().collect()))
}

/// Relies on `bech32::encode::<Bech32>`: for the admitted lengths the encoded
/// form fits the code length, so encoding cannot fail. The result is the
/// lowercase prefix, the separator `1`, one character per 5 payload bits, and
/// 6 checksum characters, all drawn from alphanumeric characters, and it
/// decodes back to the same prefix and payload. The Bech32 and Bech32m
/// checksums use the same generator with different target residues, so no
/// string verifies under both; the unified codec uses the Bech32m residue,
/// so a Bech32-checksummed string is not a unified string either.
#[verifier::external_body]
pub(crate) fn bech32_encode(hrp: &str, data: &Vec<u8>) -> (r: String)
    requires
        1 <= hrp@.len() <= 16,
        forall|i: int| 0 <= i < hrp@.len() ==> 'a' <= #[trigger] hrp@[i] <= 'z',
        data@.len() <= 128,
    ensures
        r@ == b32_enc(hrp@, data@),
        b32_dec(r@) == Some((hrp@, data@)),
        b32m_dec(r@) is None,
        ua_dec(r@) == UaDecV::NotUnified,
        r@.len() == hrp@.len() + 1 + (data@.len() * 8 + 4) / 5 + 6,
        forall|i: int| 0 <= i < r@.len() ==> spec_is_alnum(r@[i]),
{
    bech32::encode::<bech32::Bech32>(bech32::Hrp::parse_unchecked(hrp), data.as_slice())
        .expect("the admitted lengths fit within the code length")
}

/// Relies on `bech32::encode::<Bech32m>`, as `bech32_encode` but for the
/// Bech32m checksum. A Bech32m-checksummed string of these lengths also
/// verifies under the unified codec's checksum (same algorithm, larger code
/// length), so when the prefix is not a unified prefix of any network the
/// unified decoder rejects the string as prefix-unknown.
#[verifier::external_body]
pub(crate) fn bech32m_encode(hrp: &str, data: &Vec<u8>) -> (r: String)
    requires
        1 <= hrp@.len() <= 16,
        forall|i: int| 0 <= i < hrp@.len() ==> 'a' <= #[trigger] hrp@[i] <= 'z',
        data@.len() <= 128,
    ensures
        r@ == b32m_enc(hrp@, data@),
        b32m_dec(r@) == Some((hrp@, data@)),
        b32_dec(r@) is None,
        hrp@ != "u"@ && hrp@ != "utest"@ && hrp@ != "uregtest"@ ==> ua_dec(r@)
            == UaDecV::UnknownPrefix,
        r@.len() == hrp@.len() + 1 + (data@.len() * 8 + 4) / 5 + 6,
        forall|i: int| 0 <= i < r@.len() ==> spec_is_alnum(r@[i]),
{
    bech32::encode::<bech32::Bech32m>(bech32::Hrp::parse_unchecked(hrp), data.as_slice())
        .expect("the admitted lengths fit within the code length")
}

/// Relies on `bs58::decode` with checksum verification: it accepts exactly
/// the strings over the Base58 alphabet whose trailing 4-byte checksum
/// verifies, and yields the payload without the checksum.
#[verifier::external_body]
pub(crate) fn b58check_decode(s: &str) -> (r: Option<Vec<u8>>)
    ensures
        r matches Some(p) ==> b58_dec(s@) == Some(p@),
        r is None ==> b58_dec(s@) is None,
{
    bs58::decode(s).with_check(None).into_vec().ok()
}

/// Relies on `bs58::encode` with checksum: it appends a 4-byte checksum and
/// encodes over the Base58 alphabet, whose characters are all alphanumeric.
/// Each base-58 digit carries less than one byte, so the string is at least
/// as long as the checksummed payload, and Base58Check is one-to-one, so the
/// string decodes back to the payload. The separation of the address
/// encodings — relied on equally by the outside address crate's own parser
/// for its round-trip guarantee — means a Base58Check address string is not
/// accepted by the Bech32, Bech32m, or unified decoders.
#[verifier::external_body]
pub(crate) fn b58check_encode(payload: &Vec<u8>) -> (r: String)
    requires
        1 <= payload@.len() <= 128,
    ensures
        r@ == b58_enc(payload@),
        b58_dec(r@) == Some(payload@),
        b32_dec(r@) is None,
        b32m_dec(r@) is None,
        ua_dec(r@) == UaDecV::NotUnified,
        r@.len() >= payload@.len() + 4,
        forall|i: int| 0 <= i < r@.len() ==> spec_is_alnum(r@[i]),
{
    bs58::encode(payload.as_slice()).with_check().into_string()
}

} // verus!
