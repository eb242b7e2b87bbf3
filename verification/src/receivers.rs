//! Receiver decomposition: breaking an address into standalone single-pool
//! address strings.
//!
//! A single-pool address populates exactly the one matching field; a unified
//! address is walked receiver by receiver, each known receiver re-encoded as
//! a standalone address. An orchard receiver has no standalone legacy form
//! and is re-wrapped as a fresh single-item unified address; unknown
//! typecodes are dropped. Decomposition never fails: one unusable receiver
//! leaves its field absent instead of failing the whole record.

use vstd::prelude::*;

use crate::address::{Network, ParsedAddress, ParsedAddressV, PoolReceiver, ReceiverV, spec_tag};
use crate::codec::{
    b32_enc, b58_dec, b58_enc, b58check_encode, bech32_encode, ua_dec, ua_enc, ua_encode,
    ua_from_orchard, UaDecV,
};
use crate::parse::{
    addr_wf, canonical, sapling_hrp, spec_p2pkh_prefix, spec_p2sh_prefix, spec_parse,
    spec_sapling_hrp,
};

verus! {

/// Spec-level value of `AddressReceivers`: one optional re-encoded address
/// string per known pool kind.
pub struct ReceiversV {
    pub p2pkh: Option<Seq<char>>,
    pub p2sh: Option<Seq<char>>,
    pub sapling: Option<Seq<char>>,
    pub orchard: Option<Seq<char>>,
}

/// The decomposition result: at most one re-encoded standalone address
/// string per known pool kind. Fields for pool kinds with no corresponding
/// receiver stay absent; that is not an error.
#[derive(Debug)]
pub struct AddressReceivers {
    p2pkh: Option<String>,
    p2sh: Option<String>,
    sapling: Option<String>,
    orchard: Option<String>,
}

impl View for AddressReceivers {
    type V = ReceiversV;

    closed spec fn view(&self) -> ReceiversV {
        ReceiversV {
            p2pkh: match self.p2pkh {
                Some(s) => Some(s@),
                None => None,
            },
            p2sh: match self.p2sh {
                Some(s) => Some(s@),
                None => None,
            },
            sapling: match self.sapling {
                Some(s) => Some(s@),
                None => None,
            },
            orchard: match self.orchard {
                Some(s) => Some(s@),
                None => None,
            },
        }
    }
}

impl AddressReceivers {
    /// The standalone hashed-public-key address string, if one was found.
    pub fn p2pkh(&self) -> (r: Option<&str>)
        ensures
            r matches Some(s) ==> self@.p2pkh == Some(s@),
            r is None ==> self@.p2pkh is None,
    {
        match &self.p2pkh {
            Some(x) => Some(x.as_str()),
            None => None,
        }
    }

    /// The standalone hashed-script address string, if one was found.
    pub fn p2sh(&self) -> (r: Option<&str>)
        ensures
            r matches Some(s) ==> self@.p2sh == Some(s@),
            r is None ==> self@.p2sh is None,
    {
        match &self.p2sh {
            Some(x) => Some(x.as_str()),
            None => None,
        }
    }

    /// The standalone sapling address string, if one was found.
    pub fn sapling(&self) -> (r: Option<&str>)
        ensures
            r matches Some(s) ==> self@.sapling == Some(s@),
            r is None ==> self@.sapling is None,
    {
        match &self.sapling {
            Some(x) => Some(x.as_str()),
            None => None,
        }
    }

    /// The re-wrapped single-receiver unified address string holding the
    /// orchard receiver, if one was found.
    pub fn orchard(&self) -> (r: Option<&str>)
        ensures
            r matches Some(s) ==> self@.orchard == Some(s@),
            r is None ==> self@.orchard is None,
    {
        match &self.orchard {
            Some(x) => Some(x.as_str()),
            None => None,
        }
    }
}

/// The record with every field absent.
pub open spec fn spec_no_receivers() -> ReceiversV {
    ReceiversV { p2pkh: None, p2sh: None, sapling: None, orchard: None }
}

/// One step of the accumulation: how one receiver updates the record. A
/// later receiver of the same kind overwrites an earlier one — a defensive
/// fallback; the container's typecode-uniqueness invariant keeps it from
/// arising. Unknown typecodes leave the record unchanged.
pub open spec fn spec_add_receiver(net: Network, acc: ReceiversV, r: ReceiverV) -> ReceiversV {
    match r {
        ReceiverV::P2pkh { hash } => ReceiversV {
            p2pkh: Some(b58_enc(spec_p2pkh_prefix(net) + hash)),
            p2sh: acc.p2sh,
            sapling: acc.sapling,
            orchard: acc.orchard,
        },
        ReceiverV::P2sh { hash } => ReceiversV {
            p2pkh: acc.p2pkh,
            p2sh: Some(b58_enc(spec_p2sh_prefix(net) + hash)),
            sapling: acc.sapling,
            orchard: acc.orchard,
        },
        ReceiverV::Sapling { data } => ReceiversV {
            p2pkh: acc.p2pkh,
            p2sh: acc.p2sh,
            sapling: Some(b32_enc(spec_sapling_hrp(net), data)),
            orchard: acc.orchard,
        },
        ReceiverV::Orchard { data } => ReceiversV {
            p2pkh: acc.p2pkh,
            p2sh: acc.p2sh,
            sapling: acc.sapling,
            orchard: Some(ua_enc(net, seq![ReceiverV::Orchard { data }])),
        },
        ReceiverV::Unknown { .. } => acc,
    }
}

/// The accumulated record after walking the receivers in order.
pub open spec fn spec_collect(net: Network, rs: Seq<ReceiverV>) -> ReceiversV
    decreases rs.len(),
{
    if rs.len() == 0 {
        spec_no_receivers()
    } else {
        spec_add_receiver(net, spec_collect(net, rs.drop_last()), rs.last())
    }
}

/// What decomposing an address yields. A single-pool variant populates
/// exactly its own field — the restricted transparent variant populates the
/// hashed-public-key field, its restriction being carried only by the type
/// tag — and a unified variant accumulates over its receivers.
pub open spec fn spec_decompose(a: ParsedAddressV) -> ReceiversV {
    match a {
        ParsedAddressV::P2pkh { net, hash } => ReceiversV {
            p2pkh: Some(b58_enc(spec_p2pkh_prefix(net) + hash)),
            p2sh: None,
            sapling: None,
            orchard: None,
        },
        ParsedAddressV::P2sh { net, hash } => ReceiversV {
            p2pkh: None,
            p2sh: Some(b58_enc(spec_p2sh_prefix(net) + hash)),
            sapling: None,
            orchard: None,
        },
        ParsedAddressV::Sapling { net, data } => ReceiversV {
            p2pkh: None,
            p2sh: None,
            sapling: Some(b32_enc(spec_sapling_hrp(net), data)),
            orchard: None,
        },
        ParsedAddressV::Tex { net, hash } => ReceiversV {
            p2pkh: Some(b58_enc(spec_p2pkh_prefix(net) + hash)),
            p2sh: None,
            sapling: None,
            orchard: None,
        },
        ParsedAddressV::Unified { net, receivers } => spec_collect(net, receivers),
    }
}

/// A populated field holds a string that parses back to an address with the
/// given tag.
pub open spec fn field_reparses(v: Option<Seq<char>>, tag: Seq<char>) -> bool {
    match v {
        Some(c) => spec_parse(c) matches Ok(a) && spec_tag(a) == tag,
        None => true,
    }
}

/// Every populated field of the record parses back to an address of its own
/// kind: the transparent fields to transparent addresses, the sapling field
/// to a sapling address, and the orchard field to a (single-receiver)
/// unified address.
pub open spec fn fields_reparse(v: ReceiversV) -> bool {
    &&& field_reparses(v.p2pkh, "p2pkh"@)
    &&& field_reparses(v.p2sh, "p2sh"@)
    &&& field_reparses(v.sapling, "sapling"@)
    &&& field_reparses(v.orchard, "unified"@)
}

/// Encodes a transparent payload (two prefix bytes and a 20-byte hash) as a
/// standalone Base58Check address string.
fn encode_transparent(prefix0: u8, prefix1: u8, hash: &Vec<u8>) -> (r: String)
    requires
        hash@.len() == 20,
    ensures
        r@ == b58_enc(seq![prefix0, prefix1] + hash@),
        b58_dec(r@) == Some(seq![prefix0, prefix1] + hash@),
        ua_dec(r@) == UaDecV::NotUnified,
        crate::codec::b32_dec(r@) is None,
        crate::codec::b32m_dec(r@) is None,
{
    let mut payload: Vec<u8> = Vec::new();
    payload.push(prefix0);
    payload.push(prefix1);
    let mut k: usize = 0;
    while k < 20
        invariant
            0 <= k <= 20,
            hash@.len() == 20,
            payload@ == seq![prefix0, prefix1] + hash@.take(k as int),
        decreases 20 - k,
    {
        payload.push(hash[k]);
        k = k + 1;
        proof {
            assert(payload@ =~= seq![prefix0, prefix1] + hash@.take(k as int));
        }
    }
    proof {
        assert(payload@ =~= seq![prefix0, prefix1] + hash@);
    }
    b58check_encode(&payload)
}

/// The hashed-public-key field entry for the given network and hash, with
/// the facts needed to re-parse it.
fn encode_p2pkh_field(net: Network, hash: &Vec<u8>) -> (r: String)
    requires
        hash@.len() == 20,
    ensures
        r@ == b58_enc(spec_p2pkh_prefix(net) + hash@),
        spec_parse(r@) matches Ok(a) && spec_tag(a) == "p2pkh"@,
{
    let (p0, p1): (u8, u8) = match net {
        Network::Main => (0x1c, 0xb8),
        Network::Test => (0x1d, 0x25),
        Network::Regtest => (0x1d, 0x25),
    };
    let r = encode_transparent(p0, p1, hash);
    proof {
        let pay = seq![p0, p1] + hash@;
        assert(pay.len() == 22);
        assert(pay.subrange(0, 2) =~= seq![p0, p1]);
        assert(pay.subrange(2, 22) =~= hash@);
        assert(spec_p2pkh_prefix(net) + hash@ =~= pay);
    }
    r
}

/// The hashed-script field entry for the given network and hash, with the
/// facts needed to re-parse it.
fn encode_p2sh_field(net: Network, hash: &Vec<u8>) -> (r: String)
    requires
        hash@.len() == 20,
    ensures
        r@ == b58_enc(spec_p2sh_prefix(net) + hash@),
        spec_parse(r@) matches Ok(a) && spec_tag(a) == "p2sh"@,
{
    let (p0, p1): (u8, u8) = match net {
        Network::Main => (0x1c, 0xbd),
        Network::Test => (0x1c, 0xba),
        Network::Regtest => (0x1c, 0xba),
    };
    let r = encode_transparent(p0, p1, hash);
    proof {
        let pay = seq![p0, p1] + hash@;
        assert(pay.len() == 22);
        assert(pay.subrange(0, 2) =~= seq![p0, p1]);
        assert(pay.subrange(2, 22) =~= hash@);
        assert(spec_p2sh_prefix(net) + hash@ =~= pay);
    }
    r
}

/// The sapling field entry for the given network and payload, with the
/// facts needed to re-parse it.
fn encode_sapling_field(net: Network, data: &Vec<u8>) -> (r: String)
    requires
        data@.len() == 43,
    ensures
        r@ == b32_enc(spec_sapling_hrp(net), data@),
        spec_parse(r@) matches Ok(a) && spec_tag(a) == "sapling"@,
{
    proof {
        reveal_strlit("zs");
        reveal_strlit("ztestsapling");
        reveal_strlit("zregtestsapling");
    }
    bech32_encode(sapling_hrp(net), data)
}

/// Decomposes an address into its constituent receivers, each re-encoded as
/// a standalone address string. Total: every variant maps to a well-defined
/// (possibly partially empty) record.
pub fn decompose(addr: &ParsedAddress) -> (r: AddressReceivers)
    requires
        addr_wf(addr@),
    ensures
        r@ == spec_decompose(addr@),
        fields_reparse(r@),
{
    match addr {
        ParsedAddress::P2pkh { net, hash } => AddressReceivers {
            p2pkh: Some(encode_p2pkh_field(*net, hash)),
            p2sh: None,
            sapling: None,
            orchard: None,
        },
        ParsedAddress::P2sh { net, hash } => AddressReceivers {
            p2pkh: None,
            p2sh: Some(encode_p2sh_field(*net, hash)),
            sapling: None,
            orchard: None,
        },
        ParsedAddress::Sapling { net, data } => AddressReceivers {
            p2pkh: None,
            p2sh: None,
            sapling: Some(encode_sapling_field(*net, data)),
            orchard: None,
        },
        ParsedAddress::Tex { net, hash } => AddressReceivers {
            p2pkh: Some(encode_p2pkh_field(*net, hash)),
            p2sh: None,
            sapling: None,
            orchard: None,
        },
        ParsedAddress::Unified { net, receivers } => {
            proof {
                let items = receivers@.map_values(|p: PoolReceiver| p@);
                assert forall|i: int| 0 <= i < receivers@.len() implies crate::codec::receiver_wf(
                    (#[trigger] receivers@[i])@,
                ) by {
                    assert(items[i] == receivers@[i]@);
                }
            }
            decompose_unified(*net, receivers)
        },
    }
}

/// Walks the ordered receiver list once, accumulating the record.
fn decompose_unified(net: Network, receivers: &Vec<PoolReceiver>) -> (r: AddressReceivers)
    requires
        forall|i: int| 0 <= i < receivers@.len() ==> crate::codec::receiver_wf(
            (#[trigger] receivers@[i])@,
        ),
    ensures
        r@ == spec_collect(net, receivers@.map_values(|p: PoolReceiver| p@)),
        fields_reparse(r@),
{
    let ghost items = receivers@.map_values(|p: PoolReceiver| p@);
    let mut acc = AddressReceivers { p2pkh: None, p2sh: None, sapling: None, orchard: None };
    let n = receivers.len();
    let mut idx: usize = 0;
    while idx < n
        invariant
            0 <= idx <= n,
            n == receivers@.len(),
            items == receivers@.map_values(|p: PoolReceiver| p@),
            forall|i: int| 0 <= i < receivers@.len() ==> crate::codec::receiver_wf(
                (#[trigger] receivers@[i])@,
            ),
            acc@ == spec_collect(net, items.take(idx as int)),
            fields_reparse(acc@),
        decreases n - idx,
    {
        proof {
            assert(items[idx as int] == receivers@[idx as int]@);
        }
        match &receivers[idx] {
            PoolReceiver::P2pkh { hash } => {
                acc.p2pkh = Some(encode_p2pkh_field(net, hash));
            },
            PoolReceiver::P2sh { hash } => {
                acc.p2sh = Some(encode_p2sh_field(net, hash));
            },
            PoolReceiver::Sapling { data } => {
                acc.sapling = Some(encode_sapling_field(net, data));
            },
            PoolReceiver::Orchard { data } => {
                // An orchard receiver cannot stand alone in a legacy
                // encoding: re-wrap it as a fresh single-item unified
                // address. Were the re-wrap refused, the field would stay
                // absent rather than failing the decomposition.
                match ua_from_orchard(data) {
                    Some(ua) => {
                        acc.orchard = Some(ua_encode(net, &ua));
                    },
                    None => {},
                }
            },
            PoolReceiver::Unknown { .. } => {},
        }
        idx = idx + 1;
        proof {
            assert(items.take(idx as int).drop_last() =~= items.take(idx as int - 1));
            assert(items.take(idx as int).last() == items[idx as int - 1]);
        }
    }
    proof {
        assert(items.take(n as int) =~= items);
    }
    acc
}

/// SINGLE-POOL DECOMPOSITION. Decomposing a hashed-public-key, hashed-script
/// or sapling address populates exactly the one field matching its own type,
/// holding the address's canonical encoding; every other field is absent.
pub proof fn lemma_decompose_single_pool(a: ParsedAddressV)
    requires
        a matches ParsedAddressV::P2pkh { .. } || a matches ParsedAddressV::P2sh { .. }
            || a matches ParsedAddressV::Sapling { .. },
    ensures
        a matches ParsedAddressV::P2pkh { .. } ==> spec_decompose(a) == (ReceiversV {
            p2pkh: Some(canonical(a)),
            p2sh: None,
            sapling: None,
            orchard: None,
        }),
        a matches ParsedAddressV::P2sh { .. } ==> spec_decompose(a) == (ReceiversV {
            p2pkh: None,
            p2sh: Some(canonical(a)),
            sapling: None,
            orchard: None,
        }),
        a matches ParsedAddressV::Sapling { .. } ==> spec_decompose(a) == (ReceiversV {
            p2pkh: None,
            p2sh: None,
            sapling: Some(canonical(a)),
            orchard: None,
        }),
{
}

/// RESTRICTED-TRANSPARENT DECOMPOSITION. A restricted transparent address
/// carries its own tag, and decomposes to a populated hashed-public-key
/// field — the standalone transparent re-encoding of its payload — with
/// every other field absent. The restriction itself is not carried into the
/// record: callers must consult the tag.
pub proof fn lemma_decompose_tex(net: Network, hash: Seq<u8>)
    ensures
        spec_tag(ParsedAddressV::Tex { net, hash }) == "tex"@,
        spec_decompose(ParsedAddressV::Tex { net, hash }) == (ReceiversV {
            p2pkh: Some(b58_enc(spec_p2pkh_prefix(net) + hash)),
            p2sh: None,
            sapling: None,
            orchard: None,
        }),
{
}

/// DECOMPOSITION COMPLETENESS. A unified address built from an orchard, a
/// sapling and a hashed-public-key receiver (in preference order, as a
/// parsed container presents them) decomposes with exactly those three
/// fields populated and the hashed-script field absent.
pub proof fn lemma_decompose_unified_complete(
    net: Network,
    od: Seq<u8>,
    sd: Seq<u8>,
    ph: Seq<u8>,
)
    ensures
        ({
            let rs = seq![
                ReceiverV::Orchard { data: od },
                ReceiverV::Sapling { data: sd },
                ReceiverV::P2pkh { hash: ph },
            ];
            let d = spec_decompose(ParsedAddressV::Unified { net, receivers: rs });
            d.p2pkh == Some(b58_enc(spec_p2pkh_prefix(net) + ph)) && d.sapling == Some(
                b32_enc(spec_sapling_hrp(net), sd),
            ) && d.orchard == Some(ua_enc(net, seq![ReceiverV::Orchard { data: od }])) && d.p2sh
                is None
        }),
{
    let rs = seq![
        ReceiverV::Orchard { data: od },
        ReceiverV::Sapling { data: sd },
        ReceiverV::P2pkh { hash: ph },
    ];
    let r2 = seq![ReceiverV::Orchard { data: od }, ReceiverV::Sapling { data: sd }];
    let r1 = seq![ReceiverV::Orchard { data: od }];
    let r0 = Seq::<ReceiverV>::empty();
    assert(r1.drop_last() =~= r0);
    assert(r2.drop_last() =~= r1);
    assert(rs.drop_last() =~= r2);
    assert(spec_collect(net, r0) == spec_no_receivers());
    assert(spec_collect(net, r1) == spec_add_receiver(net, spec_collect(net, r0), r1.last()));
    assert(spec_collect(net, r2) == spec_add_receiver(net, spec_collect(net, r1), r2.last()));
    assert(spec_collect(net, rs) == spec_add_receiver(net, spec_collect(net, r2), rs.last()));
}

} // verus!
