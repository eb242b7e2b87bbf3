use vstd::prelude::*;

verus! {

/// The network context an address is encoded for. Every parse and every
/// re-encoding is performed against one of these; an address encoded for one
/// network fails to parse under another because its prefix differs.
#[derive(Clone, Copy, PartialEq, Eq, Structural, Debug)]
pub enum Network {
    Main,
    Test,
    Regtest,
}

/// One typed receiver carried inside a unified address.
#[derive(Debug)]
pub enum PoolReceiver {
    P2pkh { hash: Vec<u8> },
    P2sh { hash: Vec<u8> },
    Sapling { data: Vec<u8> },
    Orchard { data: Vec<u8> },
    Unknown { typecode: u32, data: Vec<u8> },
}

/// Spec-level value of a `PoolReceiver`: the payload as a byte sequence.
pub enum ReceiverV {
    P2pkh { hash: Seq<u8> },
    P2sh { hash: Seq<u8> },
    Sapling { data: Seq<u8> },
    Orchard { data: Seq<u8> },
    Unknown { typecode: u32, data: Seq<u8> },
}

impl View for PoolReceiver {
    type V = ReceiverV;

    open spec fn view(&self) -> ReceiverV {
        match self {
            PoolReceiver::P2pkh { hash } => ReceiverV::P2pkh { hash: hash@ },
            PoolReceiver::P2sh { hash } => ReceiverV::P2sh { hash: hash@ },
            PoolReceiver::Sapling { data } => ReceiverV::Sapling { data: data@ },
            PoolReceiver::Orchard { data } => ReceiverV::Orchard { data: data@ },
            PoolReceiver::Unknown { typecode, data } => ReceiverV::Unknown {
                typecode: *typecode,
                data: data@,
            },
        }
    }
}

/// A parsed, validated address: a closed union over the supported variants.
/// `Tex` carries a transparent-shaped payload whose semantic restriction
/// (no direct shielded-to-transparent transfer) is reported only through its
/// type tag; this library classifies it but does not enforce the restriction.
#[derive(Debug)]
pub enum ParsedAddress {
    P2pkh { net: Network, hash: Vec<u8> },
    P2sh { net: Network, hash: Vec<u8> },
    Sapling { net: Network, data: Vec<u8> },
    Tex { net: Network, hash: Vec<u8> },
    Unified { net: Network, receivers: Vec<PoolReceiver> },
}

/// Spec-level value of a `ParsedAddress`.
pub enum ParsedAddressV {
    P2pkh { net: Network, hash: Seq<u8> },
    P2sh { net: Network, hash: Seq<u8> },
    Sapling { net: Network, data: Seq<u8> },
    Tex { net: Network, hash: Seq<u8> },
    Unified { net: Network, receivers: Seq<ReceiverV> },
}

impl View for ParsedAddress {
    type V = ParsedAddressV;

    open spec fn view(&self) -> ParsedAddressV {
        match self {
            ParsedAddress::P2pkh { net, hash } => ParsedAddressV::P2pkh { net: *net, hash: hash@ },
            ParsedAddress::P2sh { net, hash } => ParsedAddressV::P2sh { net: *net, hash: hash@ },
            ParsedAddress::Sapling { net, data } => ParsedAddressV::Sapling { net: *net, data: data@ },
            ParsedAddress::Tex { net, hash } => ParsedAddressV::Tex { net: *net, hash: hash@ },
            ParsedAddress::Unified { net, receivers } => ParsedAddressV::Unified {
                net: *net,
                receivers: receivers@.map_values(|r: PoolReceiver| r@),
            },
        }
    }
}

/// The short symbolic label of each variant, as a character sequence.
pub open spec fn spec_tag(a: ParsedAddressV) -> Seq<char> {
    match a {
        ParsedAddressV::P2pkh { .. } => "p2pkh"@,
        ParsedAddressV::P2sh { .. } => "p2sh"@,
        ParsedAddressV::Sapling { .. } => "sapling"@,
        ParsedAddressV::Tex { .. } => "tex"@,
        ParsedAddressV::Unified { .. } => "unified"@,
    }
}

impl ParsedAddress {
    /// Maps each variant to its short symbolic label. This is the type-tag
    /// instantiation of the variant dispatch: the `match` is exhaustive over
    /// the closed union, so every variant is handled by construction.
    pub fn tag(&self) -> (r: &'static str)
        ensures
            r@ == spec_tag(self@),
    {
        match self {
            ParsedAddress::P2pkh { .. } => "p2pkh",
            ParsedAddress::P2sh { .. } => "p2sh",
            ParsedAddress::Sapling { .. } => "sapling",
            ParsedAddress::Tex { .. } => "tex",
            ParsedAddress::Unified { .. } => "unified",
        }
    }
}

} // verus!
