//! Classification and decomposition of address strings for a ledger whose
//! address space spans several independent encodings: single-pool transparent
//! (hashed public key or hashed script), single-pool shielded sapling, a
//! restricted transparent variant, and a composite unified format bundling
//! multiple typed receivers.
//!
//! Every operation is a pure, synchronous string transformation: a candidate
//! token is recovered from noisy input, parsed into one of the known
//! variants, and — for unified addresses — decomposed into its constituent
//! single-pool addresses, each re-encoded as an independently valid address
//! string. The checksummed low-level codecs are outside collaborators behind
//! the trusted boundary in `codec`.

use vstd::prelude::*;

pub mod address;
pub mod codec;
pub mod extract;
pub mod parse;
pub mod receivers;

pub use crate::address::{Network, ParsedAddress, ParsedAddressV, PoolReceiver, ReceiverV};
pub use crate::extract::extract;
pub use crate::parse::{parse_with_canon, ParseFailure};
pub use crate::receivers::{decompose, AddressReceivers, ReceiversV};

verus! {

/// What the whole input pipeline yields: extraction, then parsing of the
/// candidate token. Inputs with no qualifying token are not addresses.
pub open spec fn spec_pipeline(s: Seq<char>) -> Result<ParsedAddressV, ParseFailure> {
    match crate::extract::spec_extract(s) {
        Some(t) => crate::parse::spec_parse(t),
        None => Err(ParseFailure::NotAnAddress),
    }
}

/// The canonical re-encoded address string of an input, or why it has none.
pub open spec fn spec_normalize(s: Seq<char>) -> Result<Seq<char>, ParseFailure> {
    match spec_pipeline(s) {
        Ok(a) => Ok(crate::parse::canonical(a)),
        Err(e) => Err(e),
    }
}

/// The type tag of an input's address, or why it has none.
pub open spec fn spec_classify(s: Seq<char>) -> Result<Seq<char>, ParseFailure> {
    match spec_pipeline(s) {
        Ok(a) => Ok(crate::address::spec_tag(a)),
        Err(e) => Err(e),
    }
}

/// The decomposed receivers of an input's address, or why it has none.
pub open spec fn spec_receivers_of(s: Seq<char>) -> Result<ReceiversV, ParseFailure> {
    match spec_pipeline(s) {
        Ok(a) => Ok(crate::receivers::spec_decompose(a)),
        Err(e) => Err(e),
    }
}

/// Parses an address from a string, tolerating invalid characters that
/// precede or follow the address token, and returns the parsed address
/// together with its canonical re-encoding.
fn parse_address(addr_str: &str) -> (r: Result<(ParsedAddress, String), ParseFailure>)
    ensures
        r matches Ok((a, c)) ==> spec_pipeline(addr_str@) == Ok::<ParsedAddressV, ParseFailure>(
            a@,
        ) && crate::parse::addr_wf(a@) && c@ == crate::parse::canonical(a@) && spec_pipeline(c@)
            == Ok::<ParsedAddressV, ParseFailure>(a@),
        r matches Err(e) ==> spec_pipeline(addr_str@) == Err::<ParsedAddressV, ParseFailure>(e),
{
    match extract(addr_str) {
        Some(token) => match parse_with_canon(token.as_str()) {
            Ok((a, c)) => {
                proof {
                    crate::extract::lemma_extract_self(c@);
                }
                Ok((a, c))
            },
            Err(e) => Err(e),
        },
        None => Err(ParseFailure::NotAnAddress),
    }
}

/// Returns the canonical re-encoded address string of the first address
/// token found in the input.
///
/// ROUND TRIP: a returned string normalizes to itself — already-canonical
/// inputs are idempotent. CLASSIFICATION STABILITY: the returned string
/// classifies exactly as the input it came from.
pub fn normalize_zcash_address(addr_str: &str) -> (r: Result<String, ParseFailure>)
    ensures
        r matches Ok(t) ==> spec_normalize(addr_str@) == Ok::<Seq<char>, ParseFailure>(t@)
            && spec_normalize(t@) == Ok::<Seq<char>, ParseFailure>(t@) && spec_classify(t@)
            == spec_classify(addr_str@),
        r matches Err(e) ==> spec_normalize(addr_str@) == Err::<Seq<char>, ParseFailure>(e),
{
    match parse_address(addr_str) {
        Ok((_a, c)) => Ok(c),
        Err(e) => Err(e),
    }
}

/// Checks whether the input holds a valid address: every failure collapses
/// to `false`.
pub fn is_valid_zcash_address(addr_str: &str) -> (r: bool)
    ensures
        r == (spec_pipeline(addr_str@) is Ok),
{
    match parse_address(addr_str) {
        Ok(_) => true,
        Err(_) => false,
    }
}

/// The short symbolic label of an address variant, as produced by the
/// type-tag dispatch.
pub struct AddressType(pub &'static str);

impl AddressType {
    /// The type-tag dispatch: every variant of the closed union maps to its
    /// label.
    pub fn of(addr: &ParsedAddress) -> (r: AddressType)
        ensures
            r.0@ == crate::address::spec_tag(addr@),
    {
        AddressType(addr.tag())
    }
}

/// Returns the type tag of the first address token found in the input:
/// `"p2pkh"`, `"p2sh"`, `"sapling"`, `"unified"` or `"tex"`.
pub fn get_zcash_address_type(addr_str: &str) -> (r: Result<String, ParseFailure>)
    ensures
        r matches Ok(t) ==> spec_classify(addr_str@) == Ok::<Seq<char>, ParseFailure>(t@),
        r matches Err(e) ==> spec_classify(addr_str@) == Err::<Seq<char>, ParseFailure>(e),
{
    match parse_address(addr_str) {
        Ok((a, _c)) => Ok(AddressType::of(&a).0.to_string()),
        Err(e) => Err(e),
    }
}

/// Decomposes the first address token found in the input into its
/// constituent receivers, each re-encoded as a standalone address string.
///
/// A caller must check separately (via [`get_zcash_address_type`]) whether
/// the address is a restricted transparent address before sending from a
/// shielded pool to a hashed-public-key address taken from the result: the
/// record itself does not carry the restriction.
pub fn get_address_receivers(addr_str: &str) -> (r: Result<AddressReceivers, ParseFailure>)
    ensures
        r matches Ok(v) ==> spec_receivers_of(addr_str@) == Ok::<ReceiversV, ParseFailure>(v@)
            && crate::receivers::fields_reparse(v@),
        r matches Err(e) ==> spec_receivers_of(addr_str@) == Err::<ReceiversV, ParseFailure>(e),
{
    match parse_address(addr_str) {
        Ok((a, _c)) => Ok(decompose(&a)),
        Err(e) => Err(e),
    }
}

/// NOISE TOLERANCE. Surrounding a qualifying address token with noise that
/// holds no qualifying alphanumeric window, and that does not touch the
/// token with an alphanumeric character, changes neither what normalization
/// returns nor how the input classifies.
pub proof fn lemma_normalize_noise(p: Seq<char>, s: Seq<char>, q: Seq<char>)
    requires
        s.len() >= crate::extract::min_token_len(),
        forall|k: int| 0 <= k < s.len() ==> crate::extract::spec_is_alnum(#[trigger] s[k]),
        p.len() == 0 || !crate::extract::spec_is_alnum(p[p.len() - 1]),
        q.len() == 0 || !crate::extract::spec_is_alnum(q[0]),
        forall|k: int| 0 <= k <= p.len() - crate::extract::min_token_len()
            ==> #[trigger] crate::extract::window_has_gap(p, k),
    ensures
        spec_normalize(p + s + q) == spec_normalize(s),
        spec_classify(p + s + q) == spec_classify(s),
        spec_receivers_of(p + s + q) == spec_receivers_of(s),
{
    crate::extract::lemma_extract_noise(p, s, q);
}

} // verus!
