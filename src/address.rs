use sp_core::crypto::Ss58Codec;
use vstd::prelude::*;

use crate::call::AccountKey;

verus! {

/// Relies on `Ss58Codec::from_string` of `sp_core::sr25519::Public`: it reads
/// an SS58 address (or `0x` hex), with an optional soft derivation path, as a
/// 32-byte public key. Whether an address of a custom SS58 format is taken
/// depends on the process-wide default format, so nothing is promised of which
/// texts are read.
#[verifier::external_body]
pub(crate) fn parse_public(address: &str) -> (r: Option<AccountKey>) {
    sp_core::sr25519::Public::from_string(address).ok().map(|p| p.to_raw())
}

} // verus!
