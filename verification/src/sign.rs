//! Ed25519 signatures, as `roughenough` verifies them.

use roughenough::sign::Verifier;
use vstd::prelude::*;

verus! {

/// Whether `signature` is an Ed25519 signature of `data` under `public_key`,
/// as `roughenough::sign::Verifier` decides it.
pub uninterp spec fn signature_valid(public_key: Seq<u8>, signature: Seq<u8>, data: Seq<u8>) -> bool;

/// Feeds `data` to a `roughenough::sign::Verifier` for `public_key` and calls
/// `verify` with `sig`. Trusted: the answer depends on the three byte strings
/// alone; it is `signature_valid` of them.
#[verifier::external_body]
pub(crate) fn validate_sig(public_key: &[u8], sig: &[u8], data: &[u8]) -> (valid: bool)
    ensures
        valid == signature_valid(public_key@, sig@, data@),
{
    let mut verifier = Verifier::new(public_key);
    verifier.update(data);
    verifier.verify(sig)
}

} // verus!
