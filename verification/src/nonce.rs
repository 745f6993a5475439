//! Nonce derivation: a 32-byte content digest is stretched to the 64 bytes
//! that a request carries.

use crate::encoding::{bytes_view, decode_hex, hex_decoding};
use crate::error::{Input, StampError};
use vstd::prelude::*;

verus! {

/// Length in bytes of a content digest.
pub const DIGEST_LENGTH: usize = 32;

/// Length in bytes of a request nonce.
pub const NONCE_LENGTH: usize = 64;

/// The nonce that belongs to `digest`: the digest itself, followed by its
/// bytes in reverse order.
pub open spec fn mirrored(digest: Seq<u8>) -> Seq<u8> {
    digest + digest.reverse()
}

/// The nonce for a digest given as text, from what the text decodes to as
/// hex.
pub open spec fn nonce_of(decoded: Option<Seq<u8>>) -> Result<Seq<u8>, StampError> {
    match decoded {
        None => Err(StampError::CallerInput(Input::DigestEncoding)),
        Some(digest) => if digest.len() == DIGEST_LENGTH {
            Ok(mirrored(digest))
        } else {
            Err(StampError::CallerInput(Input::DigestLength))
        },
    }
}

/// The nonce held by `r`, or its error.
pub open spec fn nonce_view(r: Result<Vec<u8>, StampError>) -> Result<Seq<u8>, StampError> {
    match r {
        Ok(nonce) => Ok(nonce@),
        Err(e) => Err(e),
    }
}

/// A nonce begins with its digest, and the digest can be read off it: two
/// digests with the same nonce are the same digest.
pub proof fn lemma_mirrored_injective(a: Seq<u8>, b: Seq<u8>)
    ensures
        mirrored(a).len() == 2 * a.len(),
        mirrored(a).take(a.len() as int) == a,
        mirrored(a) == mirrored(b) ==> a == b,
{
    assert(mirrored(a).take(a.len() as int) =~= a);
    assert(mirrored(b).take(b.len() as int) =~= b);
}

/// Expands a digest into a nonce of twice its length by mirroring it.
pub fn expand_digest(digest: [u8; 32]) -> (nonce: [u8; 64])
    ensures
        nonce@ == mirrored(digest@),
        nonce@.take(32) == digest@,
{
    let mut r: [u8; 64] = [0u8; 64];
    let mut i: usize = 0;
    while i < 32
        invariant
            i <= 32,
            forall|k: int| 0 <= k < i ==> r@[k] == digest@[k],
            forall|k: int| 0 <= k < i ==> r@[63 - k] == digest@[k],
        decreases 32 - i,
    {
        r[i] = digest[i];
        r[63 - i] = digest[i];
        i += 1;
    }
    assert(r@ =~= mirrored(digest@));
    assert(r@.take(32) =~= digest@);
    r
}

/// Derives the nonce from what a digest's text decoded to. Fails with
/// `CallerInput(DigestEncoding)` where the text did not decode, and with
/// `CallerInput(DigestLength)` where it decoded to other than 32 bytes.
pub fn digest64_from_decoded(decoded: Option<Vec<u8>>) -> (r: Result<Vec<u8>, StampError>)
    ensures
        nonce_view(r) == nonce_of(bytes_view(decoded)),
{
    match decoded {
        None => Err(StampError::CallerInput(Input::DigestEncoding)),
        Some(bytes) => {
            if bytes.len() != DIGEST_LENGTH {
                return Err(StampError::CallerInput(Input::DigestLength));
            }
            let mut digest: [u8; 32] = [0u8; 32];
            let mut i: usize = 0;
            while i < 32
                invariant
                    i <= 32,
                    bytes@.len() == 32,
                    forall|k: int| 0 <= k < i ==> digest@[k] == bytes@[k],
                decreases 32 - i,
            {
                digest[i] = bytes[i];
                i += 1;
            }
            assert(digest@ =~= bytes@);
            let expanded = expand_digest(digest);
            let mut nonce: Vec<u8> = Vec::with_capacity(NONCE_LENGTH);
            let mut j: usize = 0;
            while j < 64
                invariant
                    j <= 64,
                    nonce@.len() == j,
                    forall|k: int| 0 <= k < j ==> nonce@[k] == expanded@[k],
                decreases 64 - j,
            {
                nonce.push(expanded[j]);
                j += 1;
            }
            assert(nonce@ =~= expanded@);
            Ok(nonce)
        },
    }
}

/// Derives the nonce for a digest given as a hex string.
pub fn hex_digest_to_digest64(digest: &str) -> (r: Result<Vec<u8>, StampError>)
    ensures
        nonce_view(r) == nonce_of(hex_decoding(digest@)),
{
    digest64_from_decoded(decode_hex(digest))
}

} // verus!
