//! The ways in which building a nonce or verifying a reply can fail.

use vstd::prelude::*;

verus! {

/// The two signatures of a reply.
#[derive(Debug, Clone, Copy, PartialEq, Eq, Structural)]
pub enum Signed {
    /// The trust anchor's signature over the delegation.
    Delegation,
    /// The delegated key's signature over the signed response.
    Response,
}

/// The inputs that an operator supplies as text.
#[derive(Debug, Clone, Copy, PartialEq, Eq, Structural)]
pub enum Input {
    /// The content digest is not a hex string.
    DigestEncoding,
    /// The content digest does not decode to 32 bytes.
    DigestLength,
    /// The public key is neither a hex nor a base64 string.
    PublicKey,
}

/// Why a nonce could not be derived or a reply could not be accepted.
#[derive(Debug, Clone, Copy, PartialEq, Eq, Structural)]
pub enum StampError {
    /// A message does not decode, or a field that is needed is absent or too
    /// short.
    MalformedResponse,
    /// The named signature does not verify: the reply may not be authentic.
    SignatureInvalid(Signed),
    /// The root recomputed from the nonce differs from the signed root.
    MerkleMismatch,
    /// The midpoint lies outside the span for which the delegation holds.
    TimeWindowViolation { midpoint: u64, mint: u64, maxt: u64 },
    /// An input supplied by the caller cannot be used.
    CallerInput(Input),
}

} // verus!
