//! Verification of a server's reply: the delegation signed by the trust
//! anchor, the response signed by the delegated key, the nonce's place in the
//! Merkle tree, and the midpoint's place in the delegation's validity span.

use crate::encoding::{base64_decoding, bytes_view, hex_decoding, key_of, parse_public_key};
use crate::endian::{bytes_equal, le_u32, le_u64, read_u32_le, read_u64_le};
use crate::error::{Input, Signed, StampError};
use crate::merkle::{root_from_paths, tree_root, Version};
use crate::message::{value_of, wire_decoding, Message};
use crate::sign::{signature_valid, validate_sig};
use crate::tag::{CERT, DELE, INDX, MAXT, MIDP, MINT, PATH, PUBK, RADI, ROOT, SIG, SREP};
use vstd::prelude::*;

verus! {

/// Goes before a delegation where it is signed:
/// `RoughTime v1 delegation signature--` and a zero byte.
pub const CERTIFICATE_CONTEXT: [u8; 36] = [
    0x52, 0x6f, 0x75, 0x67, 0x68, 0x54, 0x69, 0x6d, 0x65, 0x20, 0x76, 0x31, 0x20, 0x64, 0x65, 0x6c,
    0x65, 0x67, 0x61, 0x74, 0x69, 0x6f, 0x6e, 0x20, 0x73, 0x69, 0x67, 0x6e, 0x61, 0x74, 0x75, 0x72,
    0x65, 0x2d, 0x2d, 0x00,
];

/// Goes before a signed response where it is signed:
/// `RoughTime v1 response signature` and a zero byte.
pub const SIGNED_RESPONSE_CONTEXT: [u8; 32] = [
    0x52, 0x6f, 0x75, 0x67, 0x68, 0x54, 0x69, 0x6d, 0x65, 0x20, 0x76, 0x31, 0x20, 0x72, 0x65, 0x73,
    0x70, 0x6f, 0x6e, 0x73, 0x65, 0x20, 0x73, 0x69, 0x67, 0x6e, 0x61, 0x74, 0x75, 0x72, 0x65, 0x00,
];

/// What a reply says about the time, and whether that claim was attested.
#[derive(Debug, Clone, Copy, PartialEq, Eq, Structural)]
pub struct ParsedResponse {
    pub verified: bool,
    pub midpoint: u64,
    pub radius: u32,
}

impl ParsedResponse {
    /// The whole seconds of the midpoint, which counts microseconds.
    pub fn seconds(&self) -> (s: u64)
        ensures
            s == self.midpoint / 1_000_000,
    {
        self.midpoint / 1_000_000
    }

    /// What the midpoint holds beyond its whole seconds, in nanoseconds.
    pub fn subsec_nanos(&self) -> (n: u32)
        ensures
            n == (self.midpoint % 1_000_000) * 1_000,
            n < 1_000_000_000,
    {
        let micros: u64 = self.midpoint % 1_000_000;
        (micros * 1_000) as u32
    }
}

/// The message encoded in the value under `tag`, if the field is there and
/// its value decodes.
pub open spec fn nested(fields: Seq<(u32, Seq<u8>)>, tag: u32) -> Option<Seq<(u32, Seq<u8>)>> {
    match value_of(fields, tag) {
        Some(bytes) => wire_decoding(bytes),
        None => None,
    }
}

/// The 32-bit number under `tag`, if the field is there and long enough.
pub open spec fn field_u32(fields: Seq<(u32, Seq<u8>)>, tag: u32) -> Option<u32> {
    match value_of(fields, tag) {
        Some(bytes) => le_u32(bytes),
        None => None,
    }
}

/// The 64-bit number under `tag`, if the field is there and long enough.
pub open spec fn field_u64(fields: Seq<(u32, Seq<u8>)>, tag: u32) -> Option<u64> {
    match value_of(fields, tag) {
        Some(bytes) => le_u64(bytes),
        None => None,
    }
}

/// What a signature check comes to.
pub open spec fn signature_outcome(valid: bool, signed: Signed) -> Result<(), StampError> {
    if valid {
        Ok(())
    } else {
        Err(StampError::SignatureInvalid(signed))
    }
}

/// What the comparison of the recomputed root with the signed one comes to.
pub open spec fn root_outcome(computed: Seq<u8>, claimed: Seq<u8>) -> Result<(), StampError> {
    if computed == claimed {
        Ok(())
    } else {
        Err(StampError::MerkleMismatch)
    }
}

/// What the test of a midpoint against the inclusive span from `mint` to
/// `maxt` comes to.
pub open spec fn window_outcome(midpoint: u64, mint: u64, maxt: u64) -> Result<(), StampError> {
    if mint <= midpoint <= maxt {
        Ok(())
    } else {
        Err(StampError::TimeWindowViolation { midpoint, mint, maxt })
    }
}

/// A decoded reply with what it is verified against, as plain values.
pub struct Reply {
    /// The trust anchor, if the reply is to be attested.
    pub pub_key: Option<Seq<u8>>,
    /// The fields of the reply.
    pub msg: Seq<(u32, Seq<u8>)>,
    /// The fields of the signed response.
    pub srep: Seq<(u32, Seq<u8>)>,
    /// The fields of the certificate.
    pub cert: Seq<(u32, Seq<u8>)>,
    /// The fields of the delegation.
    pub dele: Seq<(u32, Seq<u8>)>,
    /// The nonce of the request.
    pub nonce: Seq<u8>,
    /// The version of the protocol.
    pub version: Version,
}

/// The reply that `msg` decodes to, or nothing where the signed response, the
/// certificate or the delegation within the certificate is absent or does not
/// decode.
pub open spec fn reply_of(
    version: Version,
    pub_key: Option<Seq<u8>>,
    msg: Seq<(u32, Seq<u8>)>,
    nonce: Seq<u8>,
) -> Option<Reply> {
    match (nested(msg, SREP), nested(msg, CERT)) {
        (Some(srep), Some(cert)) => match nested(cert, DELE) {
            Some(dele) => Some(Reply { pub_key, msg, srep, cert, dele, nonce, version }),
            None => None,
        },
        _ => None,
    }
}

impl Reply {
    /// The nested messages are what the fields that hold them decode to.
    pub open spec fn wf(self) -> bool {
        &&& nested(self.msg, SREP) == Some(self.srep)
        &&& nested(self.msg, CERT) == Some(self.cert)
        &&& nested(self.cert, DELE) == Some(self.dele)
    }

    /// The midpoint that the signed response states.
    pub open spec fn midpoint(self) -> Option<u64> {
        field_u64(self.srep, MIDP)
    }

    /// The radius that the signed response states.
    pub open spec fn radius(self) -> Option<u32> {
        field_u32(self.srep, RADI)
    }

    /// Does `key` sign the delegation? The signature stands in the
    /// certificate and covers the certificate context and the encoded
    /// delegation.
    pub open spec fn delegation_check(self, key: Seq<u8>) -> Result<(), StampError> {
        match (value_of(self.cert, DELE), value_of(self.cert, SIG)) {
            (Some(dele), Some(sig)) => signature_outcome(
                signature_valid(key, sig, CERTIFICATE_CONTEXT@ + dele),
                Signed::Delegation,
            ),
            _ => Err(StampError::MalformedResponse),
        }
    }

    /// Does the delegated key sign the response? The signature stands in the
    /// reply and covers the response context and the encoded signed response.
    pub open spec fn response_check(self) -> Result<(), StampError> {
        match (value_of(self.msg, SREP), value_of(self.dele, PUBK), value_of(self.msg, SIG)) {
            (Some(srep), Some(key), Some(sig)) => signature_outcome(
                signature_valid(key, sig, SIGNED_RESPONSE_CONTEXT@ + srep),
                Signed::Response,
            ),
            _ => Err(StampError::MalformedResponse),
        }
    }

    /// Is the root above the nonce, at the index and along the path that the
    /// reply gives, the root that the signed response states?
    pub open spec fn merkle_check(self) -> Result<(), StampError> {
        match (field_u32(self.msg, INDX), value_of(self.msg, PATH), value_of(self.srep, ROOT)) {
            (Some(index), Some(paths), Some(root)) => if paths.len() % self.version.hash_bytes()
                == 0 {
                root_outcome(tree_root(self.version, index as nat, self.nonce, paths), root)
            } else {
                Err(StampError::MalformedResponse)
            },
            _ => Err(StampError::MalformedResponse),
        }
    }

    /// Does `midpoint` lie in the span for which the delegation holds?
    pub open spec fn window_check(self, midpoint: u64) -> Result<(), StampError> {
        match (field_u64(self.dele, MINT), field_u64(self.dele, MAXT)) {
            (Some(mint), Some(maxt)) => window_outcome(midpoint, mint, maxt),
            _ => Err(StampError::MalformedResponse),
        }
    }

    /// The four checks in their order; the first that fails decides.
    pub open spec fn attestation(self, key: Seq<u8>, midpoint: u64) -> Result<(), StampError> {
        if self.delegation_check(key) is Err {
            self.delegation_check(key)
        } else if self.response_check() is Err {
            self.response_check()
        } else if self.merkle_check() is Err {
            self.merkle_check()
        } else {
            self.window_check(midpoint)
        }
    }

    /// What verification of the reply comes to. Midpoint and radius are read
    /// first. Without a trust anchor they are handed out unattested; with one,
    /// they are handed out as verified once all four checks have passed, and
    /// the first check that fails gives the error.
    pub open spec fn outcome(self) -> Result<ParsedResponse, StampError> {
        match (self.midpoint(), self.radius()) {
            (Some(midpoint), Some(radius)) => match self.pub_key {
                None => Ok(ParsedResponse { verified: false, midpoint, radius }),
                Some(key) => match self.attestation(key, midpoint) {
                    Ok(_) => Ok(ParsedResponse { verified: true, midpoint, radius }),
                    Err(e) => Err(e),
                },
            },
            _ => Err(StampError::MalformedResponse),
        }
    }
}

/// What verification of the raw reply `raw` to the request with `nonce` comes
/// to under the classic protocol, with the trust anchor given as text.
pub open spec fn timestamp_outcome(raw: Seq<u8>, pub_key: Option<Seq<char>>, nonce: Seq<u8>) -> Result<
    ParsedResponse,
    StampError,
> {
    let key = match pub_key {
        Some(text) => key_of(hex_decoding(text), base64_decoding(text)),
        None => None,
    };
    if pub_key is Some && key is None {
        Err(StampError::CallerInput(Input::PublicKey))
    } else {
        match wire_decoding(raw) {
            Some(msg) => match reply_of(Version::Classic, key, msg, nonce) {
                Some(reply) => reply.outcome(),
                None => Err(StampError::MalformedResponse),
            },
            None => Err(StampError::MalformedResponse),
        }
    }
}

/// Turns the answer of a signature check into a result.
pub fn signature_verdict(valid: bool, signed: Signed) -> (r: Result<(), StampError>)
    ensures
        r == signature_outcome(valid, signed),
{
    if valid {
        Ok(())
    } else {
        Err(StampError::SignatureInvalid(signed))
    }
}

/// Compares the recomputed root with the signed one.
pub fn root_verdict(computed: &[u8], claimed: &[u8]) -> (r: Result<(), StampError>)
    ensures
        r == root_outcome(computed@, claimed@),
{
    if bytes_equal(computed, claimed) {
        Ok(())
    } else {
        Err(StampError::MerkleMismatch)
    }
}

/// Tests a midpoint against the inclusive span from `mint` to `maxt`.
pub fn window_verdict(midpoint: u64, mint: u64, maxt: u64) -> (r: Result<(), StampError>)
    ensures
        r == window_outcome(midpoint, mint, maxt),
{
    if mint <= midpoint && midpoint <= maxt {
        Ok(())
    } else {
        Err(StampError::TimeWindowViolation { midpoint, mint, maxt })
    }
}

/// `context` followed by `body`: what a signature covers.
pub fn with_context(context: &[u8], body: &[u8]) -> (data: Vec<u8>)
    ensures
        data@ == context@ + body@,
{
    let mut data: Vec<u8> = Vec::new();
    data.extend_from_slice(context);
    data.extend_from_slice(body);
    assert(data@ =~= context@ + body@);
    data
}

/// Reads the 32-bit number under `tag`.
fn read_field_u32(msg: &Message, tag: u32) -> (r: Option<u32>)
    ensures
        r == field_u32(msg@, tag),
{
    match msg.get(tag) {
        Some(bytes) => read_u32_le(bytes.as_slice()),
        None => None,
    }
}

/// Reads the 64-bit number under `tag`.
fn read_field_u64(msg: &Message, tag: u32) -> (r: Option<u64>)
    ensures
        r == field_u64(msg@, tag),
{
    match msg.get(tag) {
        Some(bytes) => read_u64_le(bytes.as_slice()),
        None => None,
    }
}

/// Decodes the message held under `tag`.
fn decode_nested(msg: &Message, tag: u32) -> (r: Option<Message>)
    ensures
        match r {
            Some(inner) => nested(msg@, tag) == Some(inner@),
            None => nested(msg@, tag) is None,
        },
{
    match msg.get(tag) {
        Some(bytes) => match Message::from_bytes(bytes.as_slice()) {
            Ok(inner) => Some(inner),
            Err(_) => None,
        },
        None => None,
    }
}

/// A decoded reply, ready to be verified.
#[derive(Debug)]
pub struct ResponseHandler {
    pub_key: Option<Vec<u8>>,
    msg: Message,
    srep: Message,
    cert: Message,
    dele: Message,
    nonce: Vec<u8>,
    version: Version,
}

impl View for ResponseHandler {
    type V = Reply;

    closed spec fn view(&self) -> Reply {
        Reply {
            pub_key: bytes_view(self.pub_key),
            msg: self.msg@,
            srep: self.srep@,
            cert: self.cert@,
            dele: self.dele@,
            nonce: self.nonce@,
            version: self.version,
        }
    }
}

impl ResponseHandler {
    /// The nested messages were decoded from the fields that hold them.
    #[verifier::type_invariant]
    spec fn inv(&self) -> bool {
        self@.wf()
    }

    /// Decodes the signed response, the certificate and the delegation of a
    /// reply. Fails with `MalformedResponse` exactly where one of them is
    /// absent or does not decode.
    pub fn new(version: Version, pub_key: Option<Vec<u8>>, response: Message, nonce: Vec<u8>) -> (r:
        Result<ResponseHandler, StampError>)
        ensures
            match r {
                Ok(handler) => reply_of(version, bytes_view(pub_key), response@, nonce@) == Some(
                    handler@,
                ) && handler@.wf(),
                Err(e) => reply_of(version, bytes_view(pub_key), response@, nonce@) is None && e
                    == StampError::MalformedResponse,
            },
    {
        let srep = match decode_nested(&response, SREP) {
            Some(srep) => srep,
            None => { return Err(StampError::MalformedResponse); },
        };
        let cert = match decode_nested(&response, CERT) {
            Some(cert) => cert,
            None => { return Err(StampError::MalformedResponse); },
        };
        let dele = match decode_nested(&cert, DELE) {
            Some(dele) => dele,
            None => { return Err(StampError::MalformedResponse); },
        };
        Ok(ResponseHandler { pub_key, msg: response, srep, cert, dele, nonce, version })
    }

    /// Decodes a raw reply and what is nested in it.
    pub fn from_bytes(version: Version, pub_key: Option<Vec<u8>>, raw: &[u8], nonce: Vec<u8>) -> (r:
        Result<ResponseHandler, StampError>)
        ensures
            match r {
                Ok(handler) => wire_decoding(raw@) is Some && reply_of(
                    version,
                    bytes_view(pub_key),
                    wire_decoding(raw@).unwrap(),
                    nonce@,
                ) == Some(handler@) && handler@.wf(),
                Err(e) => e == StampError::MalformedResponse && (wire_decoding(raw@) is None
                    || reply_of(version, bytes_view(pub_key), wire_decoding(raw@).unwrap(), nonce@)
                    is None),
            },
    {
        match Message::from_bytes(raw) {
            Ok(response) => ResponseHandler::new(version, pub_key, response, nonce),
            Err(e) => Err(e),
        }
    }

    /// Verifies the reply and hands out the midpoint and the radius that it
    /// states.
    pub fn extract_time(&self) -> (r: Result<ParsedResponse, StampError>)
        ensures
            r == self@.outcome(),
    {
        let midpoint = match read_field_u64(&self.srep, MIDP) {
            Some(midpoint) => midpoint,
            None => { return Err(StampError::MalformedResponse); },
        };
        let radius = match read_field_u32(&self.srep, RADI) {
            Some(radius) => radius,
            None => { return Err(StampError::MalformedResponse); },
        };
        if self.pub_key.is_none() {
            return Ok(ParsedResponse { verified: false, midpoint, radius });
        }
        match self.validate_dele() {
            Err(e) => { return Err(e); },
            Ok(_) => {},
        }
        match self.validate_srep() {
            Err(e) => { return Err(e); },
            Ok(_) => {},
        }
        match self.validate_merkle() {
            Err(e) => { return Err(e); },
            Ok(_) => {},
        }
        match self.validate_midpoint(midpoint) {
            Err(e) => { return Err(e); },
            Ok(_) => {},
        }
        Ok(ParsedResponse { verified: true, midpoint, radius })
    }

    /// Checks the trust anchor's signature over the delegation.
    pub fn validate_dele(&self) -> (r: Result<(), StampError>)
        requires
            self@.pub_key is Some,
        ensures
            r == self@.delegation_check(self@.pub_key.unwrap()),
    {
        let key = match &self.pub_key {
            Some(key) => key,
            None => unreached(),
        };
        match (self.cert.get(DELE), self.cert.get(SIG)) {
            (Some(dele), Some(sig)) => {
                let full_cert = with_context(CERTIFICATE_CONTEXT.as_slice(), dele.as_slice());
                signature_verdict(
                    validate_sig(key.as_slice(), sig.as_slice(), full_cert.as_slice()),
                    Signed::Delegation,
                )
            },
            _ => Err(StampError::MalformedResponse),
        }
    }

    /// Checks the delegated key's signature over the signed response.
    pub fn validate_srep(&self) -> (r: Result<(), StampError>)
        ensures
            r == self@.response_check(),
    {
        match (self.msg.get(SREP), self.dele.get(PUBK), self.msg.get(SIG)) {
            (Some(srep), Some(key), Some(sig)) => {
                let full_srep = with_context(SIGNED_RESPONSE_CONTEXT.as_slice(), srep.as_slice());
                signature_verdict(
                    validate_sig(key.as_slice(), sig.as_slice(), full_srep.as_slice()),
                    Signed::Response,
                )
            },
            _ => Err(StampError::MalformedResponse),
        }
    }

    /// Recomputes the Merkle root from the nonce and compares it with the
    /// signed one.
    pub fn validate_merkle(&self) -> (r: Result<(), StampError>)
        ensures
            r == self@.merkle_check(),
    {
        match (read_field_u32(&self.msg, INDX), self.msg.get(PATH), self.srep.get(ROOT)) {
            (Some(index), Some(paths), Some(root)) => {
                match root_from_paths(self.version, index, self.nonce.as_slice(), paths.as_slice()) {
                    Some(hash) => root_verdict(hash.as_slice(), root.as_slice()),
                    None => Err(StampError::MalformedResponse),
                }
            },
            _ => Err(StampError::MalformedResponse),
        }
    }

    /// Tests the midpoint against the span for which the delegation holds.
    pub fn validate_midpoint(&self, midpoint: u64) -> (r: Result<(), StampError>)
        ensures
            r == self@.window_check(midpoint),
    {
        match (read_field_u64(&self.dele, MINT), read_field_u64(&self.dele, MAXT)) {
            (Some(mint), Some(maxt)) => window_verdict(midpoint, mint, maxt),
            _ => Err(StampError::MalformedResponse),
        }
    }
}

/// A reply that passes all four checks under its trust anchor is verified,
/// with the midpoint and the radius that it states.
pub proof fn lemma_valid_reply_is_verified(reply: Reply, key: Seq<u8>, midpoint: u64, radius: u32)
    requires
        reply.pub_key == Some(key),
        reply.midpoint() == Some(midpoint),
        reply.radius() == Some(radius),
        reply.delegation_check(key) is Ok,
        reply.response_check() is Ok,
        reply.merkle_check() is Ok,
        reply.window_check(midpoint) is Ok,
    ensures
        reply.outcome() == Ok::<ParsedResponse, StampError>(
            ParsedResponse { verified: true, midpoint, radius },
        ),
{
}

/// A delegation signature that does not verify under the trust anchor is
/// reported as an invalid delegation signature.
pub proof fn lemma_bad_delegation_signature(
    reply: Reply,
    key: Seq<u8>,
    dele: Seq<u8>,
    sig: Seq<u8>,
)
    requires
        reply.pub_key == Some(key),
        reply.midpoint() is Some,
        reply.radius() is Some,
        value_of(reply.cert, DELE) == Some(dele),
        value_of(reply.cert, SIG) == Some(sig),
        !signature_valid(key, sig, CERTIFICATE_CONTEXT@ + dele),
    ensures
        reply.outcome() == Err::<ParsedResponse, StampError>(
            StampError::SignatureInvalid(Signed::Delegation),
        ),
{
}

/// Under a delegation that verifies, a response signature that does not
/// verify under the delegated key is reported as an invalid response
/// signature.
pub proof fn lemma_bad_response_signature(
    reply: Reply,
    key: Seq<u8>,
    srep: Seq<u8>,
    delegated: Seq<u8>,
    sig: Seq<u8>,
)
    requires
        reply.pub_key == Some(key),
        reply.midpoint() is Some,
        reply.radius() is Some,
        reply.delegation_check(key) is Ok,
        value_of(reply.msg, SREP) == Some(srep),
        value_of(reply.dele, PUBK) == Some(delegated),
        value_of(reply.msg, SIG) == Some(sig),
        !signature_valid(delegated, sig, SIGNED_RESPONSE_CONTEXT@ + srep),
    ensures
        reply.outcome() == Err::<ParsedResponse, StampError>(
            StampError::SignatureInvalid(Signed::Response),
        ),
{
}

/// Under signatures that verify, a signed root other than the root above the
/// nonce is reported as a Merkle mismatch.
pub proof fn lemma_wrong_root(
    reply: Reply,
    key: Seq<u8>,
    index: u32,
    paths: Seq<u8>,
    root: Seq<u8>,
)
    requires
        reply.pub_key == Some(key),
        reply.midpoint() is Some,
        reply.radius() is Some,
        reply.delegation_check(key) is Ok,
        reply.response_check() is Ok,
        field_u32(reply.msg, INDX) == Some(index),
        value_of(reply.msg, PATH) == Some(paths),
        paths.len() % reply.version.hash_bytes() == 0,
        value_of(reply.srep, ROOT) == Some(root),
        root != tree_root(reply.version, index as nat, reply.nonce, paths),
    ensures
        reply.outcome() == Err::<ParsedResponse, StampError>(StampError::MerkleMismatch),
{
}

/// Under signatures that verify and a root that matches, a midpoint outside
/// the delegation's span is reported as a violation of the span, with the
/// midpoint and both ends of the span.
pub proof fn lemma_midpoint_outside_span(
    reply: Reply,
    key: Seq<u8>,
    midpoint: u64,
    mint: u64,
    maxt: u64,
)
    requires
        reply.pub_key == Some(key),
        reply.midpoint() == Some(midpoint),
        reply.radius() is Some,
        reply.delegation_check(key) is Ok,
        reply.response_check() is Ok,
        reply.merkle_check() is Ok,
        field_u64(reply.dele, MINT) == Some(mint),
        field_u64(reply.dele, MAXT) == Some(maxt),
        midpoint < mint || maxt < midpoint,
    ensures
        reply.outcome() == Err::<ParsedResponse, StampError>(
            StampError::TimeWindowViolation { midpoint, mint, maxt },
        ),
{
}

/// The errors of the four checks are of four kinds, no two the same, and none
/// is that of a malformed reply.
pub proof fn lemma_failures_differ(midpoint: u64, mint: u64, maxt: u64)
    ensures
        StampError::SignatureInvalid(Signed::Delegation) != StampError::SignatureInvalid(
            Signed::Response,
        ),
        StampError::SignatureInvalid(Signed::Delegation) != StampError::MerkleMismatch,
        StampError::SignatureInvalid(Signed::Response) != StampError::MerkleMismatch,
        (StampError::TimeWindowViolation { midpoint, mint, maxt }) != StampError::MerkleMismatch,
        (StampError::TimeWindowViolation { midpoint, mint, maxt }) != StampError::SignatureInvalid(
            Signed::Delegation,
        ),
        (StampError::TimeWindowViolation { midpoint, mint, maxt }) != StampError::SignatureInvalid(
            Signed::Response,
        ),
        StampError::MalformedResponse != StampError::MerkleMismatch,
        StampError::MalformedResponse != StampError::SignatureInvalid(Signed::Delegation),
        StampError::MalformedResponse != StampError::SignatureInvalid(Signed::Response),
        StampError::MalformedResponse != (StampError::TimeWindowViolation { midpoint, mint, maxt }),
{
}

/// With a trust anchor, a reply is verified exactly where all four checks
/// pass; where one fails, the error is that of the first that fails.
pub proof fn lemma_first_failure_decides(reply: Reply, key: Seq<u8>, midpoint: u64)
    requires
        reply.pub_key == Some(key),
        reply.midpoint() == Some(midpoint),
        reply.radius() is Some,
    ensures
        reply.outcome() is Ok <==> (reply.delegation_check(key) is Ok && reply.response_check()
            is Ok && reply.merkle_check() is Ok && reply.window_check(midpoint) is Ok),
        reply.outcome() matches Ok(parsed) ==> parsed.verified,
        reply.delegation_check(key) matches Err(e) ==> reply.outcome() == Err::<
            ParsedResponse,
            StampError,
        >(e),
{
}

/// Without a trust anchor a reply is never verified, and it states the same
/// midpoint and radius as it does where it is verified under one.
pub proof fn lemma_observation_keeps_the_time(reply: Reply)
    ensures
        (Reply { pub_key: None, ..reply }).outcome() == match (reply.midpoint(), reply.radius()) {
            (Some(midpoint), Some(radius)) => Ok::<ParsedResponse, StampError>(
                ParsedResponse { verified: false, midpoint, radius },
            ),
            _ => Err(StampError::MalformedResponse),
        },
        reply.outcome() matches Ok(attested) ==> (Reply { pub_key: None, ..reply }).outcome()
            == Ok::<ParsedResponse, StampError>(ParsedResponse { verified: false, ..attested }),
{
}

/// Verifies a raw reply of the classic protocol to the request with the nonce
/// `digest`, against the trust anchor given as hex or base64 text, if one is
/// given. Fails with `CallerInput(PublicKey)` where the text is neither.
pub fn verify_timestamp(raw: &[u8], pub_key: Option<String>, digest: Vec<u8>) -> (r: Result<
    ParsedResponse,
    StampError,
>)
    ensures
        r == timestamp_outcome(
            raw@,
            match pub_key {
                Some(text) => Some(text@),
                None => None,
            },
            digest@,
        ),
{
    let key = match pub_key {
        Some(text) => match parse_public_key(text.as_str()) {
            Ok(key) => Some(key),
            Err(e) => { return Err(e); },
        },
        None => None,
    };
    match ResponseHandler::from_bytes(Version::Classic, key, raw, digest) {
        Ok(handler) => handler.extract_time(),
        Err(e) => Err(e),
    }
}

} // verus!
