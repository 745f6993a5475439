//! Client-side logic of an auditable time-stamping scheme.
//!
//! A client asks a server to stamp a 64-byte nonce, which `nonce` derives
//! from a content digest. `request` builds the padded request. `response`
//! decodes the reply and verifies it: the trust anchor signs a delegation,
//! the delegated key signs the response, the response commits to a Merkle
//! tree that holds the nonce, and the midpoint lies in the span for which the
//! delegation holds.
//!
//! The wire format, the signatures and the hashes are the work of
//! `roughenough`, `ring`, `byteorder` and `data_encoding`. What is assumed of
//! them is stated on the functions that call them: `decode_wire` and
//! `encode_wire` in `message`, `validate_sig` in `sign`,
//! `sha512_root_from_paths` and `sha512_256_digest` in `merkle`, `read_u32_le`
//! and `read_u64_le` in `endian`, `decode_hex` and `decode_base64` in
//! `encoding`. Everything else is proved.

pub mod encoding;
pub mod endian;
pub mod error;
pub mod merkle;
pub mod message;
pub mod nonce;
pub mod request;
pub mod response;
pub mod sign;
pub mod tag;
