//! The tags of the protocol. A tag is four bytes on the wire; it is held here
//! as the number that those bytes spell least significant byte first, which is
//! also what orders the fields of a message.

use vstd::prelude::*;

verus! {

/// `SIG\0`: a signature.
pub const SIG: u32 = 0x0047_4953;

/// `NONC`: the client's nonce.
pub const NONC: u32 = 0x434e_4f4e;

/// `DELE`: the delegation, an encoded message.
pub const DELE: u32 = 0x454c_4544;

/// `PATH`: the sibling hashes from the nonce's leaf to the root.
pub const PATH: u32 = 0x4854_4150;

/// `RADI`: the uncertainty radius.
pub const RADI: u32 = 0x4944_4152;

/// `PUBK`: the delegated public key.
pub const PUBK: u32 = 0x4b42_5550;

/// `MIDP`: the midpoint.
pub const MIDP: u32 = 0x5044_494d;

/// `SREP`: the signed response, an encoded message.
pub const SREP: u32 = 0x5045_5253;

/// `MINT`: the start of the delegation's validity span.
pub const MINT: u32 = 0x544e_494d;

/// `ROOT`: the signed Merkle root.
pub const ROOT: u32 = 0x544f_4f52;

/// `CERT`: the certificate, an encoded message.
pub const CERT: u32 = 0x5452_4543;

/// `MAXT`: the end of the delegation's validity span.
pub const MAXT: u32 = 0x5458_414d;

/// `INDX`: the index of the nonce's leaf.
pub const INDX: u32 = 0x5844_4e49;

/// `PAD\xff`: padding.
pub const PAD: u32 = 0xff44_4150;

/// Whether `tag` is one of the tags of the protocol.
pub open spec fn is_known(tag: u32) -> bool {
    tag == SIG || tag == NONC || tag == DELE || tag == PATH || tag == RADI || tag == PUBK || tag
        == MIDP || tag == SREP || tag == MINT || tag == ROOT || tag == CERT || tag == MAXT || tag
        == INDX || tag == PAD
}

/// Tests whether `tag` is one of the tags of the protocol.
pub fn known(tag: u32) -> (r: bool)
    ensures
        r == is_known(tag),
{
    tag == SIG || tag == NONC || tag == DELE || tag == PATH || tag == RADI || tag == PUBK || tag
        == MIDP || tag == SREP || tag == MINT || tag == ROOT || tag == CERT || tag == MAXT || tag
        == INDX || tag == PAD
}

} // verus!
