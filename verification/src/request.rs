//! The request: the nonce and as much padding as brings the encoded message
//! up to the least length that a server answers.

use crate::message::{
    aligned, encoded_length, lemma_value_at, value_of, values_length, wire_decoding, wire_encoding,
    Message,
};
use crate::tag::{NONC, PAD};
use vstd::prelude::*;

verus! {

/// The least length in bytes of a request.
pub const MIN_REQUEST_LENGTH: usize = 1024;

/// What a request takes on the wire besides the nonce and the padding: the
/// count of fields, one offset and two tags.
pub const REQUEST_OVERHEAD: usize = 16;

/// How much padding a request needs that measures `unpadded` bytes with empty
/// padding.
pub open spec fn padding_length(unpadded: nat) -> nat {
    if unpadded >= MIN_REQUEST_LENGTH {
        0
    } else {
        (MIN_REQUEST_LENGTH - unpadded) as nat
    }
}

/// The fields of the request for `nonce`: the nonce, then zero bytes of
/// padding.
pub open spec fn request_fields(nonce: Seq<u8>) -> Seq<(u32, Seq<u8>)> {
    seq![
        (NONC, nonce),
        (PAD, Seq::new(padding_length(nonce.len() + REQUEST_OVERHEAD as nat), |i: int| 0u8)),
    ]
}

/// A message of two fields takes sixteen bytes and its values.
pub proof fn lemma_two_fields_length(first: (u32, Seq<u8>), second: (u32, Seq<u8>))
    ensures
        encoded_length(seq![first, second]) == 16 + first.1.len() + second.1.len(),
{
    let both = seq![first, second];
    assert(both.drop_last() =~= seq![first]);
    assert(seq![first].drop_last() =~= Seq::<(u32, Seq<u8>)>::empty());
    assert(values_length(Seq::<(u32, Seq<u8>)>::empty()) == 0);
    assert(values_length(seq![first]) == first.1.len());
    assert(values_length(both) == values_length(seq![first]) + second.1.len());
}

/// Computes the padding for a request that measures `unpadded` bytes with
/// empty padding.
pub fn padding_needed(unpadded: usize) -> (padding: usize)
    ensures
        padding == padding_length(unpadded as nat),
{
    if unpadded >= MIN_REQUEST_LENGTH {
        0
    } else {
        MIN_REQUEST_LENGTH - unpadded
    }
}

/// Builds the request for `nonce`. The request is the encoding of the nonce
/// and the padding; it is never shorter than `MIN_REQUEST_LENGTH`; and where
/// the nonce's length is a multiple of four, as the wire format asks, the
/// request decodes to a message whose nonce field is `nonce`.
pub fn make_request(nonce: &Vec<u8>) -> (request: Vec<u8>)
    requires
        nonce@.len() + REQUEST_OVERHEAD <= u32::MAX,
    ensures
        request@ == wire_encoding(request_fields(nonce@)),
        request@.len() == nonce@.len() + REQUEST_OVERHEAD + padding_length(
            nonce@.len() + REQUEST_OVERHEAD as nat,
        ),
        request@.len() >= MIN_REQUEST_LENGTH,
        nonce@.len() % 4 == 0 ==> wire_decoding(request@) == Some(request_fields(nonce@))
            && value_of(wire_decoding(request@).unwrap(), NONC) == Some(nonce@),
{
    let empty_padding: Vec<u8> = Vec::new();
    let draft = Message::new().with_field(NONC, nonce.clone()).unwrap().with_field(
        PAD,
        empty_padding,
    ).unwrap();
    proof {
        lemma_two_fields_length((NONC, nonce@), (PAD, Seq::<u8>::empty()));
        assert(draft@ =~= seq![(NONC, nonce@), (PAD, Seq::<u8>::empty())]);
    }
    let padding: Vec<u8> = vec![0u8; padding_needed(draft.encoded_size())];

    let msg = Message::new().with_field(NONC, nonce.clone()).unwrap().with_field(
        PAD,
        padding,
    ).unwrap();
    proof {
        let fields = request_fields(nonce@);
        assert(padding@ =~= fields[1].1);
        assert(msg@ =~= fields);
        lemma_two_fields_length(fields[0], fields[1]);
        assert(fields =~= seq![fields[0], fields[1]]);
        lemma_value_at(fields, 0);
        if nonce@.len() % 4 == 0 {
            assert(aligned(fields));
        }
    }
    msg.encode()
}

} // verus!
