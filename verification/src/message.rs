//! Messages: byte strings filed under tags, in rising order of tag. How a
//! message is laid out on the wire is the business of `roughenough`; this
//! module holds what was decoded as plain fields, finds a field by its tag and
//! measures what an encoding will take.

use crate::error::StampError;
use crate::tag::{is_known, known};
use byteorder::{ByteOrder, LittleEndian};
use roughenough::RtMessage;
use vstd::prelude::*;

verus! {

/// The error type of `roughenough`; nothing is read from it.
#[verifier::external_type_specification]
#[verifier::external_body]
pub struct ExWireError(roughenough::Error);

/// One entry of a message.
#[derive(Debug)]
pub struct Field {
    pub tag: u32,
    pub value: Vec<u8>,
}

impl View for Field {
    type V = (u32, Seq<u8>);

    open spec fn view(&self) -> (u32, Seq<u8>) {
        (self.tag, self.value@)
    }
}

/// The entries that `fields` stand for.
pub open spec fn views(fields: Seq<Field>) -> Seq<(u32, Seq<u8>)> {
    fields.map_values(|f: Field| f@)
}

/// Every tag is one of the protocol's, and each is greater than the one before
/// it; so no tag occurs twice.
pub open spec fn ordered(fields: Seq<(u32, Seq<u8>)>) -> bool {
    &&& forall|i: int| 0 <= i < fields.len() ==> is_known(#[trigger] fields[i].0)
    &&& forall|i: int, j: int|
        #![trigger fields[i], fields[j]]
        0 <= i < j < fields.len() ==> fields[i].0 < fields[j].0
}

/// Whether some entry of `fields` is filed under `tag`.
pub open spec fn has_field(fields: Seq<(u32, Seq<u8>)>, tag: u32) -> bool {
    exists|i: int| 0 <= i < fields.len() && (#[trigger] fields[i]).0 == tag
}

/// The value filed under `tag`, if there is one.
pub open spec fn value_of(fields: Seq<(u32, Seq<u8>)>, tag: u32) -> Option<Seq<u8>> {
    if has_field(fields, tag) {
        let i = choose|i: int| 0 <= i < fields.len() && (#[trigger] fields[i]).0 == tag;
        Some(fields[i].1)
    } else {
        None
    }
}

/// The lengths of all values, added up.
pub open spec fn values_length(fields: Seq<(u32, Seq<u8>)>) -> nat
    decreases fields.len(),
{
    if fields.len() == 0 {
        0
    } else {
        values_length(fields.drop_last()) + fields.last().1.len()
    }
}

/// The length of a message on the wire: the count of its fields, an offset for
/// each field but the first, the tags, and the values.
pub open spec fn encoded_length(fields: Seq<(u32, Seq<u8>)>) -> nat {
    let offsets: nat = if fields.len() < 2 {
        0
    } else {
        (4 * (fields.len() - 1)) as nat
    };
    4 + 4 * fields.len() + offsets + values_length(fields)
}

/// Every value has a length that is a multiple of four, as the wire format
/// asks of a message that is to be read back.
pub open spec fn aligned(fields: Seq<(u32, Seq<u8>)>) -> bool {
    forall|i: int| 0 <= i < fields.len() ==> (#[trigger] fields[i]).1.len() % 4 == 0
}

/// What `roughenough::RtMessage::from_bytes` makes of `bytes`: the fields in
/// their order, or nothing where it rejects the bytes.
pub uninterp spec fn wire_decoding(bytes: Seq<u8>) -> Option<Seq<(u32, Seq<u8>)>>;

/// What `roughenough::RtMessage::encode` gives for a message of these fields.
pub uninterp spec fn wire_encoding(fields: Seq<(u32, Seq<u8>)>) -> Seq<u8>;

/// Calls `roughenough::RtMessage::from_bytes` and hands out the fields of the
/// message, each tag as the number that its wire bytes spell. Trusted: the
/// outcome is `wire_decoding` of the bytes, and the tags of a decoded message
/// rise strictly, since the decoder adds each field with `add_field`, which
/// refuses a tag that is not greater than the last.
#[verifier::external_body]
fn decode_wire(bytes: &[u8]) -> (r: Result<Vec<Field>, roughenough::Error>)
    ensures
        match r {
            Ok(fields) => wire_decoding(bytes@) == Some(views(fields@)) && ordered(views(fields@)),
            Err(_) => wire_decoding(bytes@) is None,
        },
{
    let msg = RtMessage::from_bytes(bytes)?;
    let mut fields = Vec::with_capacity(msg.tags().len());
    for (tag, value) in msg.tags().iter().zip(msg.values()) {
        fields.push(Field { tag: LittleEndian::read_u32(tag.wire_value()), value: value.clone() });
    }
    Ok(fields)
}

/// Builds a `roughenough::RtMessage` of the fields with `add_field` and calls
/// `encode` on it. Trusted: the outcome is `wire_encoding` of the fields; it
/// is as long as `RtMessage::encoded_size` says, which is `encoded_length`;
/// and where every value's length is a multiple of four,
/// `RtMessage::from_bytes` reads the same fields back from it.
#[verifier::external_body]
fn encode_wire(fields: &Vec<Field>) -> (out: Vec<u8>)
    requires
        ordered(views(fields@)),
        encoded_length(views(fields@)) <= u32::MAX,
    ensures
        out@ == wire_encoding(views(fields@)),
        out@.len() == encoded_length(views(fields@)),
        aligned(views(fields@)) ==> wire_decoding(out@) == Some(views(fields@)),
{
    let mut msg = RtMessage::new(fields.len() as u32);
    for field in fields.iter() {
        let tag = roughenough::Tag::from_wire(&field.tag.to_le_bytes()).unwrap();
        msg.add_field(tag, &field.value).unwrap();
    }
    msg.encode().unwrap()
}

/// Under each tag of an ordered message stands the value of the one entry
/// that carries it.
pub proof fn lemma_value_at(fields: Seq<(u32, Seq<u8>)>, i: int)
    requires
        ordered(fields),
        0 <= i < fields.len(),
    ensures
        value_of(fields, fields[i].0) == Some(fields[i].1),
{
    let tag = fields[i].0;
    assert(has_field(fields, tag));
    let c = choose|c: int| 0 <= c < fields.len() && (#[trigger] fields[c]).0 == tag;
    if c < i {
        assert(fields[c].0 < fields[i].0);
    }
    if i < c {
        assert(fields[i].0 < fields[c].0);
    }
}

/// The values of a prefix are no longer than those of the whole, and one more
/// entry adds the length of its value.
pub proof fn lemma_values_length_prefix(fields: Seq<(u32, Seq<u8>)>, n: int)
    requires
        0 <= n <= fields.len(),
    ensures
        values_length(fields.take(n)) <= values_length(fields),
        n < fields.len() ==> values_length(fields.take(n + 1)) == values_length(fields.take(n))
            + fields[n].1.len(),
    decreases fields.len(),
{
    if n < fields.len() {
        assert(fields.take(n + 1).drop_last() =~= fields.take(n));
        assert(fields.take(n + 1).last() == fields[n]);
        lemma_values_length_prefix(fields.drop_last(), n);
        assert(fields.drop_last().take(n) =~= fields.take(n));
    } else {
        assert(fields.take(n) =~= fields);
    }
}

/// A message: fields in rising order of tag.
#[derive(Debug)]
pub struct Message {
    fields: Vec<Field>,
}

impl View for Message {
    type V = Seq<(u32, Seq<u8>)>;

    closed spec fn view(&self) -> Seq<(u32, Seq<u8>)> {
        views(self.fields@)
    }
}

impl Message {
    /// The fields are in order. This holds of every message.
    #[verifier::type_invariant]
    pub open spec fn wf(&self) -> bool {
        ordered(self@)
    }

    /// A message without fields.
    pub fn new() -> (m: Message)
        ensures
            m@ == Seq::<(u32, Seq<u8>)>::empty(),
            m.wf(),
    {
        let m = Message { fields: Vec::new() };
        assert(m@ =~= Seq::<(u32, Seq<u8>)>::empty());
        m
    }

    /// Decodes a message from its wire form. Fails with `MalformedResponse`
    /// exactly where the bytes are no well-formed message.
    pub fn from_bytes(bytes: &[u8]) -> (r: Result<Message, StampError>)
        ensures
            match r {
                Ok(m) => wire_decoding(bytes@) == Some(m@) && m.wf(),
                Err(e) => wire_decoding(bytes@) is None && e == StampError::MalformedResponse,
            },
    {
        match decode_wire(bytes) {
            Ok(fields) => Ok(Message { fields }),
            Err(_) => Err(StampError::MalformedResponse),
        }
    }

    /// The message with `value` filed under `tag` behind the fields that are
    /// there. There is one exactly where `tag` is one of the protocol's and
    /// greater than the tag of the last field.
    pub fn with_field(self, tag: u32, value: Vec<u8>) -> (r: Option<Message>)
        ensures
            r is Some == (is_known(tag) && (self@.len() == 0 || self@.last().0 < tag)),
            r matches Some(m) ==> m@ == self@.push((tag, value@)),
    {
        proof {
            use_type_invariant(&self);
        }
        let ghost before = self@;
        let mut fields = self.fields;
        let n = fields.len();
        if !known(tag) || (n > 0 && fields[n - 1].tag >= tag) {
            return None;
        }
        proof {
            assert forall|i: int| 0 <= i < before.len() implies (#[trigger] before[i]).0 < tag by {
                if i < n - 1 {
                    assert(before[i].0 < before[n - 1].0);
                }
            }
        }
        fields.push(Field { tag, value });
        assert(views(fields@) =~= before.push((tag, value@)));
        Some(Message { fields })
    }

    /// The value filed under `tag`, if there is one.
    pub fn get(&self, tag: u32) -> (r: Option<&Vec<u8>>)
        ensures
            match r {
                Some(v) => value_of(self@, tag) == Some(v@),
                None => value_of(self@, tag) is None,
            },
    {
        proof {
            use_type_invariant(self);
        }
        let mut i: usize = 0;
        while i < self.fields.len()
            invariant
                self.wf(),
                i <= self.fields@.len(),
                forall|k: int| 0 <= k < i ==> (#[trigger] self@[k]).0 != tag,
            decreases self.fields@.len() - i,
        {
            if self.fields[i].tag == tag {
                proof {
                    lemma_value_at(self@, i as int);
                }
                return Some(&self.fields[i].value);
            }
            i += 1;
        }
        None
    }

    /// The number of bytes that the encoded message takes.
    pub fn encoded_size(&self) -> (size: usize)
        requires
            encoded_length(self@) <= usize::MAX,
        ensures
            size == encoded_length(self@),
    {
        let n = self.fields.len();
        let mut values: usize = 0;
        let mut i: usize = 0;
        while i < n
            invariant
                n == self.fields@.len(),
                i <= n,
                values == values_length(self@.take(i as int)),
                encoded_length(self@) <= usize::MAX,
            decreases n - i,
        {
            proof {
                lemma_values_length_prefix(self@, i as int);
                lemma_values_length_prefix(self@, i as int + 1);
            }
            values = values + self.fields[i].value.len();
            i += 1;
        }
        assert(self@.take(n as int) =~= self@);
        let offsets: usize = if n < 2 {
            0
        } else {
            4 * (n - 1)
        };
        4 + 4 * n + offsets + values
    }

    /// The wire form of the message.
    pub fn encode(&self) -> (out: Vec<u8>)
        requires
            encoded_length(self@) <= u32::MAX,
        ensures
            out@ == wire_encoding(self@),
            out@.len() == encoded_length(self@),
            aligned(self@) ==> wire_decoding(out@) == Some(self@),
    {
        proof {
            use_type_invariant(self);
        }
        encode_wire(&self.fields)
    }
}

} // verus!
