use roughenough::{RtMessage, Tag};
use roughstamp::endian::bytes_equal;
use roughstamp::error::StampError;
use roughstamp::message::{Field, Message};
use roughstamp::tag;

fn two_fields() -> Vec<u8> {
    let mut msg = RtMessage::new(2);
    msg.add_field(Tag::NONC, b"aabbccddeeffgghh").unwrap();
    msg.add_field(Tag::MAXT, b"09876543").unwrap();
    msg.encode().unwrap()
}

#[test]
fn tags_are_the_wire_bytes_read_least_byte_first() {
    let pairs: [(Tag, u32); 14] = [
        (Tag::SIG, tag::SIG),
        (Tag::NONC, tag::NONC),
        (Tag::DELE, tag::DELE),
        (Tag::PATH, tag::PATH),
        (Tag::RADI, tag::RADI),
        (Tag::PUBK, tag::PUBK),
        (Tag::MIDP, tag::MIDP),
        (Tag::SREP, tag::SREP),
        (Tag::MINT, tag::MINT),
        (Tag::ROOT, tag::ROOT),
        (Tag::CERT, tag::CERT),
        (Tag::MAXT, tag::MAXT),
        (Tag::INDX, tag::INDX),
        (Tag::PAD, tag::PAD),
    ];
    let mut last: Option<u32> = None;
    for (outside, ours) in pairs {
        assert_eq!(outside.wire_value(), &ours.to_le_bytes());
        assert!(tag::known(ours));
        if let Some(before) = last {
            assert!(before < ours);
        }
        last = Some(ours);
    }
    assert_eq!(tag::NONC, 0x434e4f4e);
    assert_eq!(tag::SIG, 0x00474953);
}

#[test]
fn other_numbers_are_no_tags() {
    assert!(!tag::known(0));
    assert!(!tag::known(0x12345678));
    assert!(!tag::known(tag::PAD - 1));
    assert!(!tag::known(u32::MAX));
}

#[test]
fn decoded_message_holds_each_field() {
    let msg = Message::from_bytes(&two_fields()).unwrap();
    assert_eq!(msg.get(tag::NONC), Some(&b"aabbccddeeffgghh".to_vec()));
    assert_eq!(msg.get(tag::MAXT), Some(&b"09876543".to_vec()));
    assert_eq!(msg.get(tag::CERT), None);
    assert_eq!(msg.get(0x12345678), None);
}

#[test]
fn message_without_fields_decodes() {
    let msg = Message::from_bytes(&[0, 0, 0, 0]).unwrap();
    assert_eq!(msg.get(tag::NONC), None);
    assert_eq!(msg.encoded_size(), 4);
}

#[test]
fn message_of_one_field_decodes() {
    let mut outside = RtMessage::new(1);
    outside.add_field(Tag::CERT, &[b'a'; 64]).unwrap();
    let msg = Message::from_bytes(&outside.encode().unwrap()).unwrap();
    assert_eq!(msg.get(tag::CERT), Some(&vec![b'a'; 64]));
    assert_eq!(msg.encoded_size(), 72);
}

#[test]
fn bytes_that_are_no_message_are_malformed() {
    assert_eq!(Message::from_bytes(&[]).unwrap_err(), StampError::MalformedResponse);
    assert_eq!(Message::from_bytes(&[1, 0, 0]).unwrap_err(), StampError::MalformedResponse);
    assert_eq!(
        Message::from_bytes(&[1, 0, 0, 0, 0]).unwrap_err(),
        StampError::MalformedResponse
    );
    // One field is announced and no tag follows.
    assert_eq!(Message::from_bytes(&[1, 0, 0, 0]).unwrap_err(), StampError::MalformedResponse);
    // An unknown tag.
    assert_eq!(
        Message::from_bytes(&[1, 0, 0, 0, b'X', b'X', b'X', b'X']).unwrap_err(),
        StampError::MalformedResponse
    );
    // Too many fields.
    assert_eq!(
        Message::from_bytes(&[0xff, 0xff, 0, 0, 0, 0, 0, 0]).unwrap_err(),
        StampError::MalformedResponse
    );
}

#[test]
fn tags_out_of_order_are_malformed() {
    let mut bytes = two_fields();
    // Swap the two tags in the header.
    let (nonc, maxt) = (bytes[8..12].to_vec(), bytes[12..16].to_vec());
    bytes[8..12].copy_from_slice(&maxt);
    bytes[12..16].copy_from_slice(&nonc);
    assert_eq!(Message::from_bytes(&bytes).unwrap_err(), StampError::MalformedResponse);
    // The same tag twice.
    let mut twice = two_fields();
    twice[12..16].copy_from_slice(&nonc);
    assert_eq!(Message::from_bytes(&twice).unwrap_err(), StampError::MalformedResponse);
}

#[test]
fn offset_beyond_the_end_is_malformed() {
    let mut bytes = two_fields();
    bytes[4] = 128;
    assert_eq!(Message::from_bytes(&bytes).unwrap_err(), StampError::MalformedResponse);
}

#[test]
fn fields_are_added_in_rising_order_only() {
    let msg = Message::new().with_field(tag::NONC, vec![1, 2, 3, 4]).unwrap();
    assert!(Message::new()
        .with_field(tag::NONC, vec![1, 2, 3, 4])
        .unwrap()
        .with_field(tag::NONC, vec![])
        .is_none());
    assert!(Message::new()
        .with_field(tag::NONC, vec![1, 2, 3, 4])
        .unwrap()
        .with_field(tag::SIG, vec![])
        .is_none());
    assert!(Message::new().with_field(0x12345678, vec![]).is_none());
    let msg = msg.with_field(tag::PAD, vec![9, 9, 9, 9]).unwrap();
    assert_eq!(msg.get(tag::NONC), Some(&vec![1, 2, 3, 4]));
    assert_eq!(msg.get(tag::PAD), Some(&vec![9, 9, 9, 9]));
    assert_eq!(msg.get(tag::SIG), None);
}

#[test]
fn encoded_size_counts_header_and_values() {
    assert_eq!(Message::new().encoded_size(), 4);
    let one = Message::new().with_field(tag::NONC, b"1234".to_vec()).unwrap();
    assert_eq!(one.encoded_size(), 12);
    let two = one.with_field(tag::PAD, b"abcd".to_vec()).unwrap();
    assert_eq!(two.encoded_size(), 24);
    assert_eq!(two.encode().len(), 24);
}

#[test]
fn encoding_is_that_of_the_wire_format() {
    let msg = Message::new()
        .with_field(tag::DELE, vec![b'a'; 24])
        .unwrap()
        .with_field(tag::MAXT, vec![b'z'; 32])
        .unwrap();
    let mut outside = RtMessage::new(2);
    outside.add_field(Tag::DELE, &[b'a'; 24]).unwrap();
    outside.add_field(Tag::MAXT, &[b'z'; 32]).unwrap();
    let bytes = msg.encode();
    assert_eq!(bytes, outside.encode().unwrap());
    assert_eq!(bytes.len(), msg.encoded_size());
    assert_eq!(&bytes[0..8], &[2, 0, 0, 0, 24, 0, 0, 0]);
    assert_eq!(&bytes[8..16], b"DELEMAXT");
}

#[test]
fn encoding_reads_back() {
    let msg = Message::new()
        .with_field(tag::SIG, vec![5u8; 64])
        .unwrap()
        .with_field(tag::PATH, vec![])
        .unwrap()
        .with_field(tag::INDX, vec![3, 0, 0, 0])
        .unwrap();
    let back = Message::from_bytes(&msg.encode()).unwrap();
    assert_eq!(back.get(tag::SIG), Some(&vec![5u8; 64]));
    assert_eq!(back.get(tag::PATH), Some(&vec![]));
    assert_eq!(back.get(tag::INDX), Some(&vec![3, 0, 0, 0]));
    assert_eq!(back.get(tag::CERT), None);
    assert_eq!(back.encoded_size(), msg.encoded_size());
}

#[test]
fn a_field_is_a_tag_and_a_value() {
    let field = Field { tag: tag::ROOT, value: vec![1, 2] };
    assert_eq!(field.tag, 0x544f4f52);
    assert_eq!(field.value, vec![1, 2]);
}

#[test]
fn byte_strings_compare_by_content() {
    assert!(bytes_equal(&[], &[]));
    assert!(bytes_equal(&[1, 2, 3], &[1, 2, 3]));
    assert!(!bytes_equal(&[1, 2, 3], &[1, 2, 4]));
    assert!(!bytes_equal(&[1, 2, 3], &[1, 2]));
    assert!(!bytes_equal(&[], &[0]));
}
