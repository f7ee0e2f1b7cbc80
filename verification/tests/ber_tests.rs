use gateway_core::ber::{
    read_application_tag, read_bool, read_contextual_tag, read_contextual_tag_or_unwind,
    read_enumerated, read_integer, read_length, read_octet_string_tag, read_sequence_tag,
    read_universal_tag, sizeof_contextual_tag, sizeof_integer, sizeof_length, sizeof_octet_string,
    sizeof_sequence, sizeof_sequence_octet_string, sizeof_sequence_tag, write_application_tag,
    write_bool, write_contextual_tag, write_enumerated, write_integer, write_length,
    write_octet_string, write_octet_string_tag, write_sequence_octet_string, write_sequence_tag,
    write_universal_tag, DecodeError, Pc, Tag,
};

#[test]
fn length_short_form() {
    let mut buf: Vec<u8> = Vec::new();
    assert_eq!(write_length(&mut buf, 0x7F), 1);
    assert_eq!(buf, vec![0x7F]);
    assert_eq!(read_length(&buf, 0), Ok((0x7F, 1)));
}

#[test]
fn length_one_byte_long_form() {
    let mut buf: Vec<u8> = Vec::new();
    assert_eq!(write_length(&mut buf, 0x80), 2);
    assert_eq!(buf, vec![0x81, 0x80]);
    assert_eq!(read_length(&buf, 0), Ok((0x80, 2)));
}

#[test]
fn length_two_byte_long_form() {
    let mut buf: Vec<u8> = Vec::new();
    assert_eq!(write_length(&mut buf, 0x100), 3);
    assert_eq!(buf, vec![0x82, 0x01, 0x00]);
    assert_eq!(read_length(&buf, 0), Ok((0x100, 3)));
}

#[test]
fn length_invalid_length_of_length() {
    assert_eq!(read_length(&[0x83, 0, 0, 0], 0), Err(DecodeError::InvalidData));
}

#[test]
fn length_empty_buffer() {
    assert_eq!(read_length(&[], 0), Err(DecodeError::UnexpectedEof));
}

#[test]
fn sizeof_length_boundaries() {
    assert_eq!(sizeof_length(0x7F), 1);
    assert_eq!(sizeof_length(0x80), 2);
    assert_eq!(sizeof_length(0xFF), 2);
    assert_eq!(sizeof_length(0x100), 3);
}

#[test]
fn universal_tag_round_trip() {
    let mut buf: Vec<u8> = Vec::new();
    assert_eq!(write_universal_tag(&mut buf, Tag::Sequence, Pc::Construct), 1);
    assert_eq!(buf, vec![0x30]);
    assert_eq!(read_universal_tag(&buf, 0, Tag::Sequence, Pc::Construct), Ok(1));
    assert_eq!(
        read_universal_tag(&buf, 0, Tag::Integer, Pc::Primitive),
        Err(DecodeError::InvalidData)
    );
}

#[test]
fn sequence_tag_round_trip() {
    let mut buf: Vec<u8> = Vec::new();
    assert_eq!(write_sequence_tag(&mut buf, 0x10), 2);
    assert_eq!(buf, vec![0x30, 0x10]);
    assert_eq!(read_sequence_tag(&buf, 0), Ok((0x10, 2)));
}

#[test]
fn sequence_tag_wrong_identifier() {
    assert_eq!(read_sequence_tag(&[0x31, 0x10], 0), Err(DecodeError::InvalidData));
}

#[test]
fn contextual_tag_round_trip() {
    let mut buf: Vec<u8> = Vec::new();
    assert_eq!(write_contextual_tag(&mut buf, 2, 5, Pc::Construct), 2);
    assert_eq!(buf, vec![0xA2, 0x05]);
    assert_eq!(read_contextual_tag(&buf, 0, 2, Pc::Construct), Ok((5, 2)));
    assert_eq!(read_contextual_tag(&buf, 0, 3, Pc::Construct), Err(DecodeError::InvalidData));
}

#[test]
fn contextual_tag_or_unwind_leaves_position() {
    let buf = vec![0xA2u8, 0x05];
    assert_eq!(read_contextual_tag_or_unwind(&buf, 0, 2, Pc::Construct), (Some(5), 2));
    assert_eq!(read_contextual_tag_or_unwind(&buf, 0, 7, Pc::Construct), (None, 0));
}

#[test]
fn application_tag_low_tag_number() {
    let mut buf: Vec<u8> = Vec::new();
    assert_eq!(write_application_tag(&mut buf, 5, 9), 2);
    assert_eq!(buf, vec![0x65, 0x09]);
    assert_eq!(read_application_tag(&buf, 0, 5), Ok((9, 2)));
}

#[test]
fn application_tag_high_tag_number() {
    let mut buf: Vec<u8> = Vec::new();
    assert_eq!(write_application_tag(&mut buf, 0x1F, 9), 3);
    assert_eq!(buf, vec![0x7F, 0x1F, 0x09]);
    assert_eq!(read_application_tag(&buf, 0, 0x1F), Ok((9, 3)));
    assert_eq!(read_application_tag(&[0x7F, 0x20, 0x09], 0, 0x1F), Err(DecodeError::InvalidData));
}

#[test]
fn enumerated_round_trip() {
    let mut buf: Vec<u8> = Vec::new();
    assert_eq!(write_enumerated(&mut buf, 3), 3);
    assert_eq!(buf, vec![0x0A, 0x01, 0x03]);
    assert_eq!(read_enumerated(&buf, 0, 5), Ok((3, 3)));
}

#[test]
fn enumerated_out_of_range() {
    let buf = vec![0x0Au8, 0x01, 0x05];
    assert_eq!(read_enumerated(&buf, 0, 5), Err(DecodeError::InvalidData));
}

#[test]
fn integer_one_byte() {
    let mut buf: Vec<u8> = Vec::new();
    assert_eq!(write_integer(&mut buf, 0x7F), 3);
    assert_eq!(buf, vec![0x02, 0x01, 0x7F]);
    assert_eq!(read_integer(&buf, 0), Ok((0x7F, 3)));
}

#[test]
fn integer_two_bytes() {
    let mut buf: Vec<u8> = Vec::new();
    assert_eq!(write_integer(&mut buf, 0x80), 4);
    assert_eq!(buf, vec![0x02, 0x02, 0x00, 0x80]);
    assert_eq!(read_integer(&buf, 0), Ok((0x80, 4)));
}

#[test]
fn integer_three_bytes() {
    let mut buf: Vec<u8> = Vec::new();
    assert_eq!(write_integer(&mut buf, 0x40_0000), 5);
    assert_eq!(buf, vec![0x02, 0x03, 0x40, 0x00, 0x00]);
    assert_eq!(read_integer(&buf, 0), Ok((0x40_0000, 5)));
}

#[test]
fn integer_four_bytes() {
    let mut buf: Vec<u8> = Vec::new();
    assert_eq!(write_integer(&mut buf, 0xFFFF_FFFF), 6);
    assert_eq!(buf, vec![0x02, 0x04, 0xFF, 0xFF, 0xFF, 0xFF]);
    assert_eq!(read_integer(&buf, 0), Ok((0xFFFF_FFFF, 6)));
}

#[test]
fn integer_eight_byte_body() {
    let buf = vec![0x02u8, 0x08, 0x01, 0x02, 0x03, 0x04, 0x05, 0x06, 0x07, 0x08];
    assert_eq!(read_integer(&buf, 0), Ok((0x0102_0304_0506_0708, 10)));
}

#[test]
fn integer_invalid_body_length() {
    let buf = vec![0x02u8, 0x05, 0x01, 0x02, 0x03, 0x04, 0x05];
    assert_eq!(read_integer(&buf, 0), Err(DecodeError::InvalidData));
}

#[test]
fn sizeof_integer_boundaries() {
    assert_eq!(sizeof_integer(0x7F), 3);
    assert_eq!(sizeof_integer(0x80), 4);
    assert_eq!(sizeof_integer(0x7FFF), 4);
    assert_eq!(sizeof_integer(0x8000), 5);
    assert_eq!(sizeof_integer(0x7F_FFFF), 5);
    assert_eq!(sizeof_integer(0x80_0000), 6);
}

#[test]
fn bool_round_trip() {
    let mut buf: Vec<u8> = Vec::new();
    assert_eq!(write_bool(&mut buf, true), 3);
    assert_eq!(buf, vec![0x01, 0x01, 0xFF]);
    assert_eq!(read_bool(&buf, 0), Ok((true, 3)));

    let mut buf2: Vec<u8> = Vec::new();
    assert_eq!(write_bool(&mut buf2, false), 3);
    assert_eq!(buf2, vec![0x01, 0x01, 0x00]);
    assert_eq!(read_bool(&buf2, 0), Ok((false, 3)));
}

#[test]
fn bool_any_nonzero_is_true() {
    assert_eq!(read_bool(&[0x01, 0x01, 0x2A], 0), Ok((true, 3)));
}

#[test]
fn octet_string_round_trip() {
    let mut buf: Vec<u8> = Vec::new();
    assert_eq!(write_octet_string(&mut buf, &[1, 2, 3]), 5);
    assert_eq!(buf, vec![0x04, 0x03, 0x01, 0x02, 0x03]);
    assert_eq!(read_octet_string_tag(&buf, 0), Ok((3, 2)));
}

#[test]
fn octet_string_tag_only() {
    let mut buf: Vec<u8> = Vec::new();
    assert_eq!(write_octet_string_tag(&mut buf, 0x90), 3);
    assert_eq!(buf, vec![0x04, 0x81, 0x90]);
    assert_eq!(read_octet_string_tag(&buf, 0), Ok((0x90, 3)));
}

#[test]
fn sequence_octet_string_layout() {
    let mut buf: Vec<u8> = Vec::new();
    assert_eq!(write_sequence_octet_string(&mut buf, 4, &[0xAA]), 5);
    assert_eq!(buf, vec![0xA4, 0x03, 0x04, 0x01, 0xAA]);
}

#[test]
fn sizeof_composites() {
    assert_eq!(sizeof_sequence(0x10), 0x12);
    assert_eq!(sizeof_sequence_tag(0x10), 2);
    assert_eq!(sizeof_sequence_tag(0x100), 4);
    assert_eq!(sizeof_contextual_tag(0x7F), 2);
    assert_eq!(sizeof_octet_string(1), 3);
    assert_eq!(sizeof_sequence_octet_string(1), 5);
}

#[test]
fn reads_at_positions_inside_larger_buffer() {
    let mut buf: Vec<u8> = vec![0xEE, 0xEE];
    write_integer(&mut buf, 0x80);
    write_bool(&mut buf, true);
    let (value, next) = read_integer(&buf, 2).unwrap();
    assert_eq!(value, 0x80);
    assert_eq!(read_bool(&buf, next), Ok((true, next + 3)));
}
