//! ASN.1 BER encoding and decoding over byte buffers.
//!
//! Writers append the encoding of one element to a `Vec<u8>` and return how
//! many bytes they appended. Readers take a buffer and a position, and return
//! the decoded value together with the position of the first byte after the
//! element; a reader never advances past a malformed element. Every encoder
//! and decoder is specified against a spec-level byte encoding, so that what
//! a writer produces and what a reader accepts is pinned down exactly.

use vstd::prelude::*;

verus! {

/// Why a decoder rejected its input.
#[derive(Clone, Copy, Debug, PartialEq, Eq, Structural)]
pub enum DecodeError {
    /// The buffer ended before the element was complete.
    UnexpectedEof,
    /// The bytes do not encode the expected element.
    InvalidData,
}

/// Primitive/constructed bit of a BER identifier octet.
#[derive(Clone, Copy, Debug)]
pub enum Pc {
    Primitive,
    Construct,
}

/// Universal tags used by this codec.
#[derive(Clone, Copy, Debug)]
pub enum Tag {
    Boolean,
    Integer,
    BitString,
    OctetString,
    ObjectIdentifier,
    Enumerated,
    Sequence,
}

/// Value of the primitive/constructed bit.
pub open spec fn spec_pc_bits(pc: Pc) -> u8 {
    match pc {
        Pc::Primitive => 0x00,
        Pc::Construct => 0x20,
    }
}

/// Tag number of a universal tag.
pub open spec fn spec_tag_number(tag: Tag) -> u8 {
    match tag {
        Tag::Boolean => 0x01,
        Tag::Integer => 0x02,
        Tag::BitString => 0x03,
        Tag::OctetString => 0x04,
        Tag::ObjectIdentifier => 0x06,
        Tag::Enumerated => 0x0A,
        Tag::Sequence => 0x10,
    }
}

/// Identifier octet of a universal-class element.
pub open spec fn spec_universal_id(tag: Tag, pc: Pc) -> u8 {
    (spec_pc_bits(pc) + spec_tag_number(tag)) as u8
}

/// BER definite length: one byte up to 0x7F, else a long form of one length
/// byte (0x81 or 0x82) followed by the length in big-endian.
pub open spec fn spec_length_bytes(length: u16) -> Seq<u8> {
    if length > 0xFF {
        seq![0x82u8, (length / 256) as u8, (length % 256) as u8]
    } else if length > 0x7F {
        seq![0x81u8, length as u8]
    } else {
        seq![length as u8]
    }
}

/// Result of decoding a length from the front of `s`: the length and how many
/// bytes its encoding took.
pub open spec fn spec_parse_length(s: Seq<u8>) -> Result<(u16, int), DecodeError> {
    if s.len() < 1 {
        Err(DecodeError::UnexpectedEof)
    } else if s[0] < 0x80 {
        Ok((s[0] as u16, 1))
    } else if s[0] == 0x81 {
        if s.len() < 2 {
            Err(DecodeError::UnexpectedEof)
        } else {
            Ok((s[1] as u16, 2))
        }
    } else if s[0] == 0x82 {
        if s.len() < 3 {
            Err(DecodeError::UnexpectedEof)
        } else {
            Ok((((s[1] as int) * 256 + (s[2] as int)) as u16, 3))
        }
    } else {
        Err(DecodeError::InvalidData)
    }
}

/// Identifier octet of a context-specific element: class bits 0x80, the
/// primitive/constructed bit, and the low five bits of the tag number.
pub open spec fn spec_contextual_id(tagnum: u8, pc: Pc) -> u8 {
    (0x80 + spec_pc_bits(pc) + (tagnum % 32)) as u8
}

/// Identifier bytes of an application-class constructed element: tag numbers
/// above 0x1E take a second identifier byte.
pub open spec fn spec_application_id_bytes(tagnum: u8) -> Seq<u8> {
    if tagnum > 0x1E {
        seq![0x7Fu8, tagnum]
    } else {
        seq![(0x60 + tagnum) as u8]
    }
}

/// Encoding of a sequence header: identifier octet, then the length.
pub open spec fn spec_sequence_tag_bytes(length: u16) -> Seq<u8> {
    seq![spec_universal_id(Tag::Sequence, Pc::Construct)] + spec_length_bytes(length)
}

/// Encoding of a contextual tag header.
pub open spec fn spec_contextual_tag_bytes(tagnum: u8, length: u16, pc: Pc) -> Seq<u8> {
    seq![spec_contextual_id(tagnum, pc)] + spec_length_bytes(length)
}

/// Encoding of an application tag header.
pub open spec fn spec_application_tag_bytes(tagnum: u8, length: u16) -> Seq<u8> {
    spec_application_id_bytes(tagnum) + spec_length_bytes(length)
}

/// Result of decoding one expected identifier octet followed by a length.
pub open spec fn spec_parse_tagged_length(s: Seq<u8>, id: u8) -> Result<(u16, int), DecodeError> {
    if s.len() < 1 {
        Err(DecodeError::UnexpectedEof)
    } else if s[0] != id {
        Err(DecodeError::InvalidData)
    } else {
        match spec_parse_length(s.skip(1)) {
            Ok(v) => Ok((v.0, 1 + v.1)),
            Err(e) => Err(e),
        }
    }
}

/// Result of decoding an application tag header from the front of `s`.
pub open spec fn spec_parse_application_tag(s: Seq<u8>, tagnum: u8) -> Result<
    (u16, int),
    DecodeError,
> {
    if tagnum > 0x1E {
        if s.len() < 1 {
            Err(DecodeError::UnexpectedEof)
        } else if s[0] != 0x7F {
            Err(DecodeError::InvalidData)
        } else if s.len() < 2 {
            Err(DecodeError::UnexpectedEof)
        } else if s[1] != tagnum {
            Err(DecodeError::InvalidData)
        } else {
            match spec_parse_length(s.skip(2)) {
                Ok(v) => Ok((v.0, 2 + v.1)),
                Err(e) => Err(e),
            }
        }
    } else {
        spec_parse_tagged_length(s, (0x60 + tagnum) as u8)
    }
}

/// The primitive/constructed bit of `pc`.
pub fn pc_bits(pc: Pc) -> (r: u8)
    ensures
        r == spec_pc_bits(pc),
{
    match pc {
        Pc::Primitive => 0x00,
        Pc::Construct => 0x20,
    }
}

/// The tag number of a universal tag.
pub fn tag_number(tag: Tag) -> (r: u8)
    ensures
        r == spec_tag_number(tag),
{
    match tag {
        Tag::Boolean => 0x01,
        Tag::Integer => 0x02,
        Tag::BitString => 0x03,
        Tag::OctetString => 0x04,
        Tag::ObjectIdentifier => 0x06,
        Tag::Enumerated => 0x0A,
        Tag::Sequence => 0x10,
    }
}

/// Appends the identifier octet of a universal-class element.
pub fn write_universal_tag(stream: &mut Vec<u8>, tag: Tag, pc: Pc) -> (r: usize)
    ensures
        final(stream)@ == old(stream)@ + seq![spec_universal_id(tag, pc)],
        r == 1,
{
    let identifier: u8 = pc_bits(pc) + tag_number(tag);
    stream.push(identifier);
    1
}

/// Decodes the identifier octet of a universal-class element at `pos`.
pub fn read_universal_tag(buf: &[u8], pos: usize, tag: Tag, pc: Pc) -> (r: Result<
    usize,
    DecodeError,
>)
    requires
        pos <= buf@.len(),
    ensures
        match r {
            Ok(p) => p == pos + 1 && p <= buf@.len() && buf@[pos as int] == spec_universal_id(
                tag,
                pc,
            ),
            Err(DecodeError::UnexpectedEof) => pos == buf@.len(),
            Err(DecodeError::InvalidData) => pos < buf@.len() && buf@[pos as int]
                != spec_universal_id(tag, pc),
        },
{
    if pos >= buf.len() {
        return Err(DecodeError::UnexpectedEof);
    }
    let identifier = buf[pos];
    if identifier != pc_bits(pc) + tag_number(tag) {
        Err(DecodeError::InvalidData)
    } else {
        Ok(pos + 1)
    }
}

/// Appends a sequence header for a body of `length` bytes.
pub fn write_sequence_tag(stream: &mut Vec<u8>, length: u16) -> (r: usize)
    ensures
        final(stream)@ == old(stream)@ + spec_sequence_tag_bytes(length),
        r == spec_sequence_tag_bytes(length).len(),
{
    let tag_len = write_universal_tag(stream, Tag::Sequence, Pc::Construct);
    let len_len = write_length(stream, length);
    tag_len + len_len
}

/// Decodes a sequence header at `pos`, returning the body length and the
/// position of the body.
pub fn read_sequence_tag(buf: &[u8], pos: usize) -> (r: Result<(u16, usize), DecodeError>)
    requires
        pos <= buf@.len(),
    ensures
        match r {
            Ok(v) => pos < v.1 <= buf@.len() && spec_parse_tagged_length(
                buf@.skip(pos as int),
                spec_universal_id(Tag::Sequence, Pc::Construct),
            ) == Ok::<(u16, int), DecodeError>((v.0, v.1 - pos)),
            Err(e) => spec_parse_tagged_length(
                buf@.skip(pos as int),
                spec_universal_id(Tag::Sequence, Pc::Construct),
            ) == Err::<(u16, int), DecodeError>(e),
        },
{
    let pos = match read_universal_tag(buf, pos, Tag::Sequence, Pc::Construct) {
        Ok(p) => p,
        Err(e) => {
            return Err(e);
        },
    };
    read_length(buf, pos)
}

/// Appends a contextual tag header.
pub fn write_contextual_tag(stream: &mut Vec<u8>, tagnum: u8, length: u16, pc: Pc) -> (r: usize)
    ensures
        final(stream)@ == old(stream)@ + spec_contextual_tag_bytes(tagnum, length, pc),
        r == spec_contextual_tag_bytes(tagnum, length, pc).len(),
{
    let identifier: u8 = 0x80 + pc_bits(pc) + tagnum % 32;
    stream.push(identifier);
    let len_len = write_length(stream, length);
    len_len + 1
}

/// Decodes a contextual tag header at `pos`.
pub fn read_contextual_tag(buf: &[u8], pos: usize, tagnum: u8, pc: Pc) -> (r: Result<
    (u16, usize),
    DecodeError,
>)
    requires
        pos <= buf@.len(),
    ensures
        match r {
            Ok(v) => pos < v.1 <= buf@.len() && spec_parse_tagged_length(
                buf@.skip(pos as int),
                spec_contextual_id(tagnum, pc),
            ) == Ok::<(u16, int), DecodeError>((v.0, v.1 - pos)),
            Err(e) => spec_parse_tagged_length(
                buf@.skip(pos as int),
                spec_contextual_id(tagnum, pc),
            ) == Err::<(u16, int), DecodeError>(e),
        },
{
    if pos >= buf.len() {
        return Err(DecodeError::UnexpectedEof);
    }
    let identifier = buf[pos];
    if identifier != 0x80 + pc_bits(pc) + tagnum % 32 {
        Err(DecodeError::InvalidData)
    } else {
        read_length(buf, pos + 1)
    }
}

/// Decodes an optional contextual tag header at `pos`: a header that does not
/// decode leaves the position where it was and yields no length.
pub fn read_contextual_tag_or_unwind(buf: &[u8], pos: usize, tagnum: u8, pc: Pc) -> (r: (
    Option<u16>,
    usize,
))
    requires
        pos <= buf@.len(),
    ensures
        match r.0 {
            Some(l) => pos < r.1 <= buf@.len() && spec_parse_tagged_length(
                buf@.skip(pos as int),
                spec_contextual_id(tagnum, pc),
            ) == Ok::<(u16, int), DecodeError>((l, r.1 - pos)),
            None => r.1 == pos && spec_parse_tagged_length(
                buf@.skip(pos as int),
                spec_contextual_id(tagnum, pc),
            ) is Err,
        },
{
    match read_contextual_tag(buf, pos, tagnum, pc) {
        Ok((length, new_pos)) => (Some(length), new_pos),
        Err(_) => (None, pos),
    }
}

/// Appends an application tag header.
pub fn write_application_tag(stream: &mut Vec<u8>, tagnum: u8, length: u16) -> (r: usize)
    ensures
        final(stream)@ == old(stream)@ + spec_application_tag_bytes(tagnum, length),
        r == spec_application_tag_bytes(tagnum, length).len(),
{
    let taglen: usize = if tagnum > 0x1E {
        stream.push(0x7F);
        stream.push(tagnum);
        2
    } else {
        stream.push(0x60 + tagnum);
        1
    };
    let len_len = write_length(stream, length);
    len_len + taglen
}

/// Decodes an application tag header at `pos`.
pub fn read_application_tag(buf: &[u8], pos: usize, tagnum: u8) -> (r: Result<
    (u16, usize),
    DecodeError,
>)
    requires
        pos <= buf@.len(),
    ensures
        match r {
            Ok(v) => pos < v.1 <= buf@.len() && spec_parse_application_tag(
                buf@.skip(pos as int),
                tagnum,
            ) == Ok::<(u16, int), DecodeError>((v.0, v.1 - pos)),
            Err(e) => spec_parse_application_tag(buf@.skip(pos as int), tagnum) == Err::<
                (u16, int),
                DecodeError,
            >(e),
        },
{
    if pos >= buf.len() {
        return Err(DecodeError::UnexpectedEof);
    }
    let identifier = buf[pos];
    if tagnum > 0x1E {
        if identifier != 0x7F {
            return Err(DecodeError::InvalidData);
        }
        if pos + 1 >= buf.len() {
            return Err(DecodeError::UnexpectedEof);
        }
        if buf[pos + 1] != tagnum {
            return Err(DecodeError::InvalidData);
        }
        read_length(buf, pos + 2)
    } else {
        if identifier != 0x60 + tagnum {
            return Err(DecodeError::InvalidData);
        }
        read_length(buf, pos + 1)
    }
}

/// Encoding of an enumerated value: identifier, length 1, the value.
pub open spec fn spec_enumerated_bytes(enumerated: u8) -> Seq<u8> {
    seq![spec_universal_id(Tag::Enumerated, Pc::Primitive), 0x01u8, enumerated]
}

/// Result of decoding an enumerated value with `count` variants from the
/// front of `s`.
pub open spec fn spec_parse_enumerated(s: Seq<u8>, count: u8) -> Result<(u8, int), DecodeError> {
    match spec_parse_tagged_length(s, spec_universal_id(Tag::Enumerated, Pc::Primitive)) {
        Err(e) => Err(e),
        Ok((length, consumed)) => if length != 1 {
            Err(DecodeError::InvalidData)
        } else if s.len() < consumed + 1 {
            Err(DecodeError::UnexpectedEof)
        } else if s[consumed] + 1 > count {
            Err(DecodeError::InvalidData)
        } else {
            Ok((s[consumed], consumed + 1))
        },
    }
}

/// Appends an enumerated value.
pub fn write_enumerated(stream: &mut Vec<u8>, enumerated: u8) -> (r: usize)
    ensures
        final(stream)@ == old(stream)@ + spec_enumerated_bytes(enumerated),
        r == 3,
{
    let mut size: usize = 0;
    size = size + write_universal_tag(stream, Tag::Enumerated, Pc::Primitive);
    size = size + write_length(stream, 1);
    stream.push(enumerated);
    size = size + 1;
    size
}

/// Decodes an enumerated value at `pos`; values of `count` or more variants
/// are rejected.
pub fn read_enumerated(buf: &[u8], pos: usize, count: u8) -> (r: Result<(u8, usize), DecodeError>)
    requires
        pos <= buf@.len(),
    ensures
        match r {
            Ok(v) => pos < v.1 <= buf@.len() && spec_parse_enumerated(buf@.skip(pos as int), count)
                == Ok::<(u8, int), DecodeError>((v.0, v.1 - pos)),
            Err(e) => spec_parse_enumerated(buf@.skip(pos as int), count) == Err::<
                (u8, int),
                DecodeError,
            >(e),
        },
{
    let pos2 = match read_universal_tag(buf, pos, Tag::Enumerated, Pc::Primitive) {
        Ok(p) => p,
        Err(e) => {
            return Err(e);
        },
    };
    let (length, pos3) = match read_length(buf, pos2) {
        Ok(v) => v,
        Err(e) => {
            return Err(e);
        },
    };
    if length != 1 {
        return Err(DecodeError::InvalidData);
    }
    if pos3 >= buf.len() {
        return Err(DecodeError::UnexpectedEof);
    }
    let enumerated = buf[pos3];
    if enumerated >= count {
        return Err(DecodeError::InvalidData);
    }
    Ok((enumerated, pos3 + 1))
}

/// Big-endian value of the `n` bytes of `s` starting at `from`.
pub open spec fn spec_be_value(s: Seq<u8>, from: int, n: int) -> int
    decreases n,
{
    if n <= 0 {
        0
    } else {
        spec_be_value(s, from, n - 1) * 256 + s[from + n - 1]
    }
}

/// 256 to the power `n`: the number of values a big-endian body of `n` bytes
/// can take.
pub open spec fn spec_be_pow(n: int) -> int
    decreases n,
{
    if n <= 0 {
        1
    } else {
        256 * spec_be_pow(n - 1)
    }
}

proof fn lemma_be_pow_pos(n: int)
    requires
        0 <= n,
    ensures
        spec_be_pow(n) >= 1,
    decreases n,
{
    if n > 0 {
        lemma_be_pow_pos(n - 1);
    }
}

proof fn lemma_be_pow_mono(a: int, b: int)
    requires
        0 <= a <= b,
    ensures
        spec_be_pow(a) <= spec_be_pow(b),
    decreases b,
{
    lemma_be_pow_pos(a);
    if a < b {
        lemma_be_pow_mono(a, b - 1);
        lemma_be_pow_pos(b - 1);
    }
}

/// Encoding of an integer: identifier, length, and the value in big-endian
/// using the fewest of 1, 2, 3 or 4 bytes that keep the sign bit clear.
pub open spec fn spec_integer_bytes(value: u32) -> Seq<u8> {
    let id = spec_universal_id(Tag::Integer, Pc::Primitive);
    if value < 0x80 {
        seq![id, 0x01u8, value as u8]
    } else if value < 0x8000 {
        seq![id, 0x02u8, (value / 0x100) as u8, (value % 0x100) as u8]
    } else if value < 0x800000 {
        seq![
            id,
            0x03u8,
            (value / 0x10000) as u8,
            ((value / 0x100) % 0x100) as u8,
            (value % 0x100) as u8,
        ]
    } else {
        seq![
            id,
            0x04u8,
            (value / 0x1000000) as u8,
            ((value / 0x10000) % 0x100) as u8,
            ((value / 0x100) % 0x100) as u8,
            (value % 0x100) as u8,
        ]
    }
}

/// Result of decoding an integer from the front of `s`: the decoder accepts
/// big-endian bodies of 1, 2, 3, 4 or 8 bytes.
pub open spec fn spec_parse_integer(s: Seq<u8>) -> Result<(u64, int), DecodeError> {
    match spec_parse_tagged_length(s, spec_universal_id(Tag::Integer, Pc::Primitive)) {
        Err(e) => Err(e),
        Ok((length, consumed)) => if length == 1 || length == 2 || length == 3 || length == 4
            || length == 8 {
            if s.len() < consumed + length {
                Err(DecodeError::UnexpectedEof)
            } else {
                Ok(((spec_be_value(s, consumed, length as int) as u64), consumed + length))
            }
        } else {
            Err(DecodeError::InvalidData)
        },
    }
}

/// How many bytes `write_integer` appends for `value`.
pub fn sizeof_integer(value: u32) -> (r: u16)
    ensures
        r == spec_integer_bytes(value).len(),
{
    if value < 0x80 {
        3
    } else if value < 0x8000 {
        4
    } else if value < 0x800_000 {
        5
    } else {
        6
    }
}

/// Appends an integer in its shortest unsigned big-endian form.
pub fn write_integer(stream: &mut Vec<u8>, value: u32) -> (r: usize)
    ensures
        final(stream)@ == old(stream)@ + spec_integer_bytes(value),
        r == spec_integer_bytes(value).len(),
{
    write_universal_tag(stream, Tag::Integer, Pc::Primitive);
    if value < 0x80 {
        write_length(stream, 1);
        stream.push(value as u8);
        3
    } else if value < 0x8000 {
        write_length(stream, 2);
        stream.push((value / 0x100) as u8);
        stream.push((value % 0x100) as u8);
        4
    } else if value < 0x800_000 {
        write_length(stream, 3);
        stream.push((value / 0x10000) as u8);
        stream.push(((value / 0x100) % 0x100) as u8);
        stream.push((value % 0x100) as u8);
        5
    } else {
        write_length(stream, 4);
        stream.push((value / 0x1000000) as u8);
        stream.push(((value / 0x10000) % 0x100) as u8);
        stream.push(((value / 0x100) % 0x100) as u8);
        stream.push((value % 0x100) as u8);
        6
    }
}

/// Decodes an integer at `pos`.
pub fn read_integer(buf: &[u8], pos: usize) -> (r: Result<(u64, usize), DecodeError>)
    requires
        pos <= buf@.len(),
    ensures
        match r {
            Ok(v) => pos < v.1 <= buf@.len() && spec_parse_integer(buf@.skip(pos as int)) == Ok::<
                (u64, int),
                DecodeError,
            >((v.0, v.1 - pos)),
            Err(e) => spec_parse_integer(buf@.skip(pos as int)) == Err::<(u64, int), DecodeError>(
                e,
            ),
        },
{
    let pos2 = match read_universal_tag(buf, pos, Tag::Integer, Pc::Primitive) {
        Ok(p) => p,
        Err(e) => {
            return Err(e);
        },
    };
    let (length, pos3) = match read_length(buf, pos2) {
        Ok(v) => v,
        Err(e) => {
            return Err(e);
        },
    };
    if !(length == 1 || length == 2 || length == 3 || length == 4 || length == 8) {
        return Err(DecodeError::InvalidData);
    }
    if buf.len() - pos3 < length as usize {
        return Err(DecodeError::UnexpectedEof);
    }
    let end: usize = pos3 + length as usize;
    proof {
        reveal_with_fuel(spec_be_pow, 9);
        assert(spec_be_pow(8) == 0x10000000000000000);
    }
    let mut value: u64 = 0;
    let mut i: usize = pos3;
    while i < end
        invariant
            pos <= pos3 <= i <= end,
            end == pos3 + length,
            end <= buf@.len(),
            value == spec_be_value(buf@.skip(pos as int), pos3 - pos, i - pos3),
            value < spec_be_pow(i - pos3),
            spec_be_pow(end - pos3) <= 0x10000000000000000,
        decreases end - i,
    {
        proof {
            lemma_be_pow_mono(i + 1 - pos3, end - pos3);
        }
        value = value * 256 + (buf[i] as u64);
        i = i + 1;
    }
    Ok((value, end))
}

/// Encoding of a boolean: identifier, length 1, then 0xFF for true and 0x00
/// for false.
pub open spec fn spec_bool_bytes(value: bool) -> Seq<u8> {
    seq![
        spec_universal_id(Tag::Boolean, Pc::Primitive),
        0x01u8,
        if value {
            0xFFu8
        } else {
            0x00u8
        },
    ]
}

/// Result of decoding a boolean from the front of `s`: any non-zero body byte
/// decodes as true.
pub open spec fn spec_parse_bool(s: Seq<u8>) -> Result<(bool, int), DecodeError> {
    match spec_parse_tagged_length(s, spec_universal_id(Tag::Boolean, Pc::Primitive)) {
        Err(e) => Err(e),
        Ok((length, consumed)) => if length != 1 {
            Err(DecodeError::InvalidData)
        } else if s.len() < consumed + 1 {
            Err(DecodeError::UnexpectedEof)
        } else {
            Ok((s[consumed] != 0, consumed + 1))
        },
    }
}

/// Appends a boolean.
pub fn write_bool(stream: &mut Vec<u8>, value: bool) -> (r: usize)
    ensures
        final(stream)@ == old(stream)@ + spec_bool_bytes(value),
        r == 3,
{
    let mut size: usize = 0;
    size = size + write_universal_tag(stream, Tag::Boolean, Pc::Primitive);
    size = size + write_length(stream, 1);
    stream.push(
        if value {
            0xFF
        } else {
            0x00
        },
    );
    size = size + 1;
    size
}

/// Decodes a boolean at `pos`.
pub fn read_bool(buf: &[u8], pos: usize) -> (r: Result<(bool, usize), DecodeError>)
    requires
        pos <= buf@.len(),
    ensures
        match r {
            Ok(v) => pos < v.1 <= buf@.len() && spec_parse_bool(buf@.skip(pos as int)) == Ok::<
                (bool, int),
                DecodeError,
            >((v.0, v.1 - pos)),
            Err(e) => spec_parse_bool(buf@.skip(pos as int)) == Err::<(bool, int), DecodeError>(e),
        },
{
    let pos2 = match read_universal_tag(buf, pos, Tag::Boolean, Pc::Primitive) {
        Ok(p) => p,
        Err(e) => {
            return Err(e);
        },
    };
    let (length, pos3) = match read_length(buf, pos2) {
        Ok(v) => v,
        Err(e) => {
            return Err(e);
        },
    };
    if length != 1 {
        return Err(DecodeError::InvalidData);
    }
    if pos3 >= buf.len() {
        return Err(DecodeError::UnexpectedEof);
    }
    Ok((buf[pos3] != 0, pos3 + 1))
}

/// Encoding of an octet-string header for a body of `length` bytes.
pub open spec fn spec_octet_string_tag_bytes(length: u16) -> Seq<u8> {
    seq![spec_universal_id(Tag::OctetString, Pc::Primitive)] + spec_length_bytes(length)
}

/// Encoding of a whole octet string.
pub open spec fn spec_octet_string_bytes(value: Seq<u8>) -> Seq<u8> {
    spec_octet_string_tag_bytes(value.len() as u16) + value
}

/// Encoding of an octet string wrapped in a constructed contextual tag.
pub open spec fn spec_sequence_octet_string_bytes(tagnum: u8, value: Seq<u8>) -> Seq<u8> {
    spec_contextual_tag_bytes(
        tagnum,
        (1 + spec_length_bytes(value.len() as u16).len() + value.len()) as u16,
        Pc::Construct,
    ) + spec_octet_string_bytes(value)
}

/// Appends the bytes of `value` unchanged.
pub(crate) fn append_bytes(stream: &mut Vec<u8>, value: &[u8])
    ensures
        final(stream)@ == old(stream)@ + value@,
{
    let mut i: usize = 0;
    while i < value.len()
        invariant
            i <= value@.len(),
            stream@ == old(stream)@ + value@.take(i as int),
        decreases value@.len() - i,
    {
        stream.push(value[i]);
        i = i + 1;
    }
    assert(value@.take(value@.len() as int) == value@);
}

/// Appends an octet-string header for a body of `length` bytes.
pub fn write_octet_string_tag(stream: &mut Vec<u8>, length: u16) -> (r: usize)
    ensures
        final(stream)@ == old(stream)@ + spec_octet_string_tag_bytes(length),
        r == spec_octet_string_tag_bytes(length).len(),
{
    let tag_len = write_universal_tag(stream, Tag::OctetString, Pc::Primitive);
    let len_len = write_length(stream, length);
    len_len + tag_len
}

/// Decodes an octet-string header at `pos`, returning the body length and the
/// position of the body.
pub fn read_octet_string_tag(buf: &[u8], pos: usize) -> (r: Result<(u16, usize), DecodeError>)
    requires
        pos <= buf@.len(),
    ensures
        match r {
            Ok(v) => pos < v.1 <= buf@.len() && spec_parse_tagged_length(
                buf@.skip(pos as int),
                spec_universal_id(Tag::OctetString, Pc::Primitive),
            ) == Ok::<(u16, int), DecodeError>((v.0, v.1 - pos)),
            Err(e) => spec_parse_tagged_length(
                buf@.skip(pos as int),
                spec_universal_id(Tag::OctetString, Pc::Primitive),
            ) == Err::<(u16, int), DecodeError>(e),
        },
{
    let pos2 = match read_universal_tag(buf, pos, Tag::OctetString, Pc::Primitive) {
        Ok(p) => p,
        Err(e) => {
            return Err(e);
        },
    };
    read_length(buf, pos2)
}

/// Appends a whole octet string: header, then the bytes of `value`.
pub fn write_octet_string(stream: &mut Vec<u8>, value: &[u8]) -> (r: usize)
    requires
        value@.len() <= u16::MAX,
    ensures
        final(stream)@ == old(stream)@ + spec_octet_string_bytes(value@),
        r == spec_octet_string_bytes(value@).len(),
{
    let tag_size = write_octet_string_tag(stream, value.len() as u16);
    append_bytes(stream, value);
    tag_size + value.len()
}

/// Appends an octet string wrapped in a constructed contextual tag.
pub fn write_sequence_octet_string(stream: &mut Vec<u8>, tagnum: u8, value: &[u8]) -> (r: usize)
    requires
        1 + spec_length_bytes(value@.len() as u16).len() + value@.len() <= u16::MAX,
    ensures
        final(stream)@ == old(stream)@ + spec_sequence_octet_string_bytes(tagnum, value@),
        r == spec_sequence_octet_string_bytes(tagnum, value@).len(),
{
    let octet_string_size = sizeof_octet_string(value.len() as u16);
    let tag_len = write_contextual_tag(stream, tagnum, octet_string_size, Pc::Construct);
    let string_len = write_octet_string(stream, value);
    tag_len + string_len
}

/// How many bytes a whole sequence of `length` body bytes takes.
pub fn sizeof_sequence(length: u16) -> (r: u16)
    requires
        1 + spec_length_bytes(length).len() + length <= u16::MAX,
    ensures
        r == spec_sequence_tag_bytes(length).len() + length,
{
    1 + sizeof_length(length) + length
}

/// How many bytes a sequence header for `length` body bytes takes.
pub fn sizeof_sequence_tag(length: u16) -> (r: u16)
    ensures
        r == spec_sequence_tag_bytes(length).len(),
{
    1 + sizeof_length(length)
}

/// How many bytes a contextual tag header for `length` body bytes takes.
pub fn sizeof_contextual_tag(length: u16) -> (r: u16)
    ensures
        r == spec_contextual_tag_bytes(0, length, Pc::Construct).len(),
{
    1 + sizeof_length(length)
}

/// How many bytes a whole octet string of `length` body bytes takes.
pub fn sizeof_octet_string(length: u16) -> (r: u16)
    requires
        1 + spec_length_bytes(length).len() + length <= u16::MAX,
    ensures
        r == 1 + spec_length_bytes(length).len() + length,
{
    1 + sizeof_length(length) + length
}

/// How many bytes an octet string of `length` body bytes takes once wrapped
/// in its constructed contextual tag.
pub fn sizeof_sequence_octet_string(length: u16) -> (r: u16)
    requires
        1 + spec_length_bytes(length).len() + length <= u16::MAX,
        spec_contextual_tag_bytes(
            0,
            (1 + spec_length_bytes(length).len() + length) as u16,
            Pc::Construct,
        ).len() + 1 + spec_length_bytes(length).len() + length <= u16::MAX,
    ensures
        r == spec_contextual_tag_bytes(
            0,
            (1 + spec_length_bytes(length).len() + length) as u16,
            Pc::Construct,
        ).len() + 1 + spec_length_bytes(length).len() + length,
{
    let octet_string_size = sizeof_octet_string(length);
    sizeof_contextual_tag(octet_string_size) + octet_string_size
}

/// How many bytes the length determinant of `length` takes.
pub fn sizeof_length(length: u16) -> (r: u16)
    ensures
        r == spec_length_bytes(length).len(),
{
    if length > 0xff {
        3
    } else if length > 0x7f {
        2
    } else {
        1
    }
}

/// Appends the length determinant of `length`.
pub fn write_length(stream: &mut Vec<u8>, length: u16) -> (r: usize)
    ensures
        final(stream)@ == old(stream)@ + spec_length_bytes(length),
        r == spec_length_bytes(length).len(),
{
    if length > 0xFF {
        stream.push(0x82);
        stream.push((length / 256) as u8);
        stream.push((length % 256) as u8);
        3
    } else if length > 0x7F {
        stream.push(0x81);
        stream.push(length as u8);
        2
    } else {
        stream.push(length as u8);
        1
    }
}

/// Decodes a length determinant at `pos`, returning the length and the
/// position after it.
pub fn read_length(buf: &[u8], pos: usize) -> (r: Result<(u16, usize), DecodeError>)
    requires
        pos <= buf@.len(),
    ensures
        match r {
            Ok(v) => pos < v.1 <= buf@.len() && spec_parse_length(buf@.skip(pos as int)) == Ok::<
                (u16, int),
                DecodeError,
            >((v.0, v.1 - pos)),
            Err(e) => spec_parse_length(buf@.skip(pos as int)) == Err::<(u16, int), DecodeError>(e),
        },
{
    if pos >= buf.len() {
        return Err(DecodeError::UnexpectedEof);
    }
    let b = buf[pos];
    if b < 0x80 {
        Ok((b as u16, pos + 1))
    } else if b == 0x81 {
        if buf.len() - pos < 2 {
            Err(DecodeError::UnexpectedEof)
        } else {
            Ok((buf[pos + 1] as u16, pos + 2))
        }
    } else if b == 0x82 {
        if buf.len() - pos < 3 {
            Err(DecodeError::UnexpectedEof)
        } else {
            let v: u16 = (buf[pos + 1] as u16) * 256 + (buf[pos + 2] as u16);
            Ok((v, pos + 3))
        }
    } else {
        Err(DecodeError::InvalidData)
    }
}

/// Decoding a freshly written length determinant gives back the length,
/// whatever bytes follow it.
pub proof fn lemma_length_round_trip(length: u16, rest: Seq<u8>)
    ensures
        spec_parse_length(spec_length_bytes(length) + rest) == Ok::<(u16, int), DecodeError>(
            (length, spec_length_bytes(length).len() as int),
        ),
{
    let s = spec_length_bytes(length) + rest;
    if length > 0xFF {
        assert(s[0] == 0x82);
        assert(s[1] == (length / 256) as u8 && s[2] == (length % 256) as u8);
        assert((length / 256) * 256 + length % 256 == length) by {
            vstd::arithmetic::div_mod::lemma_fundamental_div_mod(length as int, 256);
        }
    } else if length > 0x7F {
        assert(s[0] == 0x81 && s[1] == length as u8);
    } else {
        assert(s[0] == length as u8);
    }
}

/// Decoding a freshly written tag header with the identifier it was written
/// with gives back the body length, whatever bytes follow the header.
pub proof fn lemma_tagged_length_round_trip(id: u8, length: u16, rest: Seq<u8>)
    ensures
        spec_parse_tagged_length(seq![id] + spec_length_bytes(length) + rest, id) == Ok::<
            (u16, int),
            DecodeError,
        >((length, 1 + spec_length_bytes(length).len() as int)),
{
    let s = seq![id] + spec_length_bytes(length) + rest;
    assert(s[0] == id);
    assert(s.skip(1) =~= spec_length_bytes(length) + rest);
    lemma_length_round_trip(length, rest);
}

/// Decoding a freshly written integer gives back the value, whatever bytes
/// follow it.
pub proof fn lemma_integer_round_trip(value: u32, rest: Seq<u8>)
    ensures
        spec_parse_integer(spec_integer_bytes(value) + rest) == Ok::<(u64, int), DecodeError>(
            (value as u64, spec_integer_bytes(value).len() as int),
        ),
{
    let s = spec_integer_bytes(value) + rest;
    let id = spec_universal_id(Tag::Integer, Pc::Primitive);
    reveal_with_fuel(spec_be_value, 5);
    if value < 0x80 {
        assert(s =~= seq![id] + spec_length_bytes(1) + (seq![value as u8] + rest));
        lemma_tagged_length_round_trip(id, 1, seq![value as u8] + rest);
        assert(spec_be_value(s, 2, 1) == s[2]);
    } else if value < 0x8000 {
        assert(s =~= seq![id] + spec_length_bytes(2) + (seq![
            (value / 0x100) as u8,
            (value % 0x100) as u8,
        ] + rest));
        lemma_tagged_length_round_trip(
            id,
            2,
            seq![(value / 0x100) as u8, (value % 0x100) as u8] + rest,
        );
        assert((value / 0x100) * 0x100 + value % 0x100 == value) by {
            vstd::arithmetic::div_mod::lemma_fundamental_div_mod(value as int, 0x100);
        }
        assert(spec_be_value(s, 2, 2) == s[2] * 256 + s[3]);
    } else if value < 0x800000 {
        assert(s =~= seq![id] + spec_length_bytes(3) + (seq![
            (value / 0x10000) as u8,
            ((value / 0x100) % 0x100) as u8,
            (value % 0x100) as u8,
        ] + rest));
        lemma_tagged_length_round_trip(
            id,
            3,
            seq![(value / 0x10000) as u8, ((value / 0x100) % 0x100) as u8, (value % 0x100) as u8]
                + rest,
        );
        assert((value / 0x10000) * 0x10000 + ((value / 0x100) % 0x100) * 0x100 + value % 0x100
            == value) by (bit_vector);
        assert(spec_be_value(s, 2, 3) == (s[2] * 256 + s[3]) * 256 + s[4]);
    } else {
        assert(s =~= seq![id] + spec_length_bytes(4) + (seq![
            (value / 0x1000000) as u8,
            ((value / 0x10000) % 0x100) as u8,
            ((value / 0x100) % 0x100) as u8,
            (value % 0x100) as u8,
        ] + rest));
        lemma_tagged_length_round_trip(
            id,
            4,
            seq![
                (value / 0x1000000) as u8,
                ((value / 0x10000) % 0x100) as u8,
                ((value / 0x100) % 0x100) as u8,
                (value % 0x100) as u8,
            ] + rest,
        );
        assert((value / 0x1000000) * 0x1000000 + ((value / 0x10000) % 0x100) * 0x10000 + ((value
            / 0x100) % 0x100) * 0x100 + value % 0x100 == value) by (bit_vector);
        assert(spec_be_value(s, 2, 4) == ((s[2] * 256 + s[3]) * 256 + s[4]) * 256 + s[5]);
    }
}

/// Decoding a freshly written enumerated value of a known variant gives it
/// back, whatever bytes follow it.
pub proof fn lemma_enumerated_round_trip(enumerated: u8, count: u8, rest: Seq<u8>)
    requires
        enumerated < count,
    ensures
        spec_parse_enumerated(spec_enumerated_bytes(enumerated) + rest, count) == Ok::<
            (u8, int),
            DecodeError,
        >((enumerated, 3)),
{
    let s = spec_enumerated_bytes(enumerated) + rest;
    let id = spec_universal_id(Tag::Enumerated, Pc::Primitive);
    assert(s =~= seq![id] + spec_length_bytes(1) + (seq![enumerated] + rest));
    lemma_tagged_length_round_trip(id, 1, seq![enumerated] + rest);
}

/// Decoding the header of a freshly written octet string gives back the
/// string's length, and the string's bytes follow the header unaltered.
pub proof fn lemma_octet_string_round_trip(value: Seq<u8>, rest: Seq<u8>)
    requires
        value.len() <= u16::MAX,
    ensures
        spec_parse_tagged_length(
            spec_octet_string_bytes(value) + rest,
            spec_universal_id(Tag::OctetString, Pc::Primitive),
        ) == Ok::<(u16, int), DecodeError>(
            (value.len() as u16, spec_octet_string_tag_bytes(value.len() as u16).len() as int),
        ),
        (spec_octet_string_bytes(value) + rest).skip(
            spec_octet_string_tag_bytes(value.len() as u16).len() as int,
        ) == value + rest,
{
    let id = spec_universal_id(Tag::OctetString, Pc::Primitive);
    let len = value.len() as u16;
    assert(spec_octet_string_bytes(value) + rest =~= seq![id] + spec_length_bytes(len) + (value
        + rest));
    lemma_tagged_length_round_trip(id, len, value + rest);
    assert((spec_octet_string_bytes(value) + rest).skip(
        spec_octet_string_tag_bytes(len).len() as int,
    ) =~= value + rest);
}

/// Decoding a freshly written boolean gives it back, whatever bytes follow.
pub proof fn lemma_bool_round_trip(value: bool, rest: Seq<u8>)
    ensures
        spec_parse_bool(spec_bool_bytes(value) + rest) == Ok::<(bool, int), DecodeError>(
            (value, 3),
        ),
{
    let s = spec_bool_bytes(value) + rest;
    let id = spec_universal_id(Tag::Boolean, Pc::Primitive);
    let body: u8 = if value {
        0xFF
    } else {
        0x00
    };
    assert(s =~= seq![id] + spec_length_bytes(1) + (seq![body] + rest));
    lemma_tagged_length_round_trip(id, 1, seq![body] + rest);
}

} // verus!
