//! The byte formats the library reads and predicts: little-endian numbers
//! and length-prefixed text.

use borsh::BorshDeserialize;
use vstd::prelude::*;
use vstd::utf8::*;

verus! {

/// The error type of the decoding crate's readers. Nothing is known of a
/// value of it; the library only tells failure from success.
#[verifier::external_type_specification]
#[verifier::external_body]
pub struct ExIoError(std::io::Error);

/// The number that four bytes spell, least significant byte first.
pub open spec fn le_u32(bytes: Seq<u8>) -> nat
    recommends
        bytes.len() == 4,
{
    (bytes[0] as nat) + 0x100 * (bytes[1] as nat) + 0x1_0000 * (bytes[2] as nat) + 0x100_0000 * (
    bytes[3] as nat)
}

/// The two bytes of a number, least significant first.
pub open spec fn u16_le(value: u16) -> Seq<u8> {
    seq![(value % 0x100) as u8, (value / 0x100) as u8]
}

/// The four bytes of a number, least significant first.
pub open spec fn u32_le(value: u32) -> Seq<u8> {
    seq![
        (value % 0x100) as u8,
        (value / 0x100 % 0x100) as u8,
        (value / 0x1_0000 % 0x100) as u8,
        (value / 0x100_0000) as u8,
    ]
}

/// The eight bytes of a number, least significant first.
pub open spec fn u64_le(value: u64) -> Seq<u8> {
    seq![
        (value % 0x100) as u8,
        (value / 0x100 % 0x100) as u8,
        (value / 0x1_0000 % 0x100) as u8,
        (value / 0x100_0000 % 0x100) as u8,
        (value / 0x1_0000_0000 % 0x100) as u8,
        (value / 0x100_0000_0000 % 0x100) as u8,
        (value / 0x1_0000_0000_0000 % 0x100) as u8,
        (value / 0x100_0000_0000_0000) as u8,
    ]
}

/// Whether a text can be framed: its UTF-8 form is counted in four bytes.
pub open spec fn text_fits(text: Seq<char>) -> bool {
    encode_utf8(text).len() <= u32::MAX
}

/// A framed text: the length of its UTF-8 form in four little-endian bytes,
/// then the UTF-8 form itself.
pub open spec fn text_frame(text: Seq<char>) -> Seq<u8>
    recommends
        text_fits(text),
{
    u32_le(encode_utf8(text).len() as u32) + encode_utf8(text)
}

/// The length that the first four bytes announce.
pub open spec fn announced_len(data: Seq<u8>) -> int
    recommends
        data.len() >= 4,
{
    le_u32(data.subrange(0, 4)) as int
}

/// Whether the bytes begin with a framed text: the length prefix is whole,
/// as many bytes as it announces follow, and those bytes are valid UTF-8.
pub open spec fn begins_with_text(data: Seq<u8>) -> bool {
    &&& data.len() >= 4
    &&& 4 + announced_len(data) <= data.len()
    &&& valid_utf8(data.subrange(4, 4 + announced_len(data)))
}

/// The text that the bytes begin with.
pub open spec fn leading_text(data: Seq<u8>) -> Seq<char>
    recommends
        begins_with_text(data),
{
    decode_utf8(data.subrange(4, 4 + announced_len(data)))
}

/// What follows the text that the bytes begin with.
pub open spec fn after_text(data: Seq<u8>) -> Seq<u8>
    recommends
        begins_with_text(data),
{
    data.subrange(4 + announced_len(data), data.len() as int)
}

/// Reads one framed text with `borsh`'s `BorshDeserialize::deserialize` for
/// `String`.
///
/// Trusted: the call succeeds exactly on bytes that begin with a framed
/// text, then returns that text and a buffer that holds every byte after
/// the frame.
#[verifier::external_body]
pub(crate) fn read_text<'a>(buf: &'a [u8]) -> (read: Result<(String, &'a [u8]), std::io::Error>)
    ensures
        read is Ok <==> begins_with_text(buf@),
        read matches Ok((text, rest)) ==> text@ == leading_text(buf@) && rest@ == after_text(
            buf@,
        ),
{
    let mut rest = buf;
    let text = String::deserialize(&mut rest)?;
    Ok((text, rest))
}

/// Reads one byte with `borsh`'s `BorshDeserialize::deserialize` for `u8`.
///
/// Trusted: the call succeeds exactly on a buffer that is not empty, then
/// returns its first byte and a buffer that holds the others.
#[verifier::external_body]
pub(crate) fn read_byte<'a>(buf: &'a [u8]) -> (read: Result<(u8, &'a [u8]), std::io::Error>)
    ensures
        read is Ok <==> buf@.len() > 0,
        read matches Ok((byte, rest)) ==> byte == buf@[0] && rest@ == buf@.subrange(
            1,
            buf@.len() as int,
        ),
{
    let mut rest = buf;
    let byte = u8::deserialize(&mut rest)?;
    Ok((byte, rest))
}

/// Four bytes spell the number they were written from.
pub proof fn lemma_u32_le_reads_back(value: u32)
    ensures
        u32_le(value).len() == 4,
        le_u32(u32_le(value)) == value,
{
}

/// Division by powers of 0x100 takes a four-digit number apart again.
proof fn lemma_digits_of_sum(b0: int, b1: int, b2: int, b3: int)
    requires
        0 <= b0 < 0x100,
        0 <= b1 < 0x100,
        0 <= b2 < 0x100,
        0 <= b3 < 0x100,
    ensures
        ({
            let n = b0 + 0x100 * b1 + 0x1_0000 * b2 + 0x100_0000 * b3;
            &&& 0 <= n <= u32::MAX
            &&& n % 0x100 == b0
            &&& n / 0x100 % 0x100 == b1
            &&& n / 0x1_0000 % 0x100 == b2
            &&& n / 0x100_0000 == b3
        }),
{
}

/// Four bytes are the written form of the number they spell.
pub proof fn lemma_le_u32_writes_back(bytes: Seq<u8>)
    requires
        bytes.len() == 4,
    ensures
        le_u32(bytes) <= u32::MAX,
        u32_le(le_u32(bytes) as u32) == bytes,
{
    lemma_digits_of_sum(bytes[0] as int, bytes[1] as int, bytes[2] as int, bytes[3] as int);
    assert(u32_le(le_u32(bytes) as u32) =~= bytes);
}

/// A frame followed by anything begins with its text, and what follows the
/// text is what followed the frame.
pub proof fn lemma_frame_reads_back(text: Seq<char>, rest: Seq<u8>)
    requires
        text_fits(text),
    ensures
        begins_with_text(text_frame(text) + rest),
        leading_text(text_frame(text) + rest) == text,
        after_text(text_frame(text) + rest) == rest,
{
    let payload = encode_utf8(text);
    let data = text_frame(text) + rest;
    lemma_u32_le_reads_back(payload.len() as u32);
    assert(data.subrange(0, 4) =~= u32_le(payload.len() as u32));
    assert(data.subrange(4, 4 + payload.len() as int) =~= payload);
    assert(data.subrange(4 + payload.len() as int, data.len() as int) =~= rest);
    encode_utf8_valid_utf8(text);
    encode_utf8_decode_utf8(text);
}

/// Bytes that begin with a text are that text's frame and what follows it.
pub proof fn lemma_text_writes_back(data: Seq<u8>)
    requires
        begins_with_text(data),
    ensures
        text_fits(leading_text(data)),
        data == text_frame(leading_text(data)) + after_text(data),
{
    let prefix = data.subrange(0, 4);
    let payload = data.subrange(4, 4 + announced_len(data));
    lemma_le_u32_writes_back(prefix);
    decode_utf8_encode_utf8(payload);
    assert(encode_utf8(leading_text(data)) == payload);
    assert(data =~= prefix + payload + after_text(data));
}

} // verus!
