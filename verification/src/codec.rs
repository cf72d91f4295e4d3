//! Frame codec: building outgoing command frames and validating the sensor's
//! responses.
//!
//! Every value on the bus travels as a word group: a 16-bit word in two
//! big-endian data bytes followed by their CRC-8. An outgoing frame is an
//! opcode word plus, when the command takes an argument, the argument's word
//! group. A measurement channel is two adjacent word groups whose four data
//! bytes form one big-endian 32-bit float.

use vstd::prelude::*;
use crate::checksum::{crc8_pair, lemma_crc8_one_byte_corruption, spec_crc8};
use crate::error::Scd30Error;

verus! {

/// The 16-bit word held in two big-endian data bytes.
pub open spec fn spec_word(hi: u8, lo: u8) -> u16 {
    ((hi as u16) * 256 + (lo as u16)) as u16
}

/// The high byte of a word's big-endian form.
pub open spec fn word_hi(v: u16) -> u8 {
    (v / 256) as u8
}

/// The low byte of a word's big-endian form.
pub open spec fn word_lo(v: u16) -> u8 {
    (v % 256) as u8
}

/// A word group is accepted only when its checksum byte equals the CRC-8 of
/// its two data bytes.
pub open spec fn valid_word_group(bytes: Seq<u8>) -> bool
    recommends
        bytes.len() == 3,
{
    bytes[2] == spec_crc8(seq![bytes[0], bytes[1]])
}

/// What decoding a 3-byte group yields: the big-endian word when the
/// checksum byte matches, nothing otherwise.
pub open spec fn spec_decode_word_group(bytes: Seq<u8>) -> Option<u16>
    recommends
        bytes.len() == 3,
{
    if valid_word_group(bytes) {
        Some(spec_word(bytes[0], bytes[1]))
    } else {
        None
    }
}

/// The group that carries a word: its big-endian bytes and their CRC-8.
pub open spec fn spec_encode_word_group(v: u16) -> Seq<u8> {
    seq![word_hi(v), word_lo(v), spec_crc8(seq![word_hi(v), word_lo(v)])]
}

/// A command frame: the two opcode bytes alone, or, when the command takes
/// an argument, the opcode followed by the argument's word group.
pub open spec fn spec_encode_command(op_hi: u8, op_lo: u8, argument: Option<u16>) -> Seq<u8> {
    match argument {
        None => seq![op_hi, op_lo],
        Some(v) => seq![op_hi, op_lo] + spec_encode_word_group(v),
    }
}

/// A 6-byte measurement channel is accepted only when both of its word
/// groups pass independently.
pub open spec fn valid_channel(bytes: Seq<u8>) -> bool
    recommends
        bytes.len() == 6,
{
    &&& bytes[2] == spec_crc8(seq![bytes[0], bytes[1]])
    &&& bytes[5] == spec_crc8(seq![bytes[3], bytes[4]])
}

/// The 32-bit big-endian value in a channel's four data bytes, checksum
/// bytes discarded: the bit pattern of the measurement's 32-bit float.
pub open spec fn spec_channel_bits(bytes: Seq<u8>) -> u32
    recommends
        bytes.len() == 6,
{
    ((bytes[0] as u32) * 0x1000000 + (bytes[1] as u32) * 0x10000 + (bytes[3] as u32) * 0x100 + (
    bytes[4] as u32)) as u32
}

/// What decoding a 6-byte channel yields: the float bit pattern when both
/// word groups validate, nothing otherwise.
pub open spec fn spec_decode_channel(bytes: Seq<u8>) -> Option<u32>
    recommends
        bytes.len() == 6,
{
    if valid_channel(bytes) {
        Some(spec_channel_bits(bytes))
    } else {
        None
    }
}

/// Builds the frame a command writes: the opcode bytes and, when an argument
/// is present, its big-endian bytes and their CRC-8.
pub fn encode_command(op_hi: u8, op_lo: u8, argument: Option<u16>) -> (r: Vec<u8>)
    ensures
        r@ == spec_encode_command(op_hi, op_lo, argument),
{
    let mut frame: Vec<u8> = Vec::new();
    frame.push(op_hi);
    frame.push(op_lo);
    match argument {
        None => {
            proof {
                assert(frame@ =~= spec_encode_command(op_hi, op_lo, argument));
            }
        },
        Some(v) => {
            let hi: u8 = (v / 256) as u8;
            let lo: u8 = (v % 256) as u8;
            let checksum = crc8_pair(hi, lo);
            frame.push(hi);
            frame.push(lo);
            frame.push(checksum);
            proof {
                assert(frame@ =~= spec_encode_command(op_hi, op_lo, argument));
            }
        },
    }
    frame
}

/// Decodes a 3-byte response group: the big-endian word when the checksum
/// byte matches the CRC-8 of the two data bytes, `ChecksumError` otherwise.
pub fn decode_word_group(bytes: &[u8]) -> (r: Result<u16, Scd30Error>)
    requires
        bytes@.len() == 3,
    ensures
        (r is Ok) <==> valid_word_group(bytes@),
        r matches Ok(v) ==> spec_decode_word_group(bytes@) == Some(v),
        r matches Err(e) ==> e is ChecksumError,
{
    let expected = crc8_pair(bytes[0], bytes[1]);
    if bytes[2] == expected {
        Ok((bytes[0] as u16) * 256 + (bytes[1] as u16))
    } else {
        Err(Scd30Error::ChecksumError)
    }
}

/// Decodes a 6-byte measurement channel: both word groups must validate
/// independently; on success the four data bytes form the returned 32-bit
/// big-endian float bit pattern.
pub fn decode_measurement_channel(bytes: &[u8]) -> (r: Result<u32, Scd30Error>)
    requires
        bytes@.len() == 6,
    ensures
        (r is Ok) <==> valid_channel(bytes@),
        r matches Ok(bits) ==> bits == spec_channel_bits(bytes@),
        r matches Err(e) ==> e is ChecksumError,
{
    let first = crc8_pair(bytes[0], bytes[1]);
    let second = crc8_pair(bytes[3], bytes[4]);
    if bytes[2] == first && bytes[5] == second {
        Ok(
            (bytes[0] as u32) * 0x1000000 + (bytes[1] as u32) * 0x10000 + (bytes[3] as u32) * 0x100
                + (bytes[4] as u32),
        )
    } else {
        Err(Scd30Error::ChecksumError)
    }
}

/// Round trip: for any 16-bit value, decoding the word group that encodes it
/// yields the value back.
pub proof fn lemma_word_group_round_trip(v: u16)
    ensures
        spec_decode_word_group(spec_encode_word_group(v)) == Some(v),
{
    let g = spec_encode_word_group(v);
    assert(seq![g[0], g[1]] =~= seq![word_hi(v), word_lo(v)]);
    assert(valid_word_group(g));
    assert(spec_word(word_hi(v), word_lo(v)) == v) by {
        assert(((v / 256) as u8 as u16) * 256 + ((v % 256) as u8 as u16) == v) by (bit_vector);
    }
}

/// `d` has exactly one bit set.
pub open spec fn single_bit(d: u8) -> bool {
    d != 0 && d & ((d - 1) as u8) == 0
}

/// `corrupted` is `bytes` with exactly one bit flipped in one of its three
/// bytes.
pub open spec fn single_bit_flip(bytes: Seq<u8>, corrupted: Seq<u8>) -> bool
    recommends
        bytes.len() == 3,
        corrupted.len() == 3,
{
    ||| (single_bit(bytes[0] ^ corrupted[0]) && bytes[1] == corrupted[1] && bytes[2]
        == corrupted[2])
    ||| (bytes[0] == corrupted[0] && single_bit(bytes[1] ^ corrupted[1]) && bytes[2]
        == corrupted[2])
    ||| (bytes[0] == corrupted[0] && bytes[1] == corrupted[1] && single_bit(
        bytes[2] ^ corrupted[2],
    ))
}

/// Corruption detection in full: flipping any single bit of a valid word
/// group -- in a data byte or in the checksum byte -- makes decoding fail,
/// always, not merely with high likelihood: a one-byte corruption never
/// keeps the CRC-8 (`lemma_crc8_one_byte_corruption`), and a corrupted
/// checksum byte no longer equals the unchanged expected value.
pub proof fn lemma_single_bit_flip_detected(bytes: Seq<u8>, corrupted: Seq<u8>)
    requires
        bytes.len() == 3,
        corrupted.len() == 3,
        valid_word_group(bytes),
        single_bit_flip(bytes, corrupted),
    ensures
        spec_decode_word_group(corrupted) is None,
{
    let a = bytes[0];
    let b = bytes[1];
    let c = bytes[2];
    let a2 = corrupted[0];
    let b2 = corrupted[1];
    let c2 = corrupted[2];
    let data = seq![a, b];
    let flipped = seq![a2, b2];
    assert(seq![bytes[0], bytes[1]] =~= data);
    assert(seq![corrupted[0], corrupted[1]] =~= flipped);
    if single_bit(a ^ a2) && b == b2 && c == c2 {
        assert(a ^ a2 != 0 ==> a != a2) by (bit_vector);
        assert(forall|j: int| 0 <= j < 2 && j != 0 ==> data[j] == flipped[j]);
        lemma_crc8_one_byte_corruption(data, flipped, 0);
    } else if a == a2 && single_bit(b ^ b2) && c == c2 {
        assert(b ^ b2 != 0 ==> b != b2) by (bit_vector);
        assert(forall|j: int| 0 <= j < 2 && j != 1 ==> data[j] == flipped[j]);
        lemma_crc8_one_byte_corruption(data, flipped, 1);
    } else {
        assert(a == a2 && b == b2 && single_bit(c ^ c2));
        assert(c ^ c2 != 0 ==> c != c2) by (bit_vector);
        assert(flipped =~= data);
    }
}

/// Corruption of the checksum byte is always detected: changing the third
/// byte of a valid word group to any other value makes decoding fail.
pub proof fn lemma_checksum_byte_corruption(bytes: Seq<u8>, c: u8)
    requires
        bytes.len() == 3,
        valid_word_group(bytes),
        c != bytes[2],
    ensures
        spec_decode_word_group(bytes.update(2, c)) is None,
{
    let g = bytes.update(2, c);
    assert(seq![g[0], g[1]] =~= seq![bytes[0], bytes[1]]);
}

} // verus!
