//! Where each field sits in the 16-byte buffer.
//!
//! Bits are numbered from 0 at the most significant bit of byte 0 to 127 at
//! the least significant bit of byte 15. Each spec function below gives a
//! field as the integer that its bits form, most significant bit first.

use vstd::prelude::*;

use crate::initials::initials_of;
use crate::tag::{AEITagData, Side};

verus! {

/// Equipment group code: bits 0..4, the high five bits of byte 0.
pub open spec fn group_code_of(raw: Seq<u8>) -> int {
    raw[0] as int / 8
}

/// Tag type code: bits 5..6 of byte 0.
pub open spec fn tag_type_of(raw: Seq<u8>) -> int {
    (raw[0] as int / 2) % 4
}

/// Owner-mark code: bits 7..25, from the low bit of byte 0 to the high two
/// bits of byte 3.
pub open spec fn initial_code_of(raw: Seq<u8>) -> int {
    (raw[0] as int % 2) * 262144 + raw[1] as int * 1024 + raw[2] as int * 4 + raw[3] as int / 64
}

/// Car number: bits 26..45, from the low six bits of byte 3 to bit 1 of byte 5.
pub open spec fn car_number_of(raw: Seq<u8>) -> int {
    (raw[3] as int % 64) * 16384 + raw[4] as int * 64 + raw[5] as int / 4
}

/// Side bit: bit 46, bit 1 of byte 5.
pub open spec fn side_bit_of(raw: Seq<u8>) -> int {
    (raw[5] as int / 2) % 2
}

/// Length in decimeters, twelve bits: bits 94..96 (the low two bits of
/// byte 11 and the high bit of byte 12) above bits 47..55 (the low bit of
/// byte 5 and all of byte 6).
pub open spec fn length_dm_of(raw: Seq<u8>) -> int {
    (raw[11] as int % 4) * 1024 + (raw[12] as int / 128) * 512 + (raw[5] as int % 2) * 256 + raw[6] as int
}

/// Number of axles: one more than the five bits 56..59 (the high four bits
/// of byte 7) and 64 (the high bit of byte 8).
pub open spec fn axles_of(raw: Seq<u8>) -> int {
    (raw[7] as int / 16) * 2 + raw[8] as int / 128 + 1
}

/// The side that a side bit stands for.
pub open spec fn side_of_bit(bit: int) -> Side {
    if bit == 0 {
        Side::LEFT
    } else {
        Side::RIGHT
    }
}

/// Every 16-byte buffer gives a group code in [0, 31], a tag type in [0, 3],
/// an axle count in [1, 32] and an owner mark of four characters.
pub proof fn lemma_field_ranges(raw: Seq<u8>)
    requires
        raw.len() == 16,
    ensures
        0 <= group_code_of(raw) <= 31,
        0 <= tag_type_of(raw) <= 3,
        1 <= axles_of(raw) <= 32,
        0 <= initial_code_of(raw) < 524288,
        initials_of(initial_code_of(raw)).len() == 4,
{
}

/// The owner mark of a buffer begins with a letter from 'A' to 'Z' when its
/// code is below 26 * 27 * 27 * 27, as every code of a real mark is.
pub proof fn lemma_mark_starts_with_letter(raw: Seq<u8>)
    requires
        raw.len() == 16,
        initial_code_of(raw) < 511758,
    ensures
        'A' <= initials_of(initial_code_of(raw))[0] <= 'Z',
{
}

impl AEITagData {
    /// Parse the equipment group code from the raw tag data.
    pub fn parse_eqp_group(raw: &[u8; 16]) -> (r: u8)
        ensures
            r as int == group_code_of(raw@),
            r < 32,
    {
        let b = raw[0];
        let r = (b & 0xF8) >> 3;
        assert(r == b / 8) by (bit_vector)
            requires
                r == (b & 0xF8) >> 3,
        ;
        r
    }
    /// Parse the tag type code from the raw tag data.
    pub fn parse_tag_type(raw: &[u8; 16]) -> (r: u8)
        ensures
            r as int == tag_type_of(raw@),
            r < 4,
    {
        let b = raw[0];
        let r = (b & 0b0000_0110) >> 1;
        assert(r == (b / 2) % 4) by (bit_vector)
            requires
                r == (b & 6) >> 1,
        ;
        r
    }

    /// Parse the owner-mark code from the raw tag data.
    pub fn parse_eqp_initial(raw: &[u8; 16]) -> (r: u32)
        ensures
            r as int == initial_code_of(raw@),
            r < 524288,
    {
        let b0 = raw[0] as u32;
        let b1 = raw[1] as u32;
        let b2 = raw[2] as u32;
        let b3 = raw[3] as u32;
        let r = ((b0 & 0x01) << 18) | (b1 << 10) | (b2 << 2) | ((b3 & 0xC0) >> 6);
        assert(r == (b0 % 2) * 262144 + b1 * 1024 + b2 * 4 + b3 / 64 && r < 524288) by (bit_vector)
            requires
                b0 < 256,
                b1 < 256,
                b2 < 256,
                b3 < 256,
                r == ((b0 & 1) << 18) | (b1 << 10) | (b2 << 2) | ((b3 & 0xC0) >> 6),
        ;
        r
    }

    /// Parse the car number from the raw tag data.
    pub fn parse_car_number(raw: &[u8; 16]) -> (r: u32)
        ensures
            r as int == car_number_of(raw@),
            r < 1048576,
    {
        let b3 = raw[3] as u32;
        let b4 = raw[4] as u32;
        let b5 = raw[5] as u32;
        let r = ((b3 & 0x3F) << 14) | (b4 << 6) | (b5 >> 2);
        assert(r == (b3 % 64) * 16384 + b4 * 64 + b5 / 4 && r < 1048576) by (bit_vector)
            requires
                b3 < 256,
                b4 < 256,
                b5 < 256,
                r == ((b3 & 0x3F) << 14) | (b4 << 6) | (b5 >> 2),
        ;
        r
    }

    /// Parse the side indicator from the raw tag data: 0 is left, 1 is right.
    pub fn parse_side(raw: &[u8; 16]) -> (r: Side)
        ensures
            r == side_of_bit(side_bit_of(raw@)),
    {
        let b = raw[5];
        assert((b & 2 == 0) == ((b / 2) % 2 == 0)) by (bit_vector);
        if b & 0b0000_0010 == 0 {
            Side::LEFT
        } else {
            Side::RIGHT
        }
    }

    /// Parse the length in decimeters from the raw tag data.
    pub fn parse_length(raw: &[u8; 16]) -> (r: u16)
        ensures
            r as int == length_dm_of(raw@),
            r < 4096,
    {
        let b5 = raw[5] as u16;
        let b6 = raw[6] as u16;
        let b11 = raw[11] as u16;
        let b12 = raw[12] as u16;
        let r = ((b11 & 0x03) << 10) | ((b12 & 0x80) << 2) | ((b5 & 0x01) << 8) | b6;
        assert(r == (b11 % 4) * 1024 + (b12 / 128) * 512 + (b5 % 2) * 256 + b6 && r < 4096)
            by (bit_vector)
            requires
                b5 < 256,
                b6 < 256,
                b11 < 256,
                b12 < 256,
                r == ((b11 & 3) << 10) | ((b12 & 0x80) << 2) | ((b5 & 1) << 8) | b6,
        ;
        r
    }

    /// Parse the number of axles from the raw tag data.
    pub fn parse_axles(raw: &[u8; 16]) -> (r: u8)
        ensures
            r as int == axles_of(raw@),
            1 <= r <= 32,
    {
        let b7 = raw[7];
        let b8 = raw[8];
        let v = ((b7 >> 3) & 0x1E) | (b8 >> 7);
        assert(v == (b7 / 16) * 2 + b8 / 128 && v < 32) by (bit_vector)
            requires
                v == ((b7 >> 3) & 0x1E) | (b8 >> 7),
        ;
        v + 1
    }
}

} // verus!
