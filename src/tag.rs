//! The decoded tag value.

use vstd::prelude::*;
use vstd::string::{StringExecFns, StringSliceAdditionalSpecFns};

use crate::group::group_name;
use crate::hexcodec::{decode_hex_into, encode_hex_upper, hex_bytes, hex_verdict, upper_hex, HexError};
use crate::initials::initials_of;
use crate::layout::{
    axles_of, car_number_of, group_code_of, initial_code_of, length_dm_of, side_bit_of,
    side_of_bit, tag_type_of,
};
use crate::text::{decimal, push_decimal};

verus! {

/// Side of the wagon on which the tag is mounted.
#[derive(Copy, Clone, PartialEq, Eq, Debug, Structural)]
pub enum Side {
    LEFT,
    RIGHT,
}

/// The name of a side.
pub open spec fn side_name(s: Side) -> Seq<char> {
    match s {
        Side::LEFT => "Left"@,
        Side::RIGHT => "Right"@,
    }
}

impl Side {
    /// The name of the side: "Left" or "Right".
    pub fn to_string(&self) -> (r: String)
        ensures
            r@ == side_name(*self),
    {
        match self {
            Side::LEFT => String::from_str("Left"),
            Side::RIGHT => String::from_str("Right"),
        }
    }
}

/// Why a text could not be decoded as a tag.
#[derive(Copy, Clone, PartialEq, Eq, Debug, Structural)]
pub enum NewTagError {
    /// The text is not the hexadecimal form of 16 bytes.
    HexParsing(HexError),
}

impl NewTagError {
    /// The message of the error.
    pub fn to_string(&self) -> (r: String)
        ensures
            r@ == "the provided string couldn't be parsed as an hexadecimal number"@,
    {
        String::from_str("the provided string couldn't be parsed as an hexadecimal number")
    }

    /// The cause of the error.
    pub fn source(&self) -> (r: Option<HexError>)
        ensures
            r == Some(
                match *self {
                    NewTagError::HexParsing(e) => e,
                },
            ),
    {
        match self {
            NewTagError::HexParsing(e) => Some(*e),
        }
    }
}

/// Length in feet of a length in decimeters: `dm * 0.328084`, rounded to the
/// nearest integer, halves upward.
pub open spec fn feet_of(dm: int) -> int {
    (dm * 328084 + 500000) / 1000000
}

/// Two raw tags name the same wagon: equal group code, owner-mark code and
/// car number. The side does not count.
pub open spec fn same_wagon(a: Seq<u8>, b: Seq<u8>) -> bool {
    &&& group_code_of(a) == group_code_of(b)
    &&& initial_code_of(a) == initial_code_of(b)
    &&& car_number_of(a) == car_number_of(b)
}

/// A decoded AEI tag: the raw 16 bytes and the fields read from them.
#[derive(Clone, Copy, Debug)]
pub struct AEITagData {
    raw: [u8; 16],
    equipment_group_code: u8,
    tag_type_code: u8,
    equipment_initial_code: u32,
    car_number: u32,
    side_indicator: Side,
    length_dm: u16,
    number_axles: u8,
}

impl View for AEITagData {
    type V = Seq<u8>;

    /// The raw bytes of the tag.
    closed spec fn view(&self) -> Seq<u8> {
        self.raw@
    }
}

impl AEITagData {
    /// Each stored field is the one that the raw bytes hold.
    #[verifier::type_invariant]
    spec fn fields_match_raw(&self) -> bool {
        &&& self.raw@.len() == 16
        &&& self.equipment_group_code as int == group_code_of(self.raw@)
        &&& self.tag_type_code as int == tag_type_of(self.raw@)
        &&& self.equipment_initial_code as int == initial_code_of(self.raw@)
        &&& self.car_number as int == car_number_of(self.raw@)
        &&& self.side_indicator == side_of_bit(side_bit_of(self.raw@))
        &&& self.length_dm as int == length_dm_of(self.raw@)
        &&& self.number_axles as int == axles_of(self.raw@)
    }

    /// Decode a tag from its text: 32 hexadecimal digits, either case.
    pub fn new(tag: &str) -> (r: Result<AEITagData, NewTagError>)
        ensures
            match hex_verdict(tag.spec_bytes(), 16) {
                Ok(_) => r is Ok && r->Ok_0@ == hex_bytes(tag.spec_bytes()),
                Err(e) => r is Err && r->Err_0 == NewTagError::HexParsing(e),
            },
    {
        let mut raw = [0u8; 16];
        match decode_hex_into(tag.as_bytes(), &mut raw) {
            Ok(()) => {},
            Err(e) => {
                return Err(NewTagError::HexParsing(e));
            },
        }
        let equipment_group_code = AEITagData::parse_eqp_group(&raw);
        let tag_type_code = AEITagData::parse_tag_type(&raw);
        let equipment_initial_code = AEITagData::parse_eqp_initial(&raw);
        let car_number = AEITagData::parse_car_number(&raw);
        let side_indicator = AEITagData::parse_side(&raw);
        let length_dm = AEITagData::parse_length(&raw);
        let number_axles = AEITagData::parse_axles(&raw);
        Ok(
            AEITagData {
                raw,
                equipment_group_code,
                tag_type_code,
                equipment_initial_code,
                car_number,
                side_indicator,
                length_dm,
                number_axles,
            },
        )
    }
    /// Equipment group code value.
    pub fn equipment_group_code(&self) -> (r: u8)
        ensures
            r as int == group_code_of(self@),
            r < 32,
    {
        proof {
            use_type_invariant(self);
        }
        self.equipment_group_code
    }

    /// Equipment group name.
    pub fn equipment_group(&self) -> (r: String)
        ensures
            r@ == group_name(group_code_of(self@)),
    {
        proof {
            use_type_invariant(self);
        }
        AEITagData::parse_equipment_group_code(self.equipment_group_code)
    }

    /// Tag type code value.
    pub fn tag_type(&self) -> (r: u8)
        ensures
            r as int == tag_type_of(self@),
            r < 4,
    {
        proof {
            use_type_invariant(self);
        }
        self.tag_type_code
    }

    /// Owner-mark code value.
    pub fn equipment_initial_code(&self) -> (r: u32)
        ensures
            r as int == initial_code_of(self@),
            r < 524288,
    {
        proof {
            use_type_invariant(self);
        }
        self.equipment_initial_code
    }

    /// Owner mark: four characters.
    pub fn equipment_initial(&self) -> (r: String)
        ensures
            r@ == initials_of(initial_code_of(self@)),
            r@.len() == 4,
    {
        proof {
            use_type_invariant(self);
        }
        AEITagData::deserialize_equipement_initial(self.equipment_initial_code)
    }

    /// Car number value.
    pub fn car_number(&self) -> (r: u32)
        ensures
            r as int == car_number_of(self@),
            r < 1048576,
    {
        proof {
            use_type_invariant(self);
        }
        self.car_number
    }

    /// Side indicator value.
    pub fn side_indicator(&self) -> (r: Side)
        ensures
            r == side_of_bit(side_bit_of(self@)),
    {
        proof {
            use_type_invariant(self);
        }
        self.side_indicator
    }

    /// Length of the railcar in decimeters.
    pub fn length_dm(&self) -> (r: u16)
        ensures
            r as int == length_dm_of(self@),
            r < 4096,
    {
        proof {
            use_type_invariant(self);
        }
        self.length_dm
    }

    /// Length of the railcar in feet, rounded to the nearest foot.
    pub fn length_ft(&self) -> (r: u16)
        ensures
            r as int == feet_of(length_dm_of(self@)),
    {
        proof {
            use_type_invariant(self);
        }
        let dm = self.length_dm as u32;
        ((dm * 328084 + 500000) / 1000000) as u16
    }

    /// Number of axles.
    pub fn number_axles(&self) -> (r: u8)
        ensures
            r as int == axles_of(self@),
            1 <= r <= 32,
    {
        proof {
            use_type_invariant(self);
        }
        self.number_axles
    }

    /// Raw value of the tag.
    pub fn raw(&self) -> (r: &[u8; 16])
        ensures
            r@ == self@,
    {
        &self.raw
    }

    /// Owner mark and car number: `Initials : QNSL\tCar number : 502`.
    pub fn to_short_string(&self) -> (r: String)
        ensures
            r@ == "Initials : "@ + initials_of(initial_code_of(self@)) + "\tCar number : "@
                + decimal(car_number_of(self@) as nat),
    {
        let mut s = String::from_str("Initials : ");
        let initials = self.equipment_initial();
        s.append(initials.as_str());
        s.append("\tCar number : ");
        push_decimal(&mut s, self.car_number());
        s
    }

    /// One CSV row: raw hex, owner mark, car number, group name, group code
    /// and side, separated by `;`.
    pub fn to_csv(&self) -> (r: String)
        ensures
            r@ == upper_hex(self@) + ";"@ + initials_of(initial_code_of(self@)) + ";"@ + decimal(
                car_number_of(self@) as nat,
            ) + ";"@ + group_name(group_code_of(self@)) + ";"@ + decimal(
                group_code_of(self@) as nat,
            ) + ";"@ + side_name(side_of_bit(side_bit_of(self@))),
    {
        let mut s = encode_hex_upper(&self.raw);
        s.append(";");
        let initials = self.equipment_initial();
        s.append(initials.as_str());
        s.append(";");
        push_decimal(&mut s, self.car_number());
        s.append(";");
        let group = self.equipment_group();
        s.append(group.as_str());
        s.append(";");
        push_decimal(&mut s, self.equipment_group_code() as u32);
        s.append(";");
        let side = self.side_indicator().to_string();
        s.append(side.as_str());
        s
    }

    /// Check if two tags belong to the same wagon: equal owner-mark code,
    /// group code and car number. The side is ignored.
    pub fn is_same_wagon(&self, tag: AEITagData) -> (r: bool)
        ensures
            r == same_wagon(self@, tag@),
    {
        proof {
            use_type_invariant(self);
            use_type_invariant(&tag);
        }
        self.car_number == tag.car_number && self.equipment_group_code == tag.equipment_group_code
            && self.equipment_initial_code == tag.equipment_initial_code
    }
}

/// Being the same wagon is symmetric.
pub proof fn lemma_same_wagon_symmetric(a: Seq<u8>, b: Seq<u8>)
    ensures
        same_wagon(a, b) == same_wagon(b, a),
{
}

/// Two buffers that differ only in the side bit (bit 46, bit 1 of byte 5)
/// name the same wagon, on opposite sides.
pub proof fn lemma_side_flip_same_wagon(a: Seq<u8>, b: Seq<u8>)
    requires
        a.len() == 16,
        b.len() == 16,
        b[5] == a[5] ^ 2,
        forall|i: int| 0 <= i < 16 && i != 5 ==> b[i] == a[i],
    ensures
        same_wagon(a, b),
        side_of_bit(side_bit_of(a)) != side_of_bit(side_bit_of(b)),
        length_dm_of(a) == length_dm_of(b),
{
    let x = a[5];
    let y = b[5];
    assert(y / 4 == x / 4 && y % 2 == x % 2 && (y / 2) % 2 != (x / 2) % 2) by (bit_vector)
        requires
            y == x ^ 2,
    ;
    assert(b[0] == a[0] && b[1] == a[1] && b[2] == a[2] && b[3] == a[3] && b[4] == a[4]);
    assert(b[6] == a[6] && b[11] == a[11] && b[12] == a[12]);
}

} // verus!
