//! Decoding of 128-bit railway AEI RFID tags: the raw buffer, its bit fields,
//! and the values that derive from them (owner mark, equipment group name,
//! length in feet).

mod group;
mod hexcodec;
mod initials;
mod layout;
mod tag;
mod text;

pub use group::{group_name, is_named_group, lemma_group_names_total};
pub use hexcodec::{
    all_hex, first_non_hex, hex_bytes, hex_value, hex_verdict, invalid_character_text,
    is_hex_digit, lemma_first_non_hex, lemma_hex_verdict, upper_digit, upper_hex, HexError,
};
pub use initials::{initials_of, lead_char, mark_char};
pub use layout::{
    axles_of, car_number_of, group_code_of, initial_code_of, length_dm_of,
    lemma_field_ranges, lemma_mark_starts_with_letter, side_bit_of, side_of_bit, tag_type_of,
};
pub use tag::{
    feet_of, lemma_same_wagon_symmetric, lemma_side_flip_same_wagon, same_wagon, side_name,
    AEITagData, NewTagError, Side,
};
pub use text::{decimal, digit_char};
