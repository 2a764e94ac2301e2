use aei_tag_parser::{AEITagData, HexError, Side};

/// QNSL 502 RIGHT Locomotive(5) 94' 0" 4 axles
const TAG1: &str = "2F3E06C007DB1E139000000000000331";
/// IOCC 3088 RIGHT Railcar(19) 35' 0" 4 axles
const TAG2: &str = "9EA488C030426A179000000000000331";
/// IOCC 85123 LEFT Railcar(19) 63' 0" 4 axles
const TAG3: &str = "9EA488C5320CC01B9000000000000331";

#[test]
fn valid_group_code() {
    assert_eq!(AEITagData::new(TAG1).unwrap().equipment_group_code(), 5);
    assert_eq!(AEITagData::new(TAG2).unwrap().equipment_group_code(), 19);
}

#[test]
fn valid_group() {
    assert_eq!(
        AEITagData::new(TAG1).unwrap().equipment_group(),
        "Locomotive"
    );
    assert_eq!(AEITagData::new(TAG2).unwrap().equipment_group(), "Railcar");
}

#[test]
fn valid_group_code_parsing() {
    assert_eq!(AEITagData::parse_equipment_group_code(0), "Other");
    assert_eq!(AEITagData::parse_equipment_group_code(1), "Railcar cover");
    assert_eq!(AEITagData::parse_equipment_group_code(2), "Reserved");
    assert_eq!(AEITagData::parse_equipment_group_code(3), "Reserved");
    assert_eq!(
        AEITagData::parse_equipment_group_code(4),
        "Train number tag (locomotive variable data)"
    );
    assert_eq!(AEITagData::parse_equipment_group_code(5), "Locomotive");
    assert_eq!(
        AEITagData::parse_equipment_group_code(6),
        "End-of-train device"
    );
    assert_eq!(AEITagData::parse_equipment_group_code(7), "Reserved");
    assert_eq!(AEITagData::parse_equipment_group_code(8), "Generator set");
    assert_eq!(AEITagData::parse_equipment_group_code(9), "Reserved");
    assert_eq!(
        AEITagData::parse_equipment_group_code(10),
        "Intermodal container"
    );
    assert_eq!(AEITagData::parse_equipment_group_code(11), "Reserved");
    assert_eq!(AEITagData::parse_equipment_group_code(12), "Marker tags");
    assert_eq!(AEITagData::parse_equipment_group_code(13), "Reserved");
    assert_eq!(
        AEITagData::parse_equipment_group_code(14),
        "Reserved (formerly nonrevenue rail)"
    );
    assert_eq!(AEITagData::parse_equipment_group_code(15), "Reserved");
    assert_eq!(AEITagData::parse_equipment_group_code(16), "Reserved");
    assert_eq!(
        AEITagData::parse_equipment_group_code(17),
        "Tractor (power)"
    );
    assert_eq!(AEITagData::parse_equipment_group_code(18), "Straight truck");
    assert_eq!(AEITagData::parse_equipment_group_code(19), "Railcar");
    assert_eq!(AEITagData::parse_equipment_group_code(20), "Dolly");
    assert_eq!(AEITagData::parse_equipment_group_code(21), "Trailer");
    assert_eq!(AEITagData::parse_equipment_group_code(22), "Reserved");
    assert_eq!(AEITagData::parse_equipment_group_code(23), "Reserved");
    assert_eq!(
        AEITagData::parse_equipment_group_code(24),
        "Rail-compatible multimodal equipment"
    );
    assert_eq!(AEITagData::parse_equipment_group_code(25), "Reserved");
    assert_eq!(AEITagData::parse_equipment_group_code(26), "Reserved");
    assert_eq!(AEITagData::parse_equipment_group_code(27), "Chassis");
    assert_eq!(
        AEITagData::parse_equipment_group_code(28),
        "Passive alarm tag"
    );
    assert_eq!(AEITagData::parse_equipment_group_code(29), "Reserved");
    assert_eq!(AEITagData::parse_equipment_group_code(30), "Reserved");
    assert_eq!(
        AEITagData::parse_equipment_group_code(31),
        "Experimental use/other"
    );
}

#[test]
fn out_of_range_group_code_is_reserved() {
    assert_eq!(AEITagData::parse_equipment_group_code(32), "Reserved");
    assert_eq!(AEITagData::parse_equipment_group_code(255), "Reserved");
}

#[test]
fn valid_tag_type() {
    assert_eq!(AEITagData::new(TAG1).unwrap().tag_type(), 3);
}

#[test]
fn valid_equipement_initial() {
    assert_eq!(AEITagData::new(TAG1).unwrap().equipment_initial(), "QNSL");
    assert_eq!(AEITagData::new(TAG2).unwrap().equipment_initial(), "IOCC");
}

#[test]
fn valid_equipment_initial_code() {
    assert_eq!(
        AEITagData::new(TAG1).unwrap().equipment_initial_code(),
        325659
    );
    assert_eq!(
        AEITagData::new(TAG2).unwrap().equipment_initial_code(),
        168483
    );
}

#[test]
fn valid_car_number() {
    assert_eq!(AEITagData::new(TAG1).unwrap().car_number(), 502);
    assert_eq!(AEITagData::new(TAG2).unwrap().car_number(), 3088);
    assert_eq!(AEITagData::new(TAG3).unwrap().car_number(), 85123);
}

#[test]
fn valid_side_indicator() {
    assert_eq!(AEITagData::new(TAG1).unwrap().side_indicator(), Side::RIGHT);
    assert_eq!(AEITagData::new(TAG3).unwrap().side_indicator(), Side::LEFT);
}

#[test]
fn valid_length_dm() {
    assert_eq!(AEITagData::new(TAG1).unwrap().length_dm(), 286);
    assert_eq!(AEITagData::new(TAG2).unwrap().length_dm(), 106);
    assert_eq!(AEITagData::new(TAG3).unwrap().length_dm(), 192);
}

#[test]
fn valid_length_ft() {
    assert_eq!(AEITagData::new(TAG1).unwrap().length_ft(), 94);
    assert_eq!(AEITagData::new(TAG2).unwrap().length_ft(), 35);
    assert_eq!(AEITagData::new(TAG3).unwrap().length_ft(), 63);
}

#[test]
fn valid_number_axles() {
    assert_eq!(AEITagData::new(TAG1).unwrap().number_axles(), 4);
}

#[test]
fn invalid_hex_odd_length() {
    let result = AEITagData::new("00F");

    let err = result.unwrap_err();
    assert_eq!(
        err.to_string(),
        "the provided string couldn't be parsed as an hexadecimal number"
    );
    assert_eq!(
        err.source().unwrap().to_string(),
        hex::FromHexError::OddLength.to_string()
    );
}

#[test]
fn invalid_hex_invalid_characters() {
    let result = AEITagData::new("9EA488C5320CC01B900000000000033T");

    let err = result.unwrap_err();
    assert_eq!(
        err.to_string(),
        "the provided string couldn't be parsed as an hexadecimal number"
    );
    assert_eq!(
        err.source().unwrap().to_string(),
        hex::FromHexError::InvalidHexCharacter { c: 'T', index: 31 }.to_string()
    );
}

#[test]
fn invalid_hex_invalid_length() {
    let result = AEITagData::new("00");

    let err = result.unwrap_err();
    assert_eq!(
        err.to_string(),
        "the provided string couldn't be parsed as an hexadecimal number"
    );
    assert_eq!(
        err.source().unwrap().to_string(),
        hex::FromHexError::InvalidStringLength.to_string()
    );
}

#[test]
fn raw_value() {
    let tag = AEITagData::new(TAG1).unwrap();
    let mut raw_tag = [0u8; 16];
    hex::decode_to_slice("2F3E06C007DB1E139000000000000331", &mut raw_tag).unwrap();

    tag.raw()
        .iter()
        .enumerate()
        .for_each(|(index, value)| assert_eq!(value, &raw_tag[index]));
}

#[test]
fn test_short_string() {
    let tag = AEITagData::new(TAG1).unwrap();

    assert_eq!(tag.to_short_string(), "Initials : QNSL\tCar number : 502");
}

#[test]
fn error_causes_are_exact() {
    let odd = AEITagData::new("00F").unwrap_err();
    assert_eq!(odd.source(), Some(HexError::OddLength));
    let short = AEITagData::new("00").unwrap_err();
    assert_eq!(short.source(), Some(HexError::InvalidStringLength));
    let long = AEITagData::new("2F3E06C007DB1E13900000000000033100").unwrap_err();
    assert_eq!(long.source(), Some(HexError::InvalidStringLength));
    let odd_long = AEITagData::new("2F3E06C007DB1E139000000000000331F").unwrap_err();
    assert_eq!(odd_long.source(), Some(HexError::OddLength));
    let bad = AEITagData::new("9EA488C5320CC01B900000000000033T").unwrap_err();
    assert_eq!(
        bad.source(),
        Some(HexError::InvalidHexCharacter { c: 'T', index: 31 })
    );
    let first_bad = AEITagData::new("xEA488C5320CC01B900000000000033T").unwrap_err();
    assert_eq!(
        first_bad.source(),
        Some(HexError::InvalidHexCharacter { c: 'x', index: 0 })
    );
    let empty = AEITagData::new("").unwrap_err();
    assert_eq!(empty.source(), Some(HexError::InvalidStringLength));
}

#[test]
fn lower_case_digits_decode_alike() {
    let upper = AEITagData::new(TAG1).unwrap();
    let lower = AEITagData::new("2f3e06c007db1e139000000000000331").unwrap();
    assert_eq!(upper.raw(), lower.raw());
    assert_eq!(lower.equipment_initial(), "QNSL");
    assert_eq!(lower.car_number(), 502);
}

#[test]
fn csv_row_in_field_order() {
    let tag = AEITagData::new(TAG1).unwrap();
    assert_eq!(
        tag.to_csv(),
        "2F3E06C007DB1E139000000000000331;QNSL;502;Locomotive;5;Right"
    );
    let tag = AEITagData::new("9ea488c5320cc01b9000000000000331").unwrap();
    assert_eq!(
        tag.to_csv(),
        "9EA488C5320CC01B9000000000000331;IOCC;85123;Railcar;19;Left"
    );
}

#[test]
fn all_zero_tag() {
    let tag = AEITagData::new("00000000000000000000000000000000").unwrap();
    assert_eq!(tag.equipment_group_code(), 0);
    assert_eq!(tag.equipment_group(), "Other");
    assert_eq!(tag.tag_type(), 0);
    assert_eq!(tag.equipment_initial_code(), 0);
    assert_eq!(tag.equipment_initial(), "A   ");
    assert_eq!(tag.car_number(), 0);
    assert_eq!(tag.side_indicator(), Side::LEFT);
    assert_eq!(tag.length_dm(), 0);
    assert_eq!(tag.length_ft(), 0);
    assert_eq!(tag.number_axles(), 1);
    assert_eq!(tag.to_short_string(), "Initials : A   \tCar number : 0");
}

#[test]
fn all_ones_tag_reaches_every_field_maximum() {
    let tag = AEITagData::new("FFFFFFFFFFFFFFFFFFFFFFFFFFFFFFFF").unwrap();
    assert_eq!(tag.equipment_group_code(), 31);
    assert_eq!(tag.tag_type(), 3);
    assert_eq!(tag.equipment_initial_code(), 524287);
    assert_eq!(tag.car_number(), 1048575);
    assert_eq!(tag.side_indicator(), Side::RIGHT);
    assert_eq!(tag.length_dm(), 4095);
    assert_eq!(tag.length_ft(), 1344);
    assert_eq!(tag.number_axles(), 32);
    assert_eq!(tag.equipment_initial().chars().count(), 4);
}

#[test]
fn field_ranges_hold_on_sample_tags() {
    for text in [TAG1, TAG2, TAG3, "0123456789abcdefFEDCBA9876543210"] {
        let tag = AEITagData::new(text).unwrap();
        assert!(tag.equipment_group_code() <= 31);
        assert!(tag.tag_type() <= 3);
        assert!((1..=32).contains(&tag.number_axles()));
        let mark: Vec<char> = tag.equipment_initial().chars().collect();
        assert_eq!(mark.len(), 4);
        assert!(mark[0].is_ascii_uppercase());
    }
}

#[test]
fn owner_mark_digits() {
    // 1 * 27^3 + 0 * 27^2 + 26 * 27 + 1
    assert_eq!(AEITagData::deserialize_equipement_initial(20386), "B ZA");
    assert_eq!(AEITagData::deserialize_equipement_initial(0), "A   ");
    assert_eq!(AEITagData::deserialize_equipement_initial(511757), "ZZZZ");
}

#[test]
fn same_wagon_ignores_side() {
    let right = AEITagData::new(TAG1).unwrap();
    // byte 5 of TAG1 is 0xDB; flipping bit 1 gives 0xD9
    let left = AEITagData::new("2F3E06C007D91E139000000000000331").unwrap();
    assert_eq!(right.side_indicator(), Side::RIGHT);
    assert_eq!(left.side_indicator(), Side::LEFT);
    assert!(right.is_same_wagon(left.clone()));
    assert!(left.is_same_wagon(right.clone()));
    let other = AEITagData::new(TAG2).unwrap();
    let same_owner_other_car = AEITagData::new(TAG3).unwrap();
    assert!(!right.is_same_wagon(other.clone()));
    assert!(!other.is_same_wagon(same_owner_other_car.clone()));
    assert!(!same_owner_other_car.is_same_wagon(other));
}

#[test]
fn side_names() {
    assert_eq!(Side::LEFT.to_string(), "Left");
    assert_eq!(Side::RIGHT.to_string(), "Right");
}

#[test]
fn feet_rounding() {
    // 106 dm is 34.776... ft, 192 dm is 62.992... ft
    let tag = AEITagData::new(TAG2).unwrap();
    assert_eq!(tag.length_ft(), 35);
    let tag = AEITagData::new(TAG3).unwrap();
    assert_eq!(tag.length_ft(), 63);
}
