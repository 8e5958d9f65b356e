//! Tests of the bit reader, the field sentinels and the text decoder.
use ais::bits::{take_i, take_u};
use ais::errors::Error;
use ais::messages::navigation::{
    parse_cog, parse_heading, parse_latitude, parse_longitude, parse_speed_over_ground, Accuracy,
    Direction, ManeuverIndicator, RateOfTurn,
};
use ais::messages::parsers::{parse_6bit_ascii, parse_year, u8_to_bool};
use ais::messages::position_report::NavigationStatus;
use ais::messages::types::{EpfdType, ShipType};

#[test]
fn take_u_reads_big_endian_msb_first() {
    let data = [0b1011_0001, 0b1000_0000];
    assert_eq!(take_u(&data, 0, 4), Ok((4, 0b1011)));
    assert_eq!(take_u(&data, 4, 6), Ok((10, 0b000110)));
    assert_eq!(take_u(&data, 0, 16), Ok((16, 0b1011_0001_1000_0000)));
    assert_eq!(take_u(&data, 10, 8), Err(Error::UnexpectedEnd));
}

#[test]
fn take_i_sign_extends_from_field_width() {
    // For every width, a pattern with the top bit set reads as the
    // unsigned value minus two to the width.
    let data = [0xFF, 0x2C, 0x80, 0x00, 0x00];
    assert_eq!(take_i(&data, 0, 4), Ok((4, -1)));
    assert_eq!(take_u(&data, 0, 4), Ok((4, 15)));
    assert_eq!(take_i(&data, 8, 8), Ok((16, 0x2C)));
    assert_eq!(take_u(&data, 8, 8), Ok((16, 0x2C)));
    assert_eq!(take_i(&data, 16, 12), Ok((28, 0x800 - 0x1000)));
    assert_eq!(take_u(&data, 16, 12), Ok((28, 0x800)));
    for w in 1..=32 {
        let (_, u) = take_u(&data, 0, w).unwrap();
        let (_, i) = take_i(&data, 0, w).unwrap();
        let msb_set = (u >> (w - 1)) & 1 == 1;
        let expected = if msb_set {
            u as i64 - (1i64 << w)
        } else {
            u as i64
        };
        assert_eq!(i as i64, expected);
    }
}

#[test]
fn longitude_sentinel_is_absent_and_values_pass_through() {
    assert_eq!(parse_longitude(108_600_000), None);
    assert_eq!(parse_longitude(0), Some(0));
    assert_eq!(parse_longitude(-73_476_522), Some(-73_476_522));
}

#[test]
fn latitude_sentinel_is_absent_and_values_pass_through() {
    assert_eq!(parse_latitude(54_600_000), None);
    assert_eq!(parse_latitude(22_680_000), Some(22_680_000));
}

#[test]
fn speed_and_course_sentinels_are_absent() {
    assert_eq!(parse_speed_over_ground(1023), None);
    assert_eq!(parse_speed_over_ground(139), Some(139));
    assert_eq!(parse_cog(3600), None);
    assert_eq!(parse_cog(2452), Some(2452));
    assert_eq!(parse_heading(511), None);
    assert_eq!(parse_heading(359), Some(359));
}

#[test]
fn rate_of_turn_sentinel_and_direction() {
    assert_eq!(RateOfTurn::parse(0x80), None);
    let starboard = RateOfTurn::parse(14).unwrap();
    assert_eq!(starboard.raw(), 14);
    assert_eq!(starboard.direction(), Some(Direction::Starboard));
    let port = RateOfTurn::parse(0xF2).unwrap();
    assert_eq!(port.raw(), -14);
    assert_eq!(port.direction(), Some(Direction::Port));
    let none = RateOfTurn::parse(0).unwrap();
    assert_eq!(none.direction(), None);
}

#[test]
fn enum_field_sentinels_are_absent() {
    assert_eq!(EpfdType::parse(0), None);
    assert_eq!(EpfdType::parse(15), None);
    assert_eq!(EpfdType::parse(7), Some(EpfdType::Surveyed));
    assert_eq!(EpfdType::parse(9), Some(EpfdType::Unknown(9)));
    assert_eq!(NavigationStatus::parse(15), None);
    assert_eq!(NavigationStatus::parse(5), Some(NavigationStatus::Moored));
    assert_eq!(ShipType::parse(0), None);
    assert_eq!(ShipType::parse(100), None);
    assert_eq!(ShipType::parse(37), Some(ShipType::PleasureCraft));
    assert_eq!(ShipType::parse(5), Some(ShipType::Reserved(5)));
    assert_eq!(ManeuverIndicator::parse(0), None);
    assert_eq!(
        ManeuverIndicator::parse(1),
        Some(ManeuverIndicator::NoSpecialManeuver)
    );
    assert_eq!(Accuracy::parse(1), Accuracy::DGPS);
    assert!(u8_to_bool(1));
    assert!(!u8_to_bool(0));
}

#[test]
fn year_sentinel_is_absent() {
    // A 14-bit year of zero at the front of the buffer.
    assert_eq!(parse_year(&[0, 0], 0), Ok((14, None)));
    // 2017 = 0b00011111100001, MSB-first at offset 0.
    let data = [0b0001_1111, 0b1000_0100];
    assert_eq!(parse_year(&data, 0), Ok((14, Some(2017))));
}

#[test]
fn sixbit_text_maps_and_trims() {
    // Values 32 (space), 1 ('A'), 0 ('@'): the text " A@" trims to "A".
    let data = [0b1000_0000, 0b0001_0000, 0x00];
    let (pos, text) = parse_6bit_ascii(&data, 0, 18).unwrap();
    assert_eq!(pos, 18);
    assert_eq!(text, "A");
}

#[test]
fn sixbit_text_keeps_inner_spaces() {
    // Values 1 ('A'), 32 (space), 2 ('B'): "A B" stays untouched.
    let data = [0b0000_0110, 0b0000_0000, 0b1000_0000];
    let (_, text) = parse_6bit_ascii(&data, 0, 18).unwrap();
    assert_eq!(text, "A B");
}

#[test]
fn sixbit_text_rounds_length_down() {
    // Sixteen bits hold only two full 6-bit characters.
    let data = [0b0000_0100, 0b0010_0000];
    let (pos, text) = parse_6bit_ascii(&data, 0, 16).unwrap();
    assert_eq!(pos, 12);
    assert_eq!(text, "AB");
}

#[test]
fn ship_type_wire_code_round_trips() {
    for v in 1u8..=99 {
        let decoded = ShipType::parse(v).unwrap();
        assert_eq!(u8::from(decoded), v);
    }
}
