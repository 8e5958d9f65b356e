//! Tests of the message decoders for types 1 to 9.
use ais::messages::base_station_report::BaseStationReport;
use ais::messages::binary_acknowledge::BinaryAcknowledge;
use ais::messages::binary_addressed::BinaryAddressedMessage;
use ais::messages::binary_broadcast_message::BinaryBroadcastMessage;
use ais::messages::navigation::{Accuracy, Direction, ManeuverIndicator};
use ais::messages::position_report::{NavigationStatus, PositionReport};
use ais::messages::radio_status::{RadioStatus, SubMessage, SyncState};
use ais::messages::standard_aircraft_position_report::SARPositionReport;
use ais::messages::static_and_voyage_related_data::StaticAndVoyageRelatedData;
use ais::messages::types::{Dte, ShipType};
use ais::messages::unarmor;

fn f32_equal_naive(a: f32, b: f32) {
    if (a - b).abs() >= f32::EPSILON {
        panic!("float {} != {}", a, b);
    }
}

fn degrees(raw: i32) -> f32 {
    raw as f32 / 600_000.0
}

#[test]
fn test_position() {
    let bytestream = b"13u?etPv2;0n:dDPwUM1U1Cb069D";
    let bitstream = unarmor(bytestream, 0).unwrap();
    let position = PositionReport::parse(bitstream.as_ref()).unwrap();
    assert_eq!(position.message_type, 1);
    assert_eq!(position.repeat_indicator, 0);
    assert_eq!(position.mmsi, 265547250);
    assert_eq!(
        position.navigation_status,
        Some(NavigationStatus::UnderWayUsingEngine)
    );
    let rate_of_turn = position.rate_of_turn.unwrap();
    let rate = (rate_of_turn.raw() as f32 / 4.733).powi(2);
    f32_equal_naive(rate.ceil(), 3.0);
    assert_eq!(rate_of_turn.direction(), Some(Direction::Port));
    assert_eq!(position.speed_over_ground, Some(139));
    assert_eq!(position.position_accuracy, Accuracy::Unaugmented);
    f32_equal_naive(degrees(position.longitude.unwrap()).ceil(), 12.0);
    f32_equal_naive(degrees(position.latitude.unwrap()).ceil(), 58.0);
    assert_eq!(position.course_over_ground, Some(404));
    assert_eq!(position.true_heading, Some(41));
    assert_eq!(position.timestamp, 53);
    assert_eq!(position.maneuver_indicator, None);
    assert!(!position.raim);
    if let RadioStatus::Sotdma(radio_status) = position.radio_status {
        assert_eq!(radio_status.sync_state, SyncState::UtcDirect);
        assert_eq!(radio_status.slot_timeout, 1);
        if let SubMessage::UtcHourAndMinute(hour, minute) = radio_status.sub_message {
            assert_eq!(hour, 17);
            assert_eq!(minute, 21);
        } else {
            panic!("Expected UTC Hour and Minute submessage");
        }
    } else {
        panic!("Expected SOTDMA message");
    }
}

#[test]
fn test_type1() {
    let bytestream = b"16SteH0P00Jt63hHaa6SagvJ087r";
    let bitstream = unarmor(bytestream, 0).unwrap();
    let position = PositionReport::parse(bitstream.as_ref()).unwrap();
    f32_equal_naive(degrees(position.longitude.unwrap()), -70.7582);
    if let RadioStatus::Sotdma(radio_status) = position.radio_status {
        assert_eq!(radio_status.sync_state, SyncState::UtcDirect);
        assert_eq!(radio_status.slot_timeout, 2);
        assert_eq!(radio_status.sub_message, SubMessage::SlotNumber(506));
    } else {
        panic!("Expected SOTDMA message");
    }
}

#[test]
fn test_type3() {
    let bytestream = b"38Id705000rRVJhE7cl9n;160000";
    let bitstream = unarmor(bytestream, 0).unwrap();
    let position = PositionReport::parse(bitstream.as_ref()).unwrap();
    assert_eq!(position.message_type, 3);
    assert_eq!(position.mmsi, 563808000);
    assert_eq!(position.navigation_status.unwrap(), NavigationStatus::Moored);
    f32_equal_naive(degrees(position.longitude.unwrap()), -76.32753);
    f32_equal_naive(degrees(position.latitude.unwrap()), 36.91);
    assert_eq!(position.course_over_ground, Some(2520));
    assert_eq!(position.true_heading.unwrap(), 352);
    assert_eq!(position.timestamp, 35);
    if let RadioStatus::Itdma(radio_status) = position.radio_status {
        assert_eq!(radio_status.sync_state, SyncState::UtcDirect);
        assert_eq!(radio_status.slot_increment, 0);
        assert_eq!(radio_status.num_slots, 0);
        assert!(!radio_status.keep);
    } else {
        panic!("Expected ITDMA message");
    }
}

#[test]
fn test_maneuver_indicator_out_of_spec() {
    let bytestream = b"33nQ:B50000FiEBRjpcK19qSR>`<";
    let bitstream = unarmor(bytestream, 0).unwrap();
    let position = PositionReport::parse(bitstream.as_ref()).unwrap();
    assert_eq!(
        position.maneuver_indicator,
        Some(ManeuverIndicator::Unknown(3))
    );
}

#[test]
fn test_type4() {
    let bytestream = b"403OtVAv7=i?;o?IaHE`4Iw020S:";
    let bitstream = unarmor(bytestream, 0).unwrap();
    let message = BaseStationReport::parse(bitstream.as_ref()).unwrap();
    assert_eq!(message.message_type, 4);
    assert_eq!(message.repeat_indicator, 0);
    assert_eq!(message.mmsi, 3669145);
    assert_eq!(message.year, Some(2017));
    assert_eq!(message.month, Some(12));
    assert_eq!(message.day, Some(27));
    assert_eq!(message.hour, 17);
    assert_eq!(message.minute, Some(15));
    assert_eq!(message.second, Some(11));
    assert_eq!(message.fix_quality, Accuracy::DGPS);
    f32_equal_naive(degrees(message.longitude.unwrap()), -122.464775);
    f32_equal_naive(degrees(message.latitude.unwrap()), 37.794308);
    assert_eq!(message.epfd_type, None);
    assert!(message.raim);
    if let RadioStatus::Sotdma(radio_status) = message.radio_status {
        assert_eq!(radio_status.sync_state, SyncState::UtcDirect);
        assert_eq!(radio_status.slot_timeout, 0);
        assert_eq!(radio_status.sub_message, SubMessage::SlotOffset(2250));
    } else {
        panic!("Expected SOTDMA message");
    }
}

#[test]
fn test_type4_2() {
    let bytestream = b"403OviQuMGCqWrRO9>E6fE700@GO";
    let bitstream = unarmor(bytestream, 0).unwrap();
    let message = BaseStationReport::parse(bitstream.as_ref()).unwrap();
    assert_eq!(message.message_type, 4);
    assert_eq!(message.repeat_indicator, 0);
    assert_eq!(message.mmsi, 3669702);
    assert_eq!(message.year, Some(2007));
    assert_eq!(message.month, Some(5));
    assert_eq!(message.day, Some(14));
    assert_eq!(message.hour, 19);
    assert_eq!(message.minute, Some(57));
    assert_eq!(message.second, Some(39));
    assert_eq!(message.fix_quality, Accuracy::DGPS);
    f32_equal_naive(degrees(message.longitude.unwrap()), -76.35236);
    f32_equal_naive(degrees(message.latitude.unwrap()), 36.883766);
    assert_eq!(message.epfd_type, Some(ais::messages::types::EpfdType::Surveyed));
    assert!(!message.raim);
    if let RadioStatus::Sotdma(radio_status) = message.radio_status {
        assert_eq!(radio_status.sync_state, SyncState::UtcDirect);
        assert_eq!(radio_status.slot_timeout, 4);
        assert_eq!(radio_status.sub_message, SubMessage::SlotNumber(1503));
    } else {
        panic!("Expected SOTDMA message");
    }
}

#[test]
fn test_type4_invalid_date() {
    let bytestream = b"4h2E:qT47wk?0<tSF0l4Q@000d;@";
    let bitstream = unarmor(bytestream, 0).unwrap();
    let message = BaseStationReport::parse(bitstream.as_ref()).unwrap();
    assert_eq!(message.mmsi, 2444006);
    assert_eq!(message.year, Some(4161));
    assert_eq!(message.month, Some(15));
    assert_eq!(message.day, Some(31));
}

#[test]
fn test_type5_truncated() {
    let bytestream = b"5341U9`00000uCGCKL0u=@T4000000000000001?<@<47u;b004Sm51DQ0C@";
    let bitstream = unarmor(bytestream, 0).unwrap();
    let message = StaticAndVoyageRelatedData::parse(bitstream.as_ref()).unwrap();
    assert_eq!(message.message_type, 5);
    assert_eq!(message.repeat_indicator, 0);
    assert_eq!(message.mmsi, 205546790);
    assert_eq!(message.callsign, "OT5467");
    assert_eq!(
        message.ship_type,
        Some(ShipType::CargoNoAdditionalInformation)
    );
    assert_eq!(message.eta_month_utc, Some(4));
    assert_eq!(message.destination, "ROTTERDAM");
    assert_eq!(message.epfd_type, None);
    assert_eq!(message.dte, Dte::Ready);
}

#[test]
fn test_type5_multipart() {
    let bytestream = b"53`soB8000010KSOW<0P4eDp4l6000000000000U0p<24t@P05H3S833CDP000000000000";
    let bitstream = unarmor(bytestream, 0).unwrap();
    let message = StaticAndVoyageRelatedData::parse(bitstream.as_ref()).unwrap();
    assert_eq!(message.message_type, 5);
    assert_eq!(message.repeat_indicator, 0);
    assert_eq!(message.mmsi, 244250440);
    assert_eq!(message.callsign, "PF8793");
    assert_eq!(message.ship_type, Some(ShipType::PleasureCraft));
    assert_eq!(message.draught, 21);
    assert_eq!(message.eta_month_utc, Some(1));
    assert_eq!(message.destination, "NL LMMR");
    assert_eq!(message.epfd_type, None);
    assert_eq!(message.dte, Dte::Ready);
}

#[test]
fn test_type6_example_1() {
    let bytestream = b"6B?n;be:cbapalgc;i6?Ow4";
    let bitstream = unarmor(bytestream, 2).unwrap();
    let report = BinaryAddressedMessage::parse(bitstream.as_ref()).unwrap();

    assert_eq!(report.message_type, 6);
    assert_eq!(report.repeat_indicator, 1);
    assert_eq!(report.mmsi, 150834090);
    assert_eq!(report.seqno, 3);
    assert_eq!(report.dest_mmsi, 313240222);
    assert!(!report.retransmit);
    assert_eq!(report.dac, 669);
    assert_eq!(report.fid, 11);

    let expected_data: Vec<u8> = vec![0xeb, 0x2f, 0x11, 0x8f, 0x7f, 0xf1, 0x00];
    assert_eq!(report.data, expected_data);
}

#[test]
fn test_type6_example_2() {
    let bytestream = b"6>jR0600V:C0>da4P106P00";
    let bitstream = unarmor(bytestream, 2).unwrap();
    let report = BinaryAddressedMessage::parse(bitstream.as_ref()).unwrap();

    assert_eq!(report.message_type, 6);
    assert_eq!(report.repeat_indicator, 0);
    assert_eq!(report.mmsi, 992509976);
    assert_eq!(report.seqno, 0);
    assert_eq!(report.dest_mmsi, 2500912);
    assert!(!report.retransmit);
    assert_eq!(report.dac, 235);
    assert_eq!(report.fid, 10);

    let expected_data: Vec<u8> = vec![0x44, 0x80, 0x10, 0x06, 0x80, 0x00, 0x00];
    assert_eq!(report.data, expected_data);
}

#[test]
fn test_type7_example_1() {
    let bytestream = b"702R5`hwCt40";
    let bitstream = unarmor(bytestream, 0).unwrap();
    let report = BinaryAcknowledge::parse(bitstream.as_ref()).unwrap();

    assert_eq!(report.message_type, 7);
    assert_eq!(report.repeat_indicator, 0);
    assert_eq!(report.mmsi, 2655651);
    assert_eq!(report.acks.len(), 1);
    let ack = &report.acks[0];
    assert_eq!(ack.mmsi, 265547840);
    assert_eq!(ack.seq_num, 0);
}

#[test]
fn test_type7_example_2() {
    let bytestream = b"702R5`hwCjq8";
    let bitstream = unarmor(bytestream, 0).unwrap();
    let report = BinaryAcknowledge::parse(bitstream.as_ref()).unwrap();

    assert_eq!(report.message_type, 7);
    assert_eq!(report.repeat_indicator, 0);
    assert_eq!(report.mmsi, 2655651);
    assert_eq!(report.acks.len(), 1);
    let ack = &report.acks[0];
    assert_eq!(ack.mmsi, 265538450);
    assert_eq!(ack.seq_num, 0);

    assert!(report.acks.get(1).is_none());
    assert!(report.acks.get(2).is_none());
    assert!(report.acks.get(3).is_none());
}

#[test]
fn test_meteorological_hydrological_old() {
    let bytestream = b"8@2<HW@0BkdhF0dcH5R`Q@kDJjD;WwfRwwwwwwwwwwwwwwwwwwwwwwwwwt0";
    let bitstream = unarmor(bytestream, 0).unwrap();
    let report = BinaryBroadcastMessage::parse(bitstream.as_ref()).unwrap();
    assert_eq!(report.message_type, 8);
    assert_eq!(report.repeat_indicator, 1);
    assert_eq!(report.mmsi, 2300061);
    assert_eq!(report.dac, 1);
    assert_eq!(report.fid, 11);
}

#[test]
fn test_meteorological_hydrological_new() {
    let bytestream = b"8@2R5Ph0GhEa?1bGBviEOwvlFR06EuOwgqriwnSwe7wvlOwwsAwwnSGmwvwt";
    let bitstream = unarmor(bytestream, 0).unwrap();
    let report = BinaryBroadcastMessage::parse(bitstream.as_ref()).unwrap();
    assert_eq!(report.message_type, 8);
    assert_eq!(report.repeat_indicator, 1);
    assert_eq!(report.mmsi, 2655619);
    assert_eq!(report.dac, 1);
    assert_eq!(report.fid, 31);
}

#[test]
fn test_type9_example() {
    let bytestream = b"91b55wi;hbOS@OdQAC062Ch2089h";
    let bitstream = unarmor(bytestream, 0).unwrap();
    let report = SARPositionReport::parse(bitstream.as_ref()).unwrap();

    assert_eq!(report.message_type, 9);
    assert_eq!(report.repeat_indicator, 0);
    assert_eq!(report.mmsi, 111232511);
    assert_eq!(report.altitude, Some(303));
    assert_eq!(report.speed_over_ground, Some(42));
    assert_eq!(report.position_accuracy, Accuracy::Unaugmented);
    f32_equal_naive(degrees(report.longitude.unwrap()), -6.2788434);
    f32_equal_naive(degrees(report.latitude.unwrap()), 58.144);
    assert_eq!(report.course_over_ground, Some(1545));
    assert_eq!(report.timestamp, 15);
    assert_eq!(report.dte, Dte::NotReady);
    if let RadioStatus::Sotdma(radio_status) = report.radio_status {
        assert_eq!(radio_status.sync_state, SyncState::UtcDirect);
        assert_eq!(radio_status.slot_timeout, 1);
        if let SubMessage::UtcHourAndMinute(hour, minute) = radio_status.sub_message {
            assert_eq!(hour, 0);
            assert_eq!(minute, 14);
        } else {
            panic!("Expected UTC Hour and Minute submessage");
        }
    } else {
        panic!("Expected SOTDMA message");
    }
    assert!(!report.raim);
}
