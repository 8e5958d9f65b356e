//! Tests of the message decoders for types 10 to 27.
use ais::messages::addressed_safety_related::AddressedSafetyRelatedMessage;
use ais::messages::aid_to_navigation_report::AidToNavigationReport;
use ais::messages::assignment_mode_command::AssignmentModeCommand;
use ais::messages::data_link_management_message::DataLinkManagementMessage;
use ais::messages::dgnss_broadcast_binary_message::DgnssBroadcastBinaryMessage;
use ais::messages::extended_class_b_position_report::ExtendedClassBPositionReport;
use ais::messages::group_assignment_command::{GroupAssignmentCommand, StationInterval, StationType, TransmitMode};
use ais::messages::interrogation::Interrogation;
use ais::messages::long_range_ais_broadcast::LongRangeAisBroadcastMessage;
use ais::messages::navigation::Accuracy;
use ais::messages::position_report::NavigationStatus;
use ais::messages::radio_status::{RadioStatus, SubMessage, SyncState};
use ais::messages::safety_related_acknowledgment::SafetyRelatedAcknowledge;
use ais::messages::safety_related_broadcast::SafetyRelatedBroadcastMessage;
use ais::messages::standard_class_b_position_report::{CarrierSense, StandardClassBPositionReport};
use ais::messages::static_data_report::{MessagePart, StaticDataReport};
use ais::messages::types::{AssignedMode, Dte, EpfdType, ShipType};
use ais::messages::unarmor;
use ais::messages::utc_date_inquiry::UtcDateInquiry;
use ais::messages::utc_date_response::UtcDateResponse;

fn f32_equal_naive(a: f32, b: f32) {
    if (a - b).abs() >= f32::EPSILON {
        panic!("float {} != {}", a, b);
    }
}

fn degrees(raw: i32) -> f32 {
    raw as f32 / 600_000.0
}

fn coarse_degrees(raw: i32) -> f32 {
    raw as f32 / 600.0
}

fn long_range_degrees(raw: i32) -> f32 {
    (raw as f32 / 600_000.0) * 1000.0
}

#[test]
fn test_type10_example_a() {
    let bytestream = b":5MlU41GMK6@";
    let bitstream = unarmor(bytestream, 0).unwrap();
    let report = UtcDateInquiry::parse(bitstream.as_ref()).unwrap();

    assert_eq!(report.message_type, 10);
    assert_eq!(report.repeat_indicator, 0);
    assert_eq!(report.mmsi, 366814480);
    assert_eq!(report.dest_mmsi, 366832740);
}

#[test]
fn test_type10_example_b() {
    let bytestream = b":6TMCD1GOS60";
    let bitstream = unarmor(bytestream, 0).unwrap();
    let report = UtcDateInquiry::parse(bitstream.as_ref()).unwrap();

    assert_eq!(report.message_type, 10);
    assert_eq!(report.repeat_indicator, 0);
    assert_eq!(report.mmsi, 440882000);
    assert_eq!(report.dest_mmsi, 366972000);
}

#[test]
fn test_type11() {
    let bytestream = b";03sl8AvA;5AO7gnf@<FdSA00000";
    let bitstream = unarmor(bytestream, 0).unwrap();
    let message = UtcDateResponse::parse(&bitstream).unwrap();
    assert_eq!(message.message_type, 11);
    assert_eq!(message.repeat_indicator, 0);
    assert_eq!(message.mmsi, 4125729);
    assert_eq!(message.year, Some(2020));
    assert_eq!(message.month, Some(4));
    assert_eq!(message.day, Some(22));
    assert_eq!(message.hour, 5);
    assert_eq!(message.minute, Some(17));
    assert_eq!(message.second, Some(31));
    assert_eq!(message.fix_quality, Accuracy::Unaugmented);
    f32_equal_naive(degrees(message.longitude.unwrap()), 108.32119);
    f32_equal_naive(degrees(message.latitude.unwrap()), 21.591275);
    assert_eq!(message.epfd_type, Some(EpfdType::Gps));
    assert!(!message.raim);
    if let RadioStatus::Sotdma(radio_status) = message.radio_status {
        assert_eq!(radio_status.sync_state, SyncState::UtcDirect);
        assert_eq!(radio_status.slot_timeout, 0);
        assert_eq!(radio_status.sub_message, SubMessage::SlotOffset(0));
    } else {
        panic!("Expected SOTDMA message");
    }
}

#[test]
fn test_type12_example_a() {
    let bytestream = b"<5?SIj1;GbD07??4";
    let bitstream = unarmor(bytestream, 0).unwrap();
    let report = AddressedSafetyRelatedMessage::parse(bitstream.as_ref()).unwrap();

    assert_eq!(report.message_type, 12);
    assert_eq!(report.repeat_indicator, 0);
    assert_eq!(report.mmsi, 351853000);
    assert_eq!(report.seqno, 0);
    assert_eq!(report.dest_mmsi, 316123456);
    assert!(!report.retransmit);
    assert_eq!(report.text, "GOOD");
}

#[test]
fn test_type12_example_b() {
    let bytestream = b"<42Lati0W:Ov=C7P6B?=Pjoihhjhqq0";
    let bitstream = unarmor(bytestream, 2).unwrap();
    let report = AddressedSafetyRelatedMessage::parse(bitstream.as_ref()).unwrap();

    assert_eq!(report.message_type, 12);
    assert_eq!(report.repeat_indicator, 0);
    assert_eq!(report.mmsi, 271002099);
    assert_eq!(report.seqno, 0);
    assert_eq!(report.dest_mmsi, 271002111);
    assert!(report.retransmit);
    assert_eq!(report.text, "MSG FROM 271002099");
}

#[test]
fn test_type13_example() {
    let bytestream = b"=39UOj0jFs9R";
    let bitstream = unarmor(bytestream, 0).unwrap();
    let report = SafetyRelatedAcknowledge::parse(bitstream.as_ref()).unwrap();

    assert_eq!(report.message_type, 13);
    assert_eq!(report.repeat_indicator, 0);
    assert_eq!(report.mmsi, 211378120);
    assert_eq!(report.acks.len(), 1);
    let ack = &report.acks[0];
    assert_eq!(ack.mmsi, 211217560);
    assert_eq!(ack.seq_num, 2);
}

#[test]
fn test_type14_example() {
    let bytestream = b">5?Per18=HB1U:1@E=B0m<L";
    let bitstream = unarmor(bytestream, 2).unwrap();
    let report = SafetyRelatedBroadcastMessage::parse(bitstream.as_ref()).unwrap();

    assert_eq!(report.message_type, 14);
    assert_eq!(report.repeat_indicator, 0);
    assert_eq!(report.mmsi, 351809000);
    assert_eq!(report.text, "RCVD YR TEST MSG");
}

#[test]
fn test_type15_short() {
    let bytestream = b"?03Owo@nwsI0D00";
    let bitstream = unarmor(bytestream, 2).unwrap();
    let message = Interrogation::parse(bitstream.as_ref()).unwrap();
    assert_eq!(message.message_type, 15);
    assert_eq!(message.repeat_indicator, 0);
    assert_eq!(message.mmsi, 3669981);
    assert_eq!(message.stations.len(), 1);
    let station = &message.stations[0];
    assert_eq!(station.mmsi, 230682000);
    assert_eq!(station.messages.len(), 1);
    let submessage = &station.messages[0];
    assert_eq!(submessage.message_type, 5);
    assert!(submessage.slot_offset.is_none());
}

#[test]
fn test_type15_busy() {
    let bytestream = b"?>eq`dAh3`TQP00";
    let bitstream = unarmor(bytestream, 0).unwrap();
    let message = Interrogation::parse(bitstream.as_ref()).unwrap();
    assert_eq!(message.message_type, 15);
    assert_eq!(message.repeat_indicator, 0);
    assert_eq!(message.mmsi, 987654321);
    assert_eq!(message.stations.len(), 1);
    let station = &message.stations[0];
    assert_eq!(station.mmsi, 470000200);
    assert_eq!(station.messages.len(), 1);
    let submessage = &station.messages[0];
    assert_eq!(submessage.message_type, 24);
    assert!(submessage.slot_offset.is_none());
}

#[test]
fn test_type15_longer() {
    let bytestream = b"?04759iVhc2lD003000";
    let bitstream = unarmor(bytestream, 2).unwrap();
    let message = Interrogation::parse(bitstream.as_ref()).unwrap();
    assert_eq!(message.message_type, 15);
    assert_eq!(message.repeat_indicator, 0);
    assert_eq!(message.mmsi, 4310311);
    assert_eq!(message.stations.len(), 1);
    let station = &message.stations[0];
    assert_eq!(station.mmsi, 431008813);
    assert_eq!(station.messages.len(), 2);
    let submessage = &station.messages[0];
    assert_eq!(submessage.message_type, 5);
    assert!(submessage.slot_offset.is_none());
    let submessage = &station.messages[1];
    assert_eq!(submessage.message_type, 3);
    assert!(submessage.slot_offset.is_none());
}

#[test]
fn test_type16_example_1_single_station() {
    let bytestream = b"@01uEO@mMk7P<P00";
    let bitstream = unarmor(bytestream, 0).unwrap();
    let report = AssignmentModeCommand::parse(bitstream.as_ref()).unwrap();

    assert_eq!(report.message_type, 16);
    assert_eq!(report.repeat_indicator, 0);
    assert_eq!(report.mmsi, 2053501);
    assert_eq!(report.mmsi1, 224251000);
    assert_eq!(report.offset1, 200);
    assert_eq!(report.increment1, 0);
    assert_eq!(report.mmsi2, None);
    assert_eq!(report.offset2, None);
    assert_eq!(report.increment2, None);
}

#[test]
fn test_type16_example_2_single_station() {
    let bytestream = b"@01uEO@hsqJ0<P00";
    let bitstream = unarmor(bytestream, 0).unwrap();
    let report = AssignmentModeCommand::parse(bitstream.as_ref()).unwrap();

    assert_eq!(report.message_type, 16);
    assert_eq!(report.repeat_indicator, 0);
    assert_eq!(report.mmsi, 2053501);
    assert_eq!(report.mmsi1, 205252000);
    assert_eq!(report.offset1, 200);
    assert_eq!(report.increment1, 0);
    assert_eq!(report.mmsi2, None);
    assert_eq!(report.offset2, None);
    assert_eq!(report.increment2, None);
}

#[test]
fn test_type16_example_with_two_stations() {
    let bytestream = b"@6STUk004lQ206bCKNOBAb6SJ@5s";
    let bitstream = unarmor(bytestream, 0).unwrap();
    let report = AssignmentModeCommand::parse(bitstream.as_ref()).unwrap();

    assert_eq!(report.message_type, 16);
    assert_eq!(report.repeat_indicator, 0);
    assert_eq!(report.mmsi, 439952844);
    assert_eq!(report.mmsi1, 315920);
    assert_eq!(report.offset1, 2049);
    assert_eq!(report.increment1, 681);
    assert_eq!(report.mmsi2, Some(230137673));
    assert_eq!(report.offset2, Some(424));
    assert_eq!(report.increment2, Some(419));
}

#[test]
fn test_message() {
    let bytestream =
        b"A02VqLPA4I6C07h5Ed1h<OrsuBTTwS?r:C?w`?la<gno1RTRwSP9:BcurA8a:Oko02TSwu8<:Jbb";
    let bitstream = unarmor(bytestream, 0).unwrap();
    let message = DgnssBroadcastBinaryMessage::parse(bitstream.as_ref()).unwrap();
    assert_eq!(message.message_type, 17);
    assert_eq!(message.repeat_indicator, 0);
    assert_eq!(message.mmsi, 2734450);
    f32_equal_naive(coarse_degrees(message.longitude.unwrap()), 29.13);
    f32_equal_naive(coarse_degrees(message.latitude.unwrap()), 59.986668);
    assert_eq!(message.payload.z_count, 2776);
    assert_eq!(message.payload.data.len(), 42);
}

#[test]
fn standard_class_b_position_report_test_position() {
    let bytestream = b"B6:hQDh0029Pt<4TAS003h6TSP00";
    let bitstream = unarmor(bytestream, 0).unwrap();
    let report = StandardClassBPositionReport::parse(bitstream.as_ref()).unwrap();
    assert_eq!(report.message_type, 18);
    assert_eq!(report.repeat_indicator, 0);
    assert_eq!(report.mmsi, 413933907);
    assert_eq!(report.speed_over_ground, Some(0));
    assert_eq!(report.position_accuracy, Accuracy::Unaugmented);
    f32_equal_naive(degrees(report.longitude.unwrap()), 120.16217);
    f32_equal_naive(degrees(report.latitude.unwrap()), 31.924133);
    assert_eq!(report.course_over_ground, Some(0));
    assert_eq!(report.true_heading, Some(480));
    assert_eq!(report.timestamp, 13);
    assert_eq!(report.cs_unit, CarrierSense::CarrierSense);
    assert!(!report.has_display);
    assert!(!report.has_dsc);
    assert!(report.whole_band);
    assert_eq!(report.assigned_mode, AssignedMode::Autonomous);
    assert!(!report.raim);
    if let RadioStatus::Itdma(radio_status) = report.radio_status {
        assert_eq!(radio_status.sync_state, SyncState::NumberOfReceivedStations);
        assert_eq!(radio_status.slot_increment, 0);
        assert_eq!(radio_status.num_slots, 0);
        assert!(!radio_status.keep);
    } else {
        panic!("Expected ITDMA message");
    }
}

#[test]
fn extended_class_b_position_report_test_position() {
    let bytestream = b"C6:ijoP00:9NNF4TEspILDN0Vc0jNc1WWV0000000000S2<6R20P";
    let bitstream = unarmor(bytestream, 0).unwrap();
    let report = ExtendedClassBPositionReport::parse(&bitstream).unwrap();
    assert_eq!(report.message_type, 19);
    assert_eq!(report.repeat_indicator, 0);
    assert_eq!(report.mmsi, 413954782);
    assert_eq!(report.speed_over_ground, Some(0));
    assert_eq!(report.position_accuracy, Accuracy::DGPS);
    f32_equal_naive(degrees(report.longitude.unwrap()), 120.12851);
    f32_equal_naive(degrees(report.latitude.unwrap()), 31.931623);
    assert_eq!(report.course_over_ground, Some(407));
    assert_eq!(report.true_heading, Some(40));
    assert_eq!(report.timestamp, 60);
    assert_eq!(report.name, "SU YOU 333");
    assert_eq!(report.type_of_ship_and_cargo, Some(ShipType::Cargo));
    assert_eq!(report.dimension_to_bow, 35);
    assert_eq!(report.dimension_to_stern, 13);
    assert_eq!(report.dimension_to_port, 4);
    assert_eq!(report.dimension_to_starboard, 4);
    assert_eq!(report.epfd_type, None);
    assert!(!report.raim);
    assert_eq!(report.dte, Dte::NotReady);
    assert_eq!(report.assigned_mode, AssignedMode::Autonomous);
}

#[test]
fn test_2_slots() {
    let bytestream = b"D02<HjiUHBfr<`E6D0";
    let bitstream = unarmor(bytestream, 0).unwrap();
    let report = DataLinkManagementMessage::parse(bitstream.as_ref()).unwrap();
    assert_eq!(report.message_type, 20);
    assert_eq!(report.repeat_indicator, 0);
    assert_eq!(report.mmsi, 2300107);
    assert_eq!(report.reservations.len(), 2);
    assert_eq!(report.reservations[0].num_slots, 1);
    assert_eq!(report.reservations[1].increment, 1125);
}

#[test]
fn test_3_slots() {
    let bytestream = b"D02;bK0RlLfq6DM6DA8u6D0";
    let bitstream = unarmor(bytestream, 0).unwrap();
    let report = DataLinkManagementMessage::parse(bitstream.as_ref()).unwrap();
    assert_eq!(report.message_type, 20);
    assert_eq!(report.repeat_indicator, 0);
    assert_eq!(report.mmsi, 2288236);
    assert_eq!(report.reservations.len(), 3);
    assert_eq!(report.reservations[1].num_slots, 1);
    assert_eq!(report.reservations[2].increment, 1125);
}

#[test]
fn test_type21_not_extended() {
    let bytestream = b"E>kb9II9S@0`8@:9ah;0TahIW@@;Uafb:r5Ih00003vP100";
    let bitstream = unarmor(bytestream, 0).unwrap();
    let message = AidToNavigationReport::parse(bitstream.as_ref()).unwrap();
    assert_eq!(message.message_type, 21);
    assert_eq!(message.repeat_indicator, 0);
    assert_eq!(message.mmsi, 993692005);
    assert_eq!(message.name, "SF APP TSS VAIS 3N");
    assert_eq!(message.accuracy, Accuracy::Unaugmented);
    f32_equal_naive(degrees(message.longitude.unwrap()), -123.35972);
    f32_equal_naive(degrees(message.latitude.unwrap()), 38.124718);
    assert_eq!(message.epfd_type, Some(EpfdType::Surveyed));
    assert!(!message.raim);
}

#[test]
fn test_type23() {
    let bytestream = b"G02OHAP8aLvg@@b1tF600000;00";
    let bitstream = unarmor(bytestream, 0).unwrap();
    let message = GroupAssignmentCommand::parse(&bitstream).unwrap();
    assert_eq!(message.message_type, 23);
    assert_eq!(message.repeat_indicator, 0);
    assert_eq!(message.mmsi, 2611270);
    f32_equal_naive(degrees(message.ne_longitude.unwrap()), 0.014758334);
    f32_equal_naive(degrees(message.ne_latitude.unwrap()), 0.05353667);
    f32_equal_naive(degrees(message.sw_longitude.unwrap()), 0.014213333);
    f32_equal_naive(degrees(message.sw_latitude.unwrap()), 0.053053334);
    assert_eq!(
        message.station_type,
        StationType::RegionalUseAndInlandWaterways,
    );
    assert_eq!(message.ship_type, None);
    assert_eq!(message.tx_rx_mode, TransmitMode::TxATxBRxARxB);
    assert_eq!(message.report_interval, StationInterval::Reserved(11));
    assert_eq!(message.quiet_time, None);
}

#[test]
fn test_part_a_message() {
    let bytestream = b"H6:lEgQL4r1<QDr0P4pN3KSKP00";
    let bitstream = unarmor(bytestream, 0).unwrap();
    let message = StaticDataReport::parse(bitstream.as_ref()).unwrap();
    assert_eq!(message.mmsi, 413996478);
    match message.message_part {
        MessagePart::PartA { vessel_name } => {
            assert_eq!(vessel_name, "WAN SHUN HANG 6868");
        }
        _ => panic!("Expected Message Part A"),
    }
}

#[test]
fn test_part_b_main_vessel_message() {
    let bytestream = b"H3mr@L4NC=D62?P<7nmpl00@8220";
    let bitstream = unarmor(bytestream, 0).unwrap();
    let message = StaticDataReport::parse(bitstream.as_ref()).unwrap();
    assert_eq!(message.mmsi, 257855600);
    match message.message_part {
        MessagePart::PartB {
            ship_type,
            vendor_id,
            model_serial,
            callsign,
            dimension_to_stern,
            ..
        } => {
            assert_eq!(ship_type, Some(ShipType::Fishing));
            assert_eq!(vendor_id, "SMT");
            assert_eq!(model_serial, "FBO");
            assert_eq!(callsign, "LG6584");
            assert_eq!(dimension_to_stern, 8);
        }
        _ => panic!("Expected Message Part B"),
    }
}

#[test]
fn test_part_b_auxiliary_vessel_message() {
    let bytestream = b"H>cfmI4UFC@0DAN00000000H3110";
    let bitstream = unarmor(bytestream, 0).unwrap();
    let message = StaticDataReport::parse(bitstream.as_ref()).unwrap();
    assert_eq!(message.mmsi, 985380196);
    match message.message_part {
        MessagePart::PartB {
            ship_type,
            vendor_id,
            serial_number,
            dimension_to_bow,
            ..
        } => {
            assert_eq!(ship_type, Some(ShipType::PleasureCraft));
            assert_eq!(vendor_id, "VSP");
            assert_eq!(serial_number, 83038);
            assert_eq!(dimension_to_bow, 3);
        }
        _ => panic!("Expected Message Part B"),
    }
}

#[test]
fn test_type27_example() {
    let bytestream = b"KC5E2b@U19PFdLbMuc5=ROv62<7m";
    let bitstream = unarmor(bytestream, 0).unwrap();
    let report = LongRangeAisBroadcastMessage::parse(bitstream.as_ref()).unwrap();

    assert_eq!(report.message_type, 27);
    assert_eq!(report.repeat_indicator, 1);
    assert_eq!(report.mmsi, 206914217);
    assert_eq!(report.position_accuracy, Accuracy::Unaugmented);
    assert!(!report.raim);
    assert_eq!(
        report.navigation_status,
        Some(NavigationStatus::NotUnderCommand)
    );
    f32_equal_naive(long_range_degrees(report.longitude.unwrap()), 137.02333);
    f32_equal_naive(long_range_degrees(report.latitude.unwrap()), 4.84);
    assert_eq!(report.speed_over_ground, Some(57));
    assert_eq!(report.course_over_ground, Some(167));
    assert!(!report.gnss_position_status);
}

#[test]
fn test_type27_signed_example() {
    let bytestream = b"K01;FQh?PbtE3P00";
    let bitstream = unarmor(bytestream, 0).unwrap();
    let report = LongRangeAisBroadcastMessage::parse(bitstream.as_ref()).unwrap();

    assert_eq!(report.message_type, 27);
    assert_eq!(report.mmsi, 1234567);
    f32_equal_naive(long_range_degrees(report.longitude.unwrap()), -13.368334);
    f32_equal_naive(long_range_degrees(report.latitude.unwrap()), -50.121665);
}
