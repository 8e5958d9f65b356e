//! Tests of the dispatcher and of whole-line decoding scenarios.
use ais::errors::Error;
use ais::messages::{parse, unarmor, AisMessage};
use ais::sentence::{AisFragments, AisParser};

fn f32_equal_naive(a: f32, b: f32) {
    if (a - b).abs() >= f32::EPSILON {
        panic!("float {} != {}", a, b);
    }
}

fn dispatch(bytestream: &[u8], fill: usize) -> Result<AisMessage, Error> {
    let bitstream = unarmor(bytestream, fill).unwrap();
    parse(&bitstream)
}

#[test]
fn dispatch_yields_matching_variants() {
    assert!(matches!(
        dispatch(b"13u?etPv2;0n:dDPwUM1U1Cb069D", 0),
        Ok(AisMessage::PositionReport(_))
    ));
    assert!(matches!(
        dispatch(b"403OtVAv7=i?;o?IaHE`4Iw020S:", 0),
        Ok(AisMessage::BaseStationReport(_))
    ));
    assert!(matches!(
        dispatch(
            b"53`soB8000010KSOW<0P4eDp4l6000000000000U0p<24t@P05H3S833CDP000000000000",
            0
        ),
        Ok(AisMessage::StaticAndVoyageRelatedData(_))
    ));
    assert!(matches!(
        dispatch(b"6B?n;be:cbapalgc;i6?Ow4", 2),
        Ok(AisMessage::BinaryAddressedMessage(_))
    ));
    assert!(matches!(
        dispatch(b"702R5`hwCt40", 0),
        Ok(AisMessage::BinaryAcknowledgeMessage(_))
    ));
    assert!(matches!(
        dispatch(b"8@2<HW@0BkdhF0dcH5R`Q@kDJjD;WwfRwwwwwwwwwwwwwwwwwwwwwwwwwt0", 0),
        Ok(AisMessage::BinaryBroadcastMessage(_))
    ));
    assert!(matches!(
        dispatch(b"91b55wi;hbOS@OdQAC062Ch2089h", 0),
        Ok(AisMessage::StandardAircraftPositionReport(_))
    ));
    assert!(matches!(
        dispatch(b":5MlU41GMK6@", 0),
        Ok(AisMessage::UtcDateInquiry(_))
    ));
    assert!(matches!(
        dispatch(b";03sl8AvA;5AO7gnf@<FdSA00000", 0),
        Ok(AisMessage::UtcDateResponse(_))
    ));
    assert!(matches!(
        dispatch(b"<5?SIj1;GbD07??4", 0),
        Ok(AisMessage::AddressedSafetyRelatedMessage(_))
    ));
    assert!(matches!(
        dispatch(b"=39UOj0jFs9R", 0),
        Ok(AisMessage::SafetyRelatedAcknowledgment(_))
    ));
    assert!(matches!(
        dispatch(b">5?Per18=HB1U:1@E=B0m<L", 2),
        Ok(AisMessage::SafetyRelatedBroadcastMessage(_))
    ));
    assert!(matches!(
        dispatch(b"?03Owo@nwsI0D00", 2),
        Ok(AisMessage::Interrogation(_))
    ));
    assert!(matches!(
        dispatch(b"@01uEO@mMk7P<P00", 0),
        Ok(AisMessage::AssignmentModeCommand(_))
    ));
    assert!(matches!(
        dispatch(
            b"A02VqLPA4I6C07h5Ed1h<OrsuBTTwS?r:C?w`?la<gno1RTRwSP9:BcurA8a:Oko02TSwu8<:Jbb",
            0
        ),
        Ok(AisMessage::DgnssBroadcastBinaryMessage(_))
    ));
    assert!(matches!(
        dispatch(b"B6:hQDh0029Pt<4TAS003h6TSP00", 0),
        Ok(AisMessage::StandardClassBPositionReport(_))
    ));
    assert!(matches!(
        dispatch(b"C6:ijoP00:9NNF4TEspILDN0Vc0jNc1WWV0000000000S2<6R20P", 0),
        Ok(AisMessage::ExtendedClassBPositionReport(_))
    ));
    assert!(matches!(
        dispatch(b"D02<HjiUHBfr<`E6D0", 0),
        Ok(AisMessage::DataLinkManagementMessage(_))
    ));
    assert!(matches!(
        dispatch(b"E>kb9II9S@0`8@:9ah;0TahIW@@;Uafb:r5Ih00003vP100", 0),
        Ok(AisMessage::AidToNavigationReport(_))
    ));
    assert!(matches!(
        dispatch(b"G02OHAP8aLvg@@b1tF600000;00", 0),
        Ok(AisMessage::GroupAssignmentCommand(_))
    ));
    assert!(matches!(
        dispatch(b"H6:lEgQL4r1<QDr0P4pN3KSKP00", 0),
        Ok(AisMessage::StaticDataReport(_))
    ));
    assert!(matches!(
        dispatch(b"KC5E2b@U19PFdLbMuc5=ROv62<7m", 0),
        Ok(AisMessage::LongRangeAisBroadcastMessage(_))
    ));
}

#[test]
fn dispatch_reports_unimplemented_types() {
    // Armored 'F' carries the 6-bit value 22; 'I' carries 25, 'J' 26.
    assert_eq!(
        dispatch(b"F0000000", 0),
        Err(Error::UnimplementedType { value: 22 })
    );
    assert_eq!(
        dispatch(b"I0000000", 0),
        Err(Error::UnimplementedType { value: 25 })
    );
    assert_eq!(
        dispatch(b"J0000000", 0),
        Err(Error::UnimplementedType { value: 26 })
    );
}

#[test]
fn dispatch_reports_short_streams() {
    // A type 1 report cut off after its prelude.
    assert_eq!(
        dispatch(b"13u?etPv", 0),
        Err(Error::UnexpectedEnd)
    );
}

#[test]
fn scenario_type1_position_report() {
    let line = b"!AIVDM,1,1,,B,15NG6V0P01G?cFhE`R2IU?wn28R>,0*05";
    let mut parser = AisParser::new();
    let (tag_block, fragments) = parser.parse(line, true).unwrap();
    assert_eq!(tag_block, None);
    let sentence = match fragments {
        AisFragments::Complete(sentence) => sentence,
        other => panic!("expected a complete sentence, got {:?}", other),
    };
    let report = match sentence.message {
        Some(AisMessage::PositionReport(report)) => report,
        other => panic!("expected a position report, got {:?}", other),
    };
    assert_eq!(report.message_type, 1);
    assert_eq!(report.mmsi, 367380120);
    assert_eq!(
        report.navigation_status,
        Some(ais::messages::position_report::NavigationStatus::UnderWayUsingEngine)
    );
    assert_eq!(report.speed_over_ground, Some(1));
    f32_equal_naive(report.longitude.unwrap() as f32 / 600_000.0, -122.404335);
    f32_equal_naive(report.latitude.unwrap() as f32 / 600_000.0, 37.806946);
    assert_eq!(report.course_over_ground, Some(2452));
    assert_eq!(report.timestamp, 59);
    assert!(report.raim);
}

#[test]
fn scenario_type21_aid_to_navigation() {
    let line = b"!AIVDM,1,1,,B,E>kb9O9aS@7PUh10dh19@;0Tah2cWrfP:l?M`00003vP100,0*01";
    let mut parser = AisParser::new();
    let (_, fragments) = parser.parse(line, true).unwrap();
    let sentence = match fragments {
        AisFragments::Complete(sentence) => sentence,
        other => panic!("expected a complete sentence, got {:?}", other),
    };
    assert_eq!(sentence.num_fragments, 1);
    assert_eq!(sentence.channel, Some('B'));
    match sentence.message {
        Some(AisMessage::AidToNavigationReport(report)) => {
            assert_eq!(report.mmsi, 993692028);
            assert_eq!(report.name, "SF OAK BAY BR VAIS E");
        }
        other => panic!("expected an aid-to-navigation report, got {:?}", other),
    }
}

#[test]
fn scenario_type5_across_two_fragments() {
    let line1 =
        b"!AIVDM,2,1,1,B,53`soB8000010KSOW<0P4eDp4l6000000000000U0p<24t@P05H3S833CDP00000,0*78";
    let line2 = b"!AIVDM,2,2,1,B,0000000,2*26";
    let mut parser = AisParser::new();
    let (_, first) = parser.parse(line1, true).unwrap();
    assert!(matches!(first, AisFragments::Incomplete(_)));
    let (_, second) = parser.parse(line2, true).unwrap();
    let sentence = match second {
        AisFragments::Complete(sentence) => sentence,
        other => panic!("expected a complete sentence, got {:?}", other),
    };
    match sentence.message {
        Some(AisMessage::StaticAndVoyageRelatedData(report)) => {
            assert_eq!(report.mmsi, 244250440);
            assert_eq!(report.callsign, "PF8793");
            assert_eq!(report.destination, "NL LMMR");
            assert_eq!(
                report.ship_type,
                Some(ais::messages::types::ShipType::PleasureCraft)
            );
            assert_eq!(report.draught, 21);
        }
        other => panic!("expected static and voyage data, got {:?}", other),
    }
}
