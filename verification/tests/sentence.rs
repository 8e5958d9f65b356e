//! Tests of the sentence layer: framing, checksums, tag blocks and
//! fragment reassembly.
use ais::errors::Error;
use ais::messages::AisMessage;
use ais::sentence::{
    parse_ais_sentence, parse_nmea_sentence, AisFragments, AisParser, AisReportType, AisSentence,
    TalkerId,
};

const GOOD_CHECKSUM: &[u8] = b"!AIVDM,1,1,,A,E>kb9I99S@0`8@:9ah;0TahI7@@;V4=v:nv;h00003vP100,0*7A";
const BAD_CHECKSUM: &[u8] = b"!AIVDM,1,1,,A,E>kb9I99S@0`8@:9ah;0TahI7@@;V4=v:nv;h00003vP100,0*8D";
const BAD_STRUCTURE: &[u8] = b"!AIVDM,1,1,,A,E>kb9I99S@0`8@:9ah;0,TahI7@@;V4=v:nv;h00003vP100,0*8D";
const FRAGMENT_1: &[u8] =
    b"!AIVDM,2,1,1,B,53`soB8000010KSOW<0P4eDp4l6000000000000U0p<24t@P05H3S833CDP00000,0*78";
const FRAGMENT_2: &[u8] = b"!AIVDM,2,2,1,B,0000000,2*26";
const NO_CHANNEL: &[u8] = b"!AIVDM,1,1,,,34RvgN500005tLTMfjiTs3u`0>`<,0*7A";
const AIS_START_IDX: usize = 14;
const AIS_END_IDX: usize = 61;
const WITH_TAG_BLOCK: &[u8] =
    b"\\s:2573345,c:1696241893*00\\!AIVDM,1,1,,A,E>kb9I99S@0`8@:9ah;0TahI7@@;V4=v:nv;h00003vP100,0*7A";
const WITH_BAD_TAG_BLOCK: &[u8] =
    b"s:2573345,c:1696241893*00\\!AIVDM,1,1,,A,E>kb9I99S@0`8@:9ah;0TahI7@@;V4=v:nv;h00003vP100,0*7A";

fn expected_sentence() -> AisSentence {
    AisSentence {
        talker_id: TalkerId::AI,
        report_type: AisReportType::VDM,
        num_fragments: 1,
        fragment_number: 1,
        message_id: None,
        channel: Some('A'),
        data: GOOD_CHECKSUM[AIS_START_IDX..AIS_END_IDX].to_vec(),
        fill_bit_count: 0,
        message_type: 17,
        message: None,
    }
}

#[test]
fn parse_valid_structure() {
    let result = parse_ais_sentence(&GOOD_CHECKSUM[1..63]).unwrap();
    assert_eq!(result, expected_sentence());
}

#[test]
fn parse_invalid_structure() {
    assert!(parse_ais_sentence(&BAD_STRUCTURE[1..64]).is_err());
}

#[test]
fn parse_valid_sentence() {
    let (sentence, checksum, _, _) = parse_nmea_sentence(GOOD_CHECKSUM).unwrap();
    assert_eq!(sentence, expected_sentence());
    assert_eq!(checksum, 122);
}

#[test]
fn parse_using_struct_valid() {
    let mut parser = AisParser::new();
    let (tag_block, result) = parser.parse(GOOD_CHECKSUM, false).unwrap();
    assert_eq!(tag_block, None);
    assert_eq!(result, AisFragments::Complete(expected_sentence()));
}

#[test]
fn parse_valid_checksum() {
    let mut parser = AisParser::new();
    let result = parser.parse(GOOD_CHECKSUM, false);
    assert!(result.is_ok());
}

#[test]
fn parse_invalid_checksum() {
    let mut parser = AisParser::new();
    let result = parser.parse(BAD_CHECKSUM, false);
    assert!(result.is_err());
}

#[test]
fn checksum_mismatch_reports_both_values() {
    let mut parser = AisParser::new();
    let result = parser.parse(BAD_CHECKSUM, true);
    assert_eq!(
        result,
        Err(Error::Checksum {
            expected: 0x8D,
            found: 0x7A
        })
    );
}

#[test]
fn parse_multiple_fragments() {
    let mut parser = AisParser::new();
    let (_, frag1) = parser.parse(FRAGMENT_1, false).unwrap();
    let (_, frag2) = parser.parse(FRAGMENT_2, false).unwrap();
    if let AisFragments::Complete(_) = frag1 {
        panic!("Expected frag1 to be incomplete, but it was {:?}", frag1);
    }
    if let AisFragments::Complete(complete) = frag2 {
        assert!(complete.num_fragments > 1);
    } else {
        panic!("Expected frag2 to be complete, but it was {:?}", frag2);
    }
}

#[test]
fn reassembled_payload_is_concatenation_of_fragments() {
    let mut parser = AisParser::new();
    let (_, frag1) = parser.parse(FRAGMENT_1, false).unwrap();
    let (_, frag2) = parser.parse(FRAGMENT_2, false).unwrap();
    let part1: &[u8] = &FRAGMENT_1[15..79];
    let part2: &[u8] = &FRAGMENT_2[15..22];
    match frag1 {
        AisFragments::Incomplete(_) => {}
        _ => panic!("Expected frag1 to be incomplete"),
    }
    match frag2 {
        AisFragments::Complete(sentence) => {
            let mut expected = part1.to_vec();
            expected.extend_from_slice(part2);
            assert_eq!(sentence.data, expected);
            assert_eq!(sentence.fill_bit_count, 2);
        }
        _ => panic!("Expected frag2 to be complete"),
    }
}

#[test]
fn out_of_order_fragment_is_rejected() {
    let mut parser = AisParser::new();
    // The second fragment arrives without the first having been seen.
    let result = parser.parse(FRAGMENT_2, false);
    assert_eq!(result, Err(Error::FragmentSequence));
}

#[test]
fn restart_during_assembly_is_rejected_and_state_kept() {
    let mut parser = AisParser::new();
    let (_, frag1) = parser.parse(FRAGMENT_1, false).unwrap();
    assert!(matches!(frag1, AisFragments::Incomplete(_)));
    // A new first fragment while the group is mid-assembly is a hard
    // error, and the accumulated state is left as-is ...
    let restart = parser.parse(FRAGMENT_1, false);
    assert_eq!(restart, Err(Error::FragmentSequence));
    // ... so the real continuation still completes the original group.
    let (_, frag2) = parser.parse(FRAGMENT_2, false).unwrap();
    match frag2 {
        AisFragments::Complete(sentence) => {
            let mut expected = FRAGMENT_1[15..79].to_vec();
            expected.extend_from_slice(&FRAGMENT_2[15..22]);
            assert_eq!(sentence.data, expected);
        }
        _ => panic!("Expected the continuation to complete the group"),
    }
}

#[test]
fn parser_is_idle_again_after_a_group_completes() {
    let mut parser = AisParser::new();
    let (_, first) = parser.parse(FRAGMENT_1, false).unwrap();
    assert!(matches!(first, AisFragments::Incomplete(_)));
    let (_, second) = parser.parse(FRAGMENT_2, false).unwrap();
    assert!(matches!(second, AisFragments::Complete(_)));
    // The drained parser accepts a fresh first fragment of the same group.
    let (_, again) = parser.parse(FRAGMENT_1, false).unwrap();
    assert!(matches!(again, AisFragments::Incomplete(_)));
    let (_, done) = parser.parse(FRAGMENT_2, false).unwrap();
    assert!(matches!(done, AisFragments::Complete(_)));
}

#[test]
fn test_talker_id_conversions() {
    assert_eq!(TalkerId::from(b"AI".as_ref()), TalkerId::AI);
    assert_eq!(TalkerId::from(b"AB".as_ref()), TalkerId::AB);
    assert_eq!(TalkerId::from(b"BS".as_ref()), TalkerId::BS);
}

#[test]
fn test_no_channel() {
    let (sentence, _, _, _) = parse_nmea_sentence(NO_CHANNEL).unwrap();
    assert_eq!(sentence.channel, None);
}

#[test]
fn parse_valid_sentence_with_tag_block() {
    let (sentence, checksum, _, _) = parse_nmea_sentence(WITH_TAG_BLOCK).unwrap();
    assert_eq!(sentence, expected_sentence());
    assert_eq!(checksum, 122);
}

#[test]
fn parse_sentence_with_invalid_tag_block() {
    assert!(parse_ais_sentence(&WITH_BAD_TAG_BLOCK[1..64]).is_err());
}

#[test]
fn parse_returns_tag_block_with_inner_message() {
    let line =
        b"\\s:2573598,c:1720090996*00\\!AIVDM,1,1,,B,15NG6V0P01G?cFhE`R2IU?wn28R>,0*05";
    let mut parser = AisParser::new();
    let (tag_block, fragments) = parser.parse(line, true).unwrap();
    let tag_block = tag_block.unwrap();
    assert_eq!(tag_block.source_station, Some("2573598".to_string()));
    assert_eq!(tag_block.receiver_timestamp, Some(1720090996));
    match fragments {
        AisFragments::Complete(sentence) => match sentence.message {
            Some(AisMessage::PositionReport(report)) => {
                assert_eq!(report.mmsi, 367380120);
            }
            other => panic!("expected a position report, got {:?}", other),
        },
        _ => panic!("expected a complete sentence"),
    }
}

#[test]
fn end_to_end() {
    const TEST_MESSAGES: [&[u8]; 8] = [
        b"!AIVDM,1,1,,B,E>kb9O9aS@7PUh10dh19@;0Tah2cWrfP:l?M`00003vP100,0*01",
        b"!AIVDM,1,1,,A,403OtVAv6s5l1o?I``E`4I?02<34,0*21",
        b"!AIVDM,1,1,,B,ENkb9U79PW@80Q67h10dh1T6@Hq;`0W8:peOH00003vP000,0*1C",
        b"!AIVDM,1,1,,A,ENkb9H2`:@17W4b0h@@@@@@@@@@;WSEi:lK9800003vP000,0*08",
        b"!AIVDM,1,1,,A,E>kb9I99S@0`8@:9ah;0TahI7@@;V4=v:nv;h00003vP100,0*7A",
        b"!AIVDM,1,1,,B,403OtVAv6s5lOo?I`pE`4KO02<34,0*3E",
        b"!AIVDM,2,1,1,B,53`soB8000010KSOW<0P4eDp4l6000000000000U0p<24t@P05H3S833CDP00000,0*78",
        b"!AIVDM,2,2,1,B,0000000,2*26",
    ];
    let mut parser = AisParser::new();
    for line in TEST_MESSAGES.iter() {
        parser.parse(line, true).unwrap();
    }
}
