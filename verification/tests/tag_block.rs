//! Tests of the tag-block parser.
use ais::messages::tag_block::TagBlock;

fn assert_tag_block(
    input: &str,
    expected_receiver_timestamp: Option<u64>,
    expected_source_station: Option<String>,
    expected_destination_station: Option<String>,
    expected_line_count: Option<u32>,
    expected_relative_time: Option<u32>,
    expected_text: Option<String>,
    expected_checksum: u8,
) {
    let tag_block = TagBlock::parse(input).unwrap().unwrap();

    assert_eq!(tag_block.receiver_timestamp, expected_receiver_timestamp);
    assert_eq!(tag_block.source_station, expected_source_station);
    assert_eq!(tag_block.destination_station, expected_destination_station);
    assert_eq!(tag_block.line_count, expected_line_count);
    assert_eq!(tag_block.relative_time, expected_relative_time);
    assert_eq!(tag_block.text, expected_text);
    assert_eq!(tag_block.checksum, expected_checksum);
}

#[test]
fn parse_tag_block_with_valid_data() {
    let input = r"\s:2573598,c:1720090996*00\";
    assert_tag_block(
        input,
        Some(1720090996),
        Some("2573598".to_string()),
        None,
        None,
        None,
        None,
        0x00,
    );
}

#[test]
fn parse_tag_block_with_all_fields() {
    let input = r"\s:2573135,c:1671620143,d:FooBar,n:123,r:456,t:HelloWorld!*36\";
    assert_tag_block(
        input,
        Some(1671620143),
        Some("2573135".to_string()),
        Some("FooBar".to_string()),
        Some(123),
        Some(456),
        Some("HelloWorld!".to_string()),
        0x36,
    );
}

#[test]
fn parse_tag_block_with_invalid_format() {
    let input = r"invalid_tag_block_format";
    let result = TagBlock::parse(input);

    assert!(result.is_err());
    assert_eq!(
        result.err().unwrap(),
        "Invalid tag block format: missing checksum"
    );
}

#[test]
fn parse_tag_block_with_invalid_checksum_format() {
    let input = r"\s:2573135,c:1671620143*GG\";
    let result = TagBlock::parse(input);

    assert!(result.is_err());
    assert_eq!(
        result.err().unwrap(),
        "Invalid checksum format: checksum is not a valid hexadecimal number"
    );
}

#[test]
fn parse_tag_block_with_checksum_mismatch() {
    let input = r"\s:2573135,c:1671620143*FF\";
    let result = TagBlock::parse(input);

    assert!(result.is_err());
    assert!(result.unwrap_err().contains("Checksum mismatch"));
}

#[test]
fn parse_tag_block_with_unknown_keys() {
    let input = r"\x:unknown_key,s:2573135,c:1671620143*25\";
    assert_tag_block(
        input,
        Some(1671620143),
        Some("2573135".to_string()),
        None,
        None,
        None,
        None,
        0x25,
    );
}

#[test]
fn parse_tag_block_splits_at_last_star() {
    // The key-value region may itself contain a `*`; the checksum is the
    // two digits after the last one.
    let input = r"\s:A*B*60\";
    assert_tag_block(
        input,
        None,
        Some("A*B".to_string()),
        None,
        None,
        None,
        None,
        0x60,
    );
}
