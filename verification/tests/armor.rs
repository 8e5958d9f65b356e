//! Tests of the armor codec: 6-bit ASCII to packed bitstream.
use ais::errors::Error;
use ais::messages::unarmor;

#[test]
fn unarmor_single_byte() {
    let input = b"9";
    let result = unarmor(input, 0).unwrap();
    assert_eq!([0b0010_0100,], &result[..]);
}

#[test]
fn unarmor_single_byte_fill() {
    let input = b"9";
    let result = unarmor(input, 4).unwrap();
    assert_eq!([0b0000_0000,], &result[..]);
}

#[test]
fn unarmor_multi_bytes_unaligned() {
    let input = b"9q";
    let result = unarmor(input, 0).unwrap();
    assert_eq!([0b0010_0111, 0b1001_0000,], &result[..]);
}

#[test]
fn unarmor_multi_bytes_aligned() {
    let input = b"9qKr";
    let result = unarmor(input, 0).unwrap();
    assert_eq!([0b0010_0111, 0b1001_0110, 0b0_1111_1010], &result[..]);
}

#[test]
fn unarmor_multi_bytes_long() {
    let input = b"E>kb9O9aS@7PUh";
    let result = unarmor(input, 4).unwrap();
    assert_eq!(
        [
            0b0101_0100,
            0b1110_1100,
            0b1110_1010,
            0b0010_0101,
            0b1111_0010,
            0b0110_1001,
            0b1000_1101,
            0b0000_0001,
            0b1110_0000,
            0b1001_0111,
            0b0000_0000,
        ],
        &result[..]
    );
}

#[test]
fn unarmor_multi_bytes_aligned_fill() {
    let input = b"9qWr";
    let result = unarmor(input, 4).unwrap();
    assert_eq!([0b0010_0111, 0b1001_1001, 0b1111_0000], &result[..]);
}

#[test]
fn unarmor_multi_bytes_unaligned_fill() {
    let input = b"9qW";
    let result = unarmor(input, 3).unwrap();
    assert_eq!([0b0010_0111, 0b1001_1000, 0b0000_0000], &result[..]);
}

#[test]
fn unarmor_output_length_is_ceiling_of_six_n_over_eight() {
    for n in 1usize..=24 {
        let input = vec![b'0'; n];
        let result = unarmor(&input, 0).unwrap();
        assert_eq!(result.len(), (6 * n + 7) / 8);
    }
}

#[test]
fn unarmor_rejects_byte_outside_alphabet() {
    let input = b"9(";
    let result = unarmor(input, 0);
    assert_eq!(result, Err(Error::ArmorOutOfRange { value: b'(' }));
}

#[test]
fn unarmor_clears_fill_bits_to_zero() {
    // Five fill bits over "ww" (all ones): the last five significant bits
    // of the 12-bit chunk stream must come back zero.
    let all_ones = unarmor(b"ww", 0).unwrap();
    assert_eq!(&all_ones[..], [0b1111_1111, 0b1111_0000]);
    let filled = unarmor(b"ww", 5).unwrap();
    assert_eq!(&filled[..], [0b1111_1110, 0b0000_0000]);
}
