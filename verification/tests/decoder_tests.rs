use heart_rate_client::decoder::DecodeError;
use heart_rate_client::decoder::HeartRateReading;
use heart_rate_client::decoder::decode;
use heart_rate_client::decoder::parse_heart_rate_data;

#[test]
fn empty_payload_is_empty_error() {
    assert_eq!(decode(&[]), Err(DecodeError::Empty));
    assert_eq!(parse_heart_rate_data(&[]), None);
}

#[test]
fn sixteen_bit_flag_without_value_is_truncated() {
    assert_eq!(decode(&[0x01]), Err(DecodeError::Truncated));
    assert_eq!(parse_heart_rate_data(&[0x01]), None);
}

#[test]
fn eight_bit_flag_without_value_is_truncated() {
    assert_eq!(decode(&[0x00]), Err(DecodeError::Truncated));
    assert_eq!(parse_heart_rate_data(&[0x00]), None);
}

#[test]
fn sixteen_bit_flag_with_one_value_byte_is_truncated() {
    assert_eq!(decode(&[0x01, 72]), Err(DecodeError::Truncated));
    assert_eq!(parse_heart_rate_data(&[0x01, 72]), None);
}

#[test]
fn eight_bit_value_is_read_from_byte_one() {
    assert_eq!(decode(&[0x00, 72]), Ok(HeartRateReading { bpm: 72 }));
    assert_eq!(parse_heart_rate_data(&[0x00, 72]), Some(72));
}

#[test]
fn sixteen_bit_value_is_little_endian() {
    assert_eq!(decode(&[0x01, 72, 0]), Ok(HeartRateReading { bpm: 72 }));
    assert_eq!(decode(&[0x01, 0x34, 0x12]), Ok(HeartRateReading { bpm: 0x1234 }));
    assert_eq!(parse_heart_rate_data(&[0x01, 0x34, 0x12]), Some(0x1234));
}

#[test]
fn trailing_bytes_are_ignored() {
    assert_eq!(decode(&[0x00, 255, 99]), Ok(HeartRateReading { bpm: 255 }));
    assert_eq!(decode(&[0x01, 1, 1, 9, 9, 9]), Ok(HeartRateReading { bpm: 257 }));
}

#[test]
fn reserved_flag_bits_do_not_affect_width() {
    // Bit 0 clear: 8-bit value, whatever the other flag bits say.
    assert_eq!(decode(&[0x16, 80, 40, 0]), Ok(HeartRateReading { bpm: 80 }));
    // Bit 0 set: 16-bit value.
    assert_eq!(decode(&[0x17, 80, 0, 40, 0]), Ok(HeartRateReading { bpm: 80 }));
}

#[test]
fn largest_values_decode_exactly() {
    assert_eq!(decode(&[0x00, 0xFF]), Ok(HeartRateReading { bpm: 255 }));
    assert_eq!(decode(&[0x01, 0xFF, 0xFF]), Ok(HeartRateReading { bpm: 65535 }));
    assert_eq!(decode(&[0x00, 0]), Ok(HeartRateReading { bpm: 0 }));
}
