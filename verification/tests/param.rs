use scry_protocol::param::{decode_base64, encode_base64, uuid_from_hex, uuid_to_hex, ParamDecodeError};

const UUID: [u8; 16] = [
    0x55, 0x06, 0x7d, 0xc5, 0xb9, 0x1c, 0x40, 0x78, 0x90, 0x5b, 0x8a, 0x7f, 0xdd, 0x00, 0x83, 0x0c,
];

#[test]
fn uuid_hex_form() {
    assert_eq!(uuid_to_hex(&UUID), "55067dc5-b91c-4078-905b-8a7fdd00830c");
    assert_eq!(uuid_to_hex(&[0u8; 16]), "00000000-0000-0000-0000-000000000000");
    assert_eq!(uuid_to_hex(&[0xffu8; 16]), "ffffffff-ffff-ffff-ffff-ffffffffffff");
}

#[test]
fn uuid_roundtrip() {
    let text = uuid_to_hex(&UUID);
    assert_eq!(uuid_from_hex(&text).unwrap(), UUID);
    for b in 0..=255u8 {
        let bytes = [b; 16];
        assert_eq!(uuid_from_hex(&uuid_to_hex(&bytes)).unwrap(), bytes);
    }
}

#[test]
fn uuid_reading_skips_non_hex_characters() {
    assert_eq!(uuid_from_hex("55067DC5B91C4078905B8A7FDD00830C").unwrap(), UUID);
    assert_eq!(uuid_from_hex("{55067dc5 b91c 4078 905b 8a7fdd00830c}").unwrap(), UUID);
    assert_eq!(uuid_from_hex("55067dcé5-b91c-4078-905b-8a7fdd00830c").unwrap(), UUID);
}

#[test]
fn uuid_reading_rejects_wrong_digit_counts() {
    assert!(matches!(uuid_from_hex(""), Err(ParamDecodeError::UuidLength)));
    assert!(matches!(uuid_from_hex("55067dc5-b91c-4078-905b-8a7fdd00830"), Err(ParamDecodeError::UuidLength)));
    assert!(matches!(uuid_from_hex("55067dc5-b91c-4078-905b-8a7fdd00830c0"), Err(ParamDecodeError::UuidLength)));
    assert!(matches!(uuid_from_hex("not a uuid at all"), Err(ParamDecodeError::UuidLength)));
}

#[test]
fn base64_form_and_roundtrip() {
    assert_eq!(encode_base64(&[1, 2, 3]), "AQID");
    assert_eq!(encode_base64(&[0xDE, 0xAD, 0xBE, 0xEF]), "3q2+7w==");
    assert_eq!(encode_base64(&[]), "");
    assert_eq!(decode_base64("AQID").unwrap(), vec![1, 2, 3]);
    for n in 0..40usize {
        let bytes: Vec<u8> = (0..n).map(|i| (i * 37 % 256) as u8).collect();
        assert_eq!(decode_base64(&encode_base64(&bytes)).unwrap(), bytes);
    }
}

#[test]
fn base64_rejects_invalid_text() {
    assert!(matches!(decode_base64("AQI*"), Err(ParamDecodeError::Base64(_))));
    assert!(matches!(decode_base64("AQI"), Err(ParamDecodeError::Base64(_))));
}
