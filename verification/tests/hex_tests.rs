use controller_core::hex::{hex_decode, hex_encode, HexDecodeError};

#[test]
fn encoding_gives_two_lowercase_digits_per_byte() {
    assert_eq!(hex_encode(&[]), "");
    assert_eq!(hex_encode(&[0x00]), "00");
    assert_eq!(hex_encode(&[0x00, 0xff]), "00ff");
    assert_eq!(hex_encode(&[0xde, 0xad, 0xbe, 0xef]), "deadbeef");
    assert_eq!(hex_encode(&[0x0a, 0xb0]), "0ab0");
}

#[test]
fn decoding_inverts_encoding() {
    let bytes: Vec<u8> = (0..=255).collect();
    let encoded = hex_encode(&bytes);
    assert_eq!(hex_decode(&encoded).unwrap(), bytes);
}

#[test]
fn decoding_accepts_upper_case() {
    assert_eq!(hex_decode("DEADbeef").unwrap(), vec![0xde, 0xad, 0xbe, 0xef]);
    assert_eq!(hex_decode("FF").unwrap(), vec![0xff]);
}

#[test]
fn decoding_rejects_odd_lengths() {
    assert_eq!(hex_decode("abc").unwrap_err(), HexDecodeError::OddLength);
    assert_eq!(hex_decode("f").unwrap_err(), HexDecodeError::OddLength);
}

#[test]
fn decoding_rejects_non_hex_digits() {
    assert_eq!(hex_decode("zz").unwrap_err(), HexDecodeError::InvalidDigit);
    assert_eq!(hex_decode("0g").unwrap_err(), HexDecodeError::InvalidDigit);
    assert_eq!(hex_decode("  ").unwrap_err(), HexDecodeError::InvalidDigit);
}

#[test]
fn decoding_empty_gives_no_bytes() {
    assert_eq!(hex_decode("").unwrap(), Vec::<u8>::new());
}
