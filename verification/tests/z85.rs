use arzmq::security::curve::{decode, encode, DecodeError, EncodeError};

#[test]
fn z85_encode_for_empty_input() -> Result<(), EncodeError> {
    let encoded_string = encode(&[])?;
    assert_eq!(encoded_string, "");
    Ok(())
}

#[test]
fn z85_encode_for_invalid_input_length() {
    let result = encode(b"a");
    assert!(result.is_err_and(|err| err == EncodeError::BadLength));
}

#[test]
fn z85_encode_for_valid_input() -> Result<(), EncodeError> {
    let encoded_string = encode(b"Hello World!")?;
    assert_eq!(encoded_string, "nm=QNzY&b1A+]nf");
    Ok(())
}

#[test]
fn z85_decode_z85_encoded_string() -> Result<(), DecodeError> {
    let encoded_string = "nm=QNzY&b1A+]nf";
    let decoded_string = decode(encoded_string)?;
    assert_eq!(decoded_string, b"Hello World!");
    Ok(())
}

#[test]
fn z85_decode_for_empty_input() -> Result<(), DecodeError> {
    let decoded_string = decode("")?;
    assert_eq!(decoded_string, Vec::<u8>::new());
    Ok(())
}

#[test]
fn z85_decode_for_invalid_input_length() {
    let result = decode("a");
    assert!(result.is_err_and(|err| err == DecodeError::InvalidLength));
}

#[test]
fn z85_rfc_test_vector() {
    let data = [0x86u8, 0x4F, 0xD2, 0x6F, 0xB5, 0x59, 0xF7, 0x5B];
    assert_eq!(encode(&data), Ok("HelloWorld".to_string()));
    assert_eq!(decode("HelloWorld"), Ok(data.to_vec()));
}

#[test]
fn z85_extreme_words() {
    assert_eq!(encode(&[0, 0, 0, 0]), Ok("00000".to_string()));
    assert_eq!(encode(&[0xff, 0xff, 0xff, 0xff]), Ok("%nSc0".to_string()));
    assert_eq!(decode("%nSc0"), Ok(vec![0xff, 0xff, 0xff, 0xff]));
}

#[test]
fn z85_decode_refuses_a_group_above_32_bits() {
    assert_eq!(decode("%nSc1"), Err(DecodeError::DecodingFailed));
    assert_eq!(decode("#####"), Err(DecodeError::DecodingFailed));
}

#[test]
fn z85_decode_refuses_characters_outside_the_alphabet() {
    assert_eq!(decode("abc d"), Err(DecodeError::DecodingFailed));
    assert_eq!(decode("abc\"d"), Err(DecodeError::DecodingFailed));
    assert_eq!(decode("abc~d"), Err(DecodeError::DecodingFailed));
}

#[test]
fn z85_decode_counts_bytes_not_characters() {
    // four characters, five bytes: the length is right, the text is not Z85
    assert_eq!(decode("éabc"), Err(DecodeError::DecodingFailed));
    // five characters, six bytes
    assert_eq!(decode("éabcd"), Err(DecodeError::InvalidLength));
}

#[test]
fn z85_round_trip_of_a_curve_key_sized_input() {
    let data: Vec<u8> = (0u8..32).map(|i| i.wrapping_mul(37).wrapping_add(11)).collect();
    let text = encode(&data).unwrap();
    assert_eq!(text.len(), 40);
    assert_eq!(decode(&text), Ok(data));
}

#[test]
fn z85_text_round_trip() {
    let text = "0123456789abcdefghijklmnopqrstuvwxyzABCDEFGHIJKLMNOPQRSTUVWXYZ.-:+=^!/*?&<>()[]{}@%$";
    let prefix = &text[..80];
    let bytes = decode(prefix).unwrap();
    assert_eq!(encode(&bytes), Ok(prefix.to_string()));
}
