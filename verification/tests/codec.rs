use unix_connector::codec::{decode, encode, DecodeError};

#[test]
fn round_trip_empty() {
    let p: &[u8] = &[];
    assert_eq!(decode(&encode(p)).unwrap(), Vec::<u8>::new());
}

#[test]
fn round_trip_null_and_binary() {
    let p: &[u8] = &[0x00, 0xff, 0x2f, 0x80, 0x01];
    assert_eq!(decode(&encode(p)).unwrap(), p.to_vec());
}

#[test]
fn round_trip_plain_path() {
    let p: &[u8] = b"/var/run/docker.sock";
    assert_eq!(decode(&encode(p)).unwrap(), p.to_vec());
}

#[test]
fn encode_exact() {
    assert_eq!(encode(b"/tmp/app.sock"), "2f746d702f6170702e736f636b");
}

#[test]
fn encode_empty_is_empty() {
    assert_eq!(encode(&[]), "");
}

#[test]
fn decode_accepts_either_case() {
    assert_eq!(decode("2F746D70").unwrap(), b"/tmp".to_vec());
    assert_eq!(decode("2f746d70").unwrap(), b"/tmp".to_vec());
}

#[test]
fn decode_rejects_odd_length() {
    assert_eq!(decode("abc"), Err(DecodeError::InvalidEncoding));
}

#[test]
fn decode_rejects_characters_outside_alphabet() {
    assert_eq!(decode("zz"), Err(DecodeError::InvalidEncoding));
    assert_eq!(decode("not-hex!!"), Err(DecodeError::InvalidEncoding));
}

#[test]
fn decode_empty_is_empty() {
    assert_eq!(decode("").unwrap(), Vec::<u8>::new());
}
