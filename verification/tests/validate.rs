use unix_connector::client::{parse_socket_path, validate, UnixConnector, ValidationError};
use unix_connector::codec::encode;

#[test]
fn encoded_uri_round_trips_to_path() {
    let uri = format!("unix://{}", encode(b"/var/run/api.sock"));
    assert_eq!(parse_socket_path(&uri).unwrap(), "/var/run/api.sock");
}

#[test]
fn valid_uri_yields_decoded_path() {
    // host is the hex encoding of "/tmp/app.sock"
    let uri = "unix://2f746d702f6170702e736f636b";
    assert_eq!(validate(uri), Ok("2f746d702f6170702e736f636b"));
    assert_eq!(parse_socket_path(uri).unwrap(), "/tmp/app.sock");
}

#[test]
fn wrong_scheme_is_rejected() {
    let uri = "http://2f746d702f6170702e736f636b";
    assert_eq!(validate(uri), Err(ValidationError::WrongScheme));
    assert_eq!(parse_socket_path(uri), Err(ValidationError::WrongScheme));
}

#[test]
fn scheme_is_checked_before_host() {
    // wrong scheme and no host: the scheme failure wins
    assert_eq!(validate("http://"), Err(ValidationError::WrongScheme));
    assert_eq!(parse_socket_path("http://"), Err(ValidationError::WrongScheme));
}

#[test]
fn empty_host_is_missing() {
    assert_eq!(validate("unix://"), Err(ValidationError::MissingHost));
    assert_eq!(parse_socket_path("unix://"), Err(ValidationError::MissingHost));
}

#[test]
fn absent_authority_is_missing_host() {
    assert_eq!(validate("unix:"), Err(ValidationError::MissingHost));
    assert_eq!(validate("unix:/tmp/app.sock"), Err(ValidationError::MissingHost));
}

#[test]
fn host_outside_alphabet_is_bad_encoding() {
    assert_eq!(validate("unix://not-hex!!"), Ok("not-hex!!"));
    assert_eq!(
        parse_socket_path("unix://not-hex!!"),
        Err(ValidationError::BadPathEncoding)
    );
}

#[test]
fn odd_digit_count_is_bad_encoding() {
    assert_eq!(
        parse_socket_path("unix://2f7"),
        Err(ValidationError::BadPathEncoding)
    );
}

#[test]
fn host_ends_at_first_delimiter() {
    assert_eq!(validate("unix://2f746d70/rest?q=1#frag"), Ok("2f746d70"));
    assert_eq!(parse_socket_path("unix://2f746d70/rest").unwrap(), "/tmp");
}

#[test]
fn bytes_that_are_not_text_are_substituted() {
    // 0xff never occurs in well-formed text, 0x2f is '/'
    assert_eq!(parse_socket_path("unix://ff2f").unwrap(), "\u{FFFD}/");
}

#[test]
fn rejection_messages() {
    assert_eq!(
        ValidationError::WrongScheme.message(),
        "invalid URL, scheme must be unix"
    );
    assert_eq!(
        ValidationError::MissingHost.message(),
        "invalid URL, host must be present"
    );
    assert_eq!(
        ValidationError::BadPathEncoding.message(),
        "invalid URL, host must be a hex-encoded path"
    );
}

#[test]
fn connector_is_always_ready() {
    let c = UnixConnector;
    assert_eq!(c.ready(), Ok(()));
    // stateless: a copy answers the same
    let d = c;
    assert_eq!(d.ready(), Ok(()));
}
