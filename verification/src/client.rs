//! Async addressing: validation of a `unix` URI and decoding of its
//! hex host into the target socket path.
//!
//! A URI addresses a socket as `unix://<hex of the path's bytes>`.
//! [`validate`] checks the scheme first and the host second, in that
//! order; only then is the host handed to the path codec.  The
//! surrounding connection machinery (opening the socket, adapting the
//! stream) performs no further inspection of the URI.

use crate::codec;
use vstd::prelude::*;

verus! {

/// Why a URI was rejected, before any connection was attempted.
#[derive(Clone, Copy, Debug, PartialEq, Eq, Structural)]
pub enum ValidationError {
    /// The scheme is not the fixed token `unix`.
    WrongScheme,
    /// The host component is absent or empty.
    MissingHost,
    /// The host is present but not a well-formed hex encoding.
    BadPathEncoding,
}

/// The diagnostic text carried by each rejection.
pub open spec fn message_of(e: ValidationError) -> Seq<char> {
    match e {
        ValidationError::WrongScheme => "invalid URL, scheme must be unix"@,
        ValidationError::MissingHost => "invalid URL, host must be present"@,
        ValidationError::BadPathEncoding => "invalid URL, host must be a hex-encoded path"@,
    }
}

impl ValidationError {
    /// The diagnostic text of this rejection, for callers that surface
    /// it as an I/O error.
    pub fn message(&self) -> (r: &'static str)
        ensures
            r@ == message_of(*self),
    {
        match self {
            ValidationError::WrongScheme => "invalid URL, scheme must be unix",
            ValidationError::MissingHost => "invalid URL, host must be present",
            ValidationError::BadPathEncoding => "invalid URL, host must be a hex-encoded path",
        }
    }
}

/// Does the URI text begin with the scheme `unix` followed by `:`?
pub open spec fn has_unix_scheme(s: Seq<char>) -> bool {
    s.len() >= 5 && s[0] == 'u' && s[1] == 'n' && s[2] == 'i' && s[3] == 'x' && s[4] == ':'
}

/// Does `c` end the host component of a URI?
pub open spec fn is_host_delim(c: char) -> bool {
    c == '/' || c == '?' || c == '#'
}

/// The index of the first host delimiter at or after `i`, or the end of
/// the text.
pub open spec fn host_end_from(s: Seq<char>, i: int) -> int
    decreases s.len() - i
        when 0 <= i <= s.len()
{
    if i >= s.len() {
        i
    } else if is_host_delim(s[i]) {
        i
    } else {
        host_end_from(s, i + 1)
    }
}

/// The host component of a URI of the form `unix://<host>...`:
/// the characters between the authority marker `//` and the first
/// delimiter.  `None` when the marker or the host itself is absent.
pub open spec fn host_of(s: Seq<char>) -> Option<Seq<char>> {
    if s.len() >= 7 && s[5] == '/' && s[6] == '/' {
        if host_end_from(s, 7) > 7 {
            Some(s.subrange(7, host_end_from(s, 7)))
        } else {
            None
        }
    } else {
        None
    }
}

/// What validation returns for a URI text: the host, or the first rule
/// it breaks — the scheme is checked before the host.
pub open spec fn validate_spec(s: Seq<char>) -> Result<Seq<char>, ValidationError> {
    if !has_unix_scheme(s) {
        Err(ValidationError::WrongScheme)
    } else {
        match host_of(s) {
            Some(h) => Ok(h),
            None => Err(ValidationError::MissingHost),
        }
    }
}

/// What the full address parse returns for a URI text: the decoded
/// path as (lossy) text, or the first rule the URI breaks.
pub open spec fn parse_socket_path_spec(s: Seq<char>) -> Result<Seq<char>, ValidationError> {
    match validate_spec(s) {
        Err(e) => Err(e),
        Ok(h) => if codec::valid_hex(h) {
            Ok(lossy_text_of(codec::decoded(h)))
        } else {
            Err(ValidationError::BadPathEncoding)
        },
    }
}

/// Validation order: the scheme is checked before the host, so a URI
/// whose scheme is wrong is rejected as `WrongScheme` even when its
/// host is also absent or malformed.
pub proof fn lemma_scheme_checked_first(s: Seq<char>)
    requires
        !has_unix_scheme(s),
    ensures
        validate_spec(s) == Err::<Seq<char>, ValidationError>(ValidationError::WrongScheme),
{
}

/// Does `c` end a host component?
fn is_delim(c: char) -> (b: bool)
    ensures
        b == is_host_delim(c),
{
    c == '/' || c == '?' || c == '#'
}

/// Scanning from a delimiter-free prefix up to a delimiter (or the end
/// of the text) lands exactly on `host_end_from`.
proof fn lemma_host_end_from(s: Seq<char>, i: int, e: int)
    requires
        0 <= i <= e <= s.len(),
        forall|j: int| i <= j < e ==> !is_host_delim(#[trigger] s[j]),
        e == s.len() || is_host_delim(s[e]),
    ensures
        host_end_from(s, i) == e,
    decreases e - i,
{
    if i < e {
        lemma_host_end_from(s, i + 1, e);
    }
}

/// Check a URI's addressing: the scheme must be the fixed token `unix`
/// and a host must be present, in that order.  Returns the host text,
/// still encoded; no other URI component is inspected.
pub fn validate<'a>(uri: &'a str) -> (r: Result<&'a str, ValidationError>)
    ensures
        match r {
            Ok(h) => validate_spec(uri@) == Ok::<Seq<char>, ValidationError>(h@),
            Err(e) => validate_spec(uri@) == Err::<Seq<char>, ValidationError>(e),
        },
{
    let n = uri.unicode_len();
    if n < 5 || uri.get_char(0) != 'u' || uri.get_char(1) != 'n' || uri.get_char(2) != 'i'
        || uri.get_char(3) != 'x' || uri.get_char(4) != ':' {
        return Err(ValidationError::WrongScheme);
    }
    if n < 7 || uri.get_char(5) != '/' || uri.get_char(6) != '/' {
        return Err(ValidationError::MissingHost);
    }
    let mut e: usize = 7;
    while e < n && !is_delim(uri.get_char(e))
        invariant
            7 <= e <= n,
            n == uri@.len(),
            forall|j: int| 7 <= j < e ==> !is_host_delim(#[trigger] uri@[j]),
        decreases n - e,
    {
        e = e + 1;
    }
    proof {
        lemma_host_end_from(uri@, 7, e as int);
    }
    if e == 7 {
        return Err(ValidationError::MissingHost);
    }
    Ok(uri.substring_char(7, e))
}

/// What `String::from_utf8_lossy` returns for a byte sequence: a
/// function of the bytes alone.
pub uninterp spec fn lossy_text_of(bytes: Seq<u8>) -> Seq<char>;

/// Relies on std's `String::from_utf8_lossy`: the result depends on the
/// bytes alone; bytes that are valid text pass through unchanged (so a
/// pure-ASCII sequence comes back as exactly its own characters), and
/// invalid sequences are substituted with a placeholder.
#[verifier::external_body]
fn lossy_string(bytes: &Vec<u8>) -> (r: String)
    ensures
        r@ == lossy_text_of(bytes@),
        (forall|i: int| 0 <= i < bytes@.len() ==> bytes@[i] < 128) ==> (r@.len() == bytes@.len()
            && forall|i: int| 0 <= i < bytes@.len() ==> r@[i] == bytes@[i] as char),
{
    String::from_utf8_lossy(bytes.as_slice()).into_owned()
}

/// Resolve a URI into the filesystem path of the socket it addresses:
/// validate the scheme and host, decode the hex host, and read the
/// decoded bytes as (lossy) path text.  Rejected URIs never reach any
/// I/O.
pub fn parse_socket_path(uri: &str) -> (r: Result<String, ValidationError>)
    ensures
        match r {
            Ok(p) => parse_socket_path_spec(uri@) == Ok::<Seq<char>, ValidationError>(p@),
            Err(e) => parse_socket_path_spec(uri@) == Err::<Seq<char>, ValidationError>(e),
        },
{
    let host = match validate(uri) {
        Ok(h) => h,
        Err(e) => {
            return Err(e);
        },
    };
    let bytes = match codec::decode(host) {
        Ok(b) => b,
        Err(_) => {
            return Err(ValidationError::BadPathEncoding);
        },
    };
    Ok(lossy_string(&bytes))
}

/// Asynchronous connector value handed to the HTTP client.  It is
/// stateless — it owns no connections, no queue and no concurrency
/// limit — so one value can be copied freely and invoked concurrently.
#[derive(Clone, Copy, Debug)]
pub struct UnixConnector;

impl UnixConnector {
    /// The connector accepts a new connection request at every poll:
    /// readiness is unconditional, since backpressure and reuse belong
    /// to the HTTP client, not to this value.
    pub fn ready(&self) -> (r: Result<(), ValidationError>)
        ensures
            r is Ok,
    {
        Ok(())
    }
}

} // verus!
