//! Transport addressing for HTTP over Unix domain sockets.
//!
//! A target socket path is carried inside a URI with the fixed scheme
//! `unix`.  The async addressing scheme stores the path's bytes
//! hex-encoded in the host component ([`codec`], [`client`]); the
//! blocking scheme uses the raw path text as the host directly
//! ([`UnixConnector`], [`DomainUrl`]).

pub mod client;
pub mod codec;

use vstd::prelude::*;

verus! {

/// Synchronous connector: decides, from a resolved address and a scheme,
/// whether a Unix domain socket connection may be attempted and to which
/// filesystem path.  The connector is stateless, so one value can serve
/// any number of concurrent sessions.
pub struct UnixConnector;

impl UnixConnector {
    /// The target path for a blocking connection attempt: the host string
    /// taken literally, owed whenever the scheme is the fixed token
    /// `unix`; any other scheme is rejected up front, before any I/O.
    pub fn connect_target<'a>(&self, host: &'a str, scheme: &str) -> (r: Result<
        &'a str,
        crate::client::ValidationError,
    >)
        ensures
            match r {
                Ok(t) => scheme@ == "unix"@ && t@ == host@,
                Err(e) => scheme@ != "unix"@ && e
                    == crate::client::ValidationError::WrongScheme,
            },
    {
        if is_unix_token(scheme) {
            Ok(host)
        } else {
            Err(crate::client::ValidationError::WrongScheme)
        }
    }
}

/// The index of the first occurrence of `c` at or after `i`, or the
/// end of the text.
pub open spec fn idx_of(s: Seq<char>, i: int, c: char) -> int
    decreases s.len() - i
        when 0 <= i <= s.len()
{
    if i >= s.len() {
        i
    } else if s[i] == c {
        i
    } else {
        idx_of(s, i + 1, c)
    }
}

/// An absolute request path: non-empty and starting at the root.
pub open spec fn is_abs_path(s: Seq<char>) -> bool {
    s.len() > 0 && s[0] == '/'
}

/// Where the path constituent of a request target ends: at the first
/// `?` or `#`, whichever comes first, or at the end of the text.
pub open spec fn path_end(s: Seq<char>) -> int {
    if idx_of(s, 0, '?') < idx_of(s, 0, '#') {
        idx_of(s, 0, '?')
    } else {
        idx_of(s, 0, '#')
    }
}

/// The path constituent of a request target.
pub open spec fn path_part(s: Seq<char>) -> Seq<char> {
    s.subrange(0, path_end(s))
}

/// The query constituent of a request target: the characters between
/// the first `?` and the fragment, present only when that `?` comes
/// before any `#`.
pub open spec fn query_part(s: Seq<char>) -> Option<Seq<char>> {
    if idx_of(s, 0, '?') < idx_of(s, 0, '#') {
        Some(s.subrange(idx_of(s, 0, '?') + 1, idx_of(s, 0, '#')))
    } else {
        None
    }
}

/// The fragment constituent of a request target: everything after the
/// first `#`, when there is one.
pub open spec fn fragment_part(s: Seq<char>) -> Option<Seq<char>> {
    if idx_of(s, 0, '#') < s.len() {
        Some(s.subrange(idx_of(s, 0, '#') + 1, s.len() as int))
    } else {
        None
    }
}

/// Failure of [`DomainUrl::into_url`]: the request path is not
/// syntactically valid.
#[derive(Clone, Copy, Debug, PartialEq, Eq, Structural)]
pub enum UrlError {
    /// The request path is not absolute (it does not start with `/`).
    InvalidPath,
}

/// A URI assembled for the blocking addressing scheme.  The host is the
/// literal, undecoded socket path text, and the port is a fixed
/// placeholder that only distinguishes this URI from a bare-host
/// default; neither is inspected further by this library.
pub struct DomainUri {
    pub scheme: String,
    pub host: String,
    pub port: Option<u16>,
    pub path: String,
    pub query: Option<String>,
    pub fragment: Option<String>,
}

/// A request target for the blocking addressing scheme: a socket path
/// and a request path, to be assembled into a URI whose host is the
/// socket path taken literally.
pub struct DomainUrl<'a> {
    pub socket: &'a str,
    pub path: &'a str,
}

impl<'a> DomainUrl<'a> {
    /// Pair a socket path with a request path.
    pub fn new(socket: &'a str, path: &'a str) -> (r: DomainUrl<'a>)
        ensures
            r.socket@ == socket@,
            r.path@ == path@,
    {
        DomainUrl { socket, path }
    }

    /// Assemble the URI: scheme `unix`, the socket path as the literal
    /// host, the placeholder port, and the request path split into its
    /// path, query and fragment constituents.  The request path must be
    /// absolute; nothing else about it is constrained.
    pub fn into_url(self) -> (r: Result<DomainUri, UrlError>)
        ensures
            match r {
                Ok(u) => is_abs_path(self.path@) && u.scheme@ == "unix"@ && u.host@
                    == self.socket@ && u.port == Some(0u16) && u.path@ == path_part(self.path@)
                    && (match u.query {
                    Some(q) => query_part(self.path@) == Some(q@),
                    None => query_part(self.path@) is None,
                }) && (match u.fragment {
                    Some(f) => fragment_part(self.path@) == Some(f@),
                    None => fragment_part(self.path@) is None,
                }),
                Err(e) => !is_abs_path(self.path@) && e == UrlError::InvalidPath,
            },
    {
        let n = self.path.unicode_len();
        if n == 0 || self.path.get_char(0) != '/' {
            return Err(UrlError::InvalidPath);
        }
        let f = find_char(self.path, 0, '#');
        let q = find_char(self.path, 0, '?');
        let pend = if q < f {
            q
        } else {
            f
        };
        let path_str = self.path.substring_char(0, pend).to_owned();
        let query = if q < f {
            Some(self.path.substring_char(q + 1, f).to_owned())
        } else {
            None
        };
        let fragment = if f < n {
            Some(self.path.substring_char(f + 1, n).to_owned())
        } else {
            None
        };
        Ok(
            DomainUri {
                scheme: "unix".to_owned(),
                host: self.socket.to_owned(),
                port: Some(0),
                path: path_str,
                query,
                fragment,
            },
        )
    }
}

/// The index of the first occurrence of `c` at or after `start`, or the
/// end of the text.
fn find_char(s: &str, start: usize, c: char) -> (r: usize)
    requires
        start <= s@.len(),
    ensures
        start <= r <= s@.len(),
        r == idx_of(s@, start as int, c),
{
    let n = s.unicode_len();
    let mut i = start;
    while i < n && s.get_char(i) != c
        invariant
            start <= i <= n,
            n == s@.len(),
            forall|j: int| start <= j < i ==> s@[j] != c,
        decreases n - i,
    {
        i = i + 1;
    }
    proof {
        lemma_idx_of(s@, start as int, i as int, c);
    }
    i
}

/// Scanning from a `c`-free prefix up to an occurrence of `c` (or the
/// end of the text) lands exactly on `idx_of`.
proof fn lemma_idx_of(s: Seq<char>, i: int, e: int, c: char)
    requires
        0 <= i <= e <= s.len(),
        forall|j: int| i <= j < e ==> s[j] != c,
        e == s.len() || s[e] == c,
    ensures
        idx_of(s, i, c) == e,
    decreases e - i,
{
    if i < e {
        lemma_idx_of(s, i + 1, e, c);
    }
}

/// Does `s` spell exactly the fixed scheme token `unix`?
fn is_unix_token(s: &str) -> (b: bool)
    ensures
        b == (s@ == "unix"@),
{
    proof {
        reveal_strlit("unix");
    }
    let n = s.unicode_len();
    if n != 4 {
        return false;
    }
    let r = s.get_char(0) == 'u' && s.get_char(1) == 'n' && s.get_char(2) == 'i' && s.get_char(3)
        == 'x';
    proof {
        if r {
            assert(s@ =~= "unix"@);
        }
    }
    r
}

} // verus!
