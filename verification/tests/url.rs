use unix_connector::client::ValidationError;
use unix_connector::{DomainUrl, UnixConnector, UrlError};

#[test]
fn build_url_splits_path_and_query() {
    let u = DomainUrl::new("/tmp/app.sock", "/v1/items?x=1").into_url().unwrap();
    assert_eq!(u.scheme, "unix");
    assert_eq!(u.host, "/tmp/app.sock");
    assert_eq!(u.port, Some(0));
    assert_eq!(u.path, "/v1/items");
    assert_eq!(u.query.as_deref(), Some("x=1"));
    assert_eq!(u.fragment, None);
}

#[test]
fn build_url_plain_path() {
    let u = DomainUrl::new("/run/api.sock", "/status").into_url().unwrap();
    assert_eq!(u.host, "/run/api.sock");
    assert_eq!(u.path, "/status");
    assert_eq!(u.query, None);
    assert_eq!(u.fragment, None);
}

#[test]
fn build_url_with_fragment() {
    let u = DomainUrl::new("/s", "/a/b?q=1#frag").into_url().unwrap();
    assert_eq!(u.path, "/a/b");
    assert_eq!(u.query.as_deref(), Some("q=1"));
    assert_eq!(u.fragment.as_deref(), Some("frag"));
}

#[test]
fn question_mark_after_fragment_is_part_of_the_fragment() {
    let u = DomainUrl::new("/s", "/a#f?x").into_url().unwrap();
    assert_eq!(u.path, "/a");
    assert_eq!(u.query, None);
    assert_eq!(u.fragment.as_deref(), Some("f?x"));
}

#[test]
fn empty_query_and_fragment_are_kept() {
    let u = DomainUrl::new("/s", "/p?#").into_url().unwrap();
    assert_eq!(u.path, "/p");
    assert_eq!(u.query.as_deref(), Some(""));
    assert_eq!(u.fragment.as_deref(), Some(""));
}

#[test]
fn relative_request_path_is_rejected() {
    assert_eq!(
        DomainUrl::new("/s", "no-slash").into_url().err(),
        Some(UrlError::InvalidPath)
    );
    assert_eq!(
        DomainUrl::new("/s", "").into_url().err(),
        Some(UrlError::InvalidPath)
    );
}

#[test]
fn blocking_connector_routes_unix_scheme() {
    let c = UnixConnector;
    assert_eq!(c.connect_target("/tmp/app.sock", "unix"), Ok("/tmp/app.sock"));
}

#[test]
fn blocking_connector_rejects_other_schemes() {
    let c = UnixConnector;
    assert_eq!(
        c.connect_target("/tmp/app.sock", "http"),
        Err(ValidationError::WrongScheme)
    );
    assert_eq!(
        c.connect_target("/tmp/app.sock", "unixx"),
        Err(ValidationError::WrongScheme)
    );
}
