use mozu::urls::{HostUrl, HttpUrl, HttpUrlError};

#[test]
fn parses_http_and_https() {
    let url = HttpUrl::parse("https://example.com/actors/alice").unwrap();
    assert_eq!(url.scheme(), "https");
    assert_eq!(url.host(), "example.com");
    assert_eq!(url.as_str(), "https://example.com/actors/alice");

    let url = HttpUrl::parse("http://localhost:3000").unwrap();
    assert_eq!(url.scheme(), "http");
    assert_eq!(url.host(), "localhost");
}

#[test]
fn rejects_other_schemes() {
    assert!(matches!(HttpUrl::parse("ftp://example.com/x"), Err(HttpUrlError::InvalidScheme)));
    assert!(matches!(
        HttpUrl::parse("mailto:alice@example.com"),
        Err(HttpUrlError::InvalidScheme)
    ));
}

#[test]
fn rejects_unparseable_text() {
    assert!(matches!(HttpUrl::parse("not a url"), Err(HttpUrlError::InvalidUrl)));
    assert!(matches!(HttpUrl::parse(""), Err(HttpUrlError::InvalidUrl)));
}

#[test]
fn parse_normalizes_the_text() {
    let url = HttpUrl::parse("HTTPS://EXAMPLE.com").unwrap();
    assert_eq!(url.as_str(), "https://example.com/");
    assert_eq!(url.scheme(), "https");
    assert_eq!(url.host(), "example.com");
}

#[test]
fn equality_is_by_value() {
    let a = HttpUrl::parse("https://example.com/x").unwrap();
    let b = HttpUrl::parse("https://example.com/x").unwrap();
    let c = HttpUrl::parse("https://example.com/y").unwrap();
    assert!(a == b);
    assert!(a != c);
}

#[test]
fn host_url_reads_scheme_and_host() {
    let host = HostUrl::new("http://localhost:3000").unwrap();
    assert_eq!(host.scheme(), "http");
    assert_eq!(host.host(), "localhost");
    assert!(matches!(HostUrl::new("gopher://example.com"), Err(HttpUrlError::InvalidScheme)));
}

#[test]
fn derives_urls_from_the_naming_scheme() {
    let host = HostUrl::new("https://social.example").unwrap();
    assert_eq!(host.base_url().as_str(), "https://social.example");
    assert_eq!(host.actor_url("alice").as_str(), "https://social.example/ap/actors/alice");
    assert_eq!(host.inbox_url("alice").as_str(), "https://social.example/ap/actors/alice/inbox");
    assert_eq!(
        host.outbox_url("alice").as_str(),
        "https://social.example/ap/actors/alice/outbox"
    );
    assert_eq!(host.shared_inbox_url().as_str(), "https://social.example/ap/inbox");
    assert_eq!(host.note_url("123").as_str(), "https://social.example/ap/notes/123");
}

#[test]
fn derived_urls_keep_scheme_and_host() {
    let host = HostUrl::new("https://social.example").unwrap();
    let actor = host.actor_url("alice");
    assert_eq!(actor.scheme(), "https");
    assert_eq!(actor.host(), "social.example");
    let from_url = HostUrl::from_http_url(&actor);
    assert_eq!(from_url.host(), "social.example");
}
