use mozu::ap::{WebFinger, WebFingerLink, activitypub_media_type, activitypub_media_type_alt};
use mozu::urls::HttpUrl;

fn link(rel: &str, kind: Option<&str>, href: Option<&str>) -> WebFingerLink {
    WebFingerLink {
        rel: rel.to_string(),
        kind: kind.map(|k| k.to_string()),
        href: href.map(|h| HttpUrl::parse(h).unwrap()),
    }
}

#[test]
fn self_link_needs_rel_and_media_type() {
    assert!(link("self", Some("application/activity+json"), None).is_self_link());
    assert!(link("self", Some(activitypub_media_type_alt()), None).is_self_link());
    assert!(!link("self", Some("text/html"), None).is_self_link());
    assert!(!link("self", None, None).is_self_link());
    assert!(!link("profile", Some("application/activity+json"), None).is_self_link());
}

#[test]
fn selection_takes_first_activitypub_self_link() {
    let wf = WebFinger {
        subject: "acct:alice@example.com".to_string(),
        links: vec![
            link("self", Some("text/html"), Some("https://example.com/a")),
            link("self", Some("application/activity+json"), Some("https://example.com/b")),
        ],
    };
    assert_eq!(wf.actor_link().unwrap().as_str(), "https://example.com/b");
}

#[test]
fn selection_skips_self_link_without_href() {
    let wf = WebFinger {
        subject: "acct:alice@example.com".to_string(),
        links: vec![
            link("self", Some(activitypub_media_type()), None),
            link("self", Some(activitypub_media_type_alt()), Some("https://example.com/c")),
        ],
    };
    assert_eq!(wf.actor_link().unwrap().as_str(), "https://example.com/c");
}

#[test]
fn selection_fails_without_usable_link() {
    let wf = WebFinger {
        subject: "acct:alice@example.com".to_string(),
        links: vec![
            link("profile", Some("text/html"), Some("https://example.com/p")),
            link("self", Some("text/html"), Some("https://example.com/h")),
        ],
    };
    assert!(wf.actor_link().is_none());

    let empty = WebFinger { subject: "acct:x@y".to_string(), links: vec![] };
    assert!(empty.actor_link().is_none());
}
