use mozu::actor::WebFingerError;
use mozu::ap::{Actor, ActorType, WebFinger, WebFingerLink};
use mozu::resolver::{
    evaluate_actor_response, evaluate_webfinger_response, status_rejected, webfinger_request_url,
};
use mozu::urls::HttpUrl;

fn url(s: &str) -> HttpUrl {
    HttpUrl::parse(s).unwrap()
}

fn actor_doc(id: &str, name: &str) -> Actor {
    Actor {
        id: url(id),
        kind: ActorType::Person,
        inbox: url(&format!("{id}/inbox")),
        outbox: url(&format!("{id}/outbox")),
        name: None,
        preferred_username: name.to_string(),
    }
}

#[test]
fn builds_the_webfinger_request_url() {
    assert_eq!(
        webfinger_request_url("example.com", "alice"),
        "https://example.com/.well-known/webfinger?resource=acct:alice@example.com"
    );
}

#[test]
fn rejects_client_and_server_errors() {
    assert!(!status_rejected(200));
    assert!(!status_rejected(399));
    assert!(status_rejected(400));
    assert!(status_rejected(404));
    assert!(status_rejected(500));
    assert!(status_rejected(599));
    assert!(!status_rejected(600));
}

#[test]
fn webfinger_status_error_wins() {
    let r = evaluate_webfinger_response(404, Err("unused".to_string()));
    assert!(matches!(r, Err(WebFingerError::HttpStatusError(404))));
}

#[test]
fn webfinger_decode_failure_is_unexpected_response() {
    let r = evaluate_webfinger_response(200, Err("bad json".to_string()));
    match r {
        Err(WebFingerError::UnexpectedResponse(m)) => assert_eq!(m, "bad json"),
        other => panic!("unexpected: {other:?}"),
    }
}

#[test]
fn webfinger_without_self_link_is_missing_self_link() {
    let wf = WebFinger { subject: "acct:alice@example.com".to_string(), links: vec![] };
    let r = evaluate_webfinger_response(200, Ok(wf));
    assert!(matches!(r, Err(WebFingerError::MissingSelfLink)));
}

#[test]
fn webfinger_selects_the_actor_url() {
    let wf = WebFinger {
        subject: "acct:alice@example.com".to_string(),
        links: vec![
            WebFingerLink {
                rel: "self".to_string(),
                kind: Some("text/html".to_string()),
                href: Some(url("https://example.com/a")),
            },
            WebFingerLink {
                rel: "self".to_string(),
                kind: Some("application/activity+json".to_string()),
                href: Some(url("https://example.com/b")),
            },
        ],
    };
    let r = evaluate_webfinger_response(200, Ok(wf)).unwrap();
    assert_eq!(r.as_str(), "https://example.com/b");
}

#[test]
fn actor_response_status_error_wins() {
    let requested = url("https://example.com/ap/actors/alice");
    let r = evaluate_actor_response(&requested, 500, Err("unused".to_string()));
    assert!(matches!(r, Err(WebFingerError::HttpStatusError(500))));
}

#[test]
fn actor_response_identity_mismatch_is_rejected() {
    let requested = url("https://example.com/ap/actors/alice");
    let doc = actor_doc("https://evil.example/ap/actors/alice", "alice");
    let r = evaluate_actor_response(&requested, 200, Ok(doc));
    match r {
        Err(WebFingerError::UnexpectedResponse(m)) => {
            assert_eq!(m, "actor id is not matched");
        }
        other => panic!("unexpected: {other:?}"),
    }
}

#[test]
fn actor_response_matching_identity_is_returned() {
    let requested = url("https://example.com/ap/actors/alice");
    let doc = actor_doc("https://example.com/ap/actors/alice", "alice");
    let r = evaluate_actor_response(&requested, 200, Ok(doc)).unwrap();
    assert_eq!(r.id.as_str(), "https://example.com/ap/actors/alice");
    assert_eq!(r.preferred_username, "alice");
}
