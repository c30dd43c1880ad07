use mozu::actor::{ActorRow, CreateActorError, FindActorError, ResolveActorError};
use mozu::ap::{Actor as ActorDoc, ActorType};
use mozu::ids::{AccountId, ActorId};
use mozu::note::{CreateLocalNoteError, CreateRemoteNoteError};
use mozu::service::{remote_actor_row, resolve_cache_step, resolve_persist_step};
use mozu::urls::HttpUrl;

fn url(s: &str) -> HttpUrl {
    HttpUrl::parse(s).unwrap()
}

fn sample_row() -> ActorRow {
    ActorRow {
        id: ActorId::from_value(1),
        actor_type: ActorType::Person,
        name: "alice".to_string(),
        actor_url: url("https://example.com/ap/actors/alice"),
        inbox_url: url("https://example.com/ap/actors/alice/inbox"),
        outbox_url: url("https://example.com/ap/actors/alice/outbox"),
        shared_inbox_url: None,
        account_id: None,
    }
}

#[test]
fn cache_step_classifies_a_hit_and_passes_a_miss() {
    let hit = resolve_cache_step(Ok(Some(sample_row()))).unwrap().unwrap();
    assert!(hit.is_remote());
    assert!(resolve_cache_step(Ok(None)).unwrap().is_none());
    match resolve_cache_step(Err(FindActorError::NotFound)) {
        Err(ResolveActorError::DataBaseError(m)) => assert_eq!(m, "actor not found"),
        other => panic!("unexpected: {other:?}"),
    }
}

#[test]
fn persist_step_classifies_or_wraps_the_failure() {
    let ok = resolve_persist_step(Ok(sample_row())).unwrap();
    assert_eq!(ok.as_remote().unwrap().id, ActorId::from_value(1));
    match resolve_persist_step(Err(CreateActorError::AlreadyExists)) {
        Err(ResolveActorError::DataBaseError(m)) => assert_eq!(m, "actor is already exists"),
        other => panic!("unexpected: {other:?}"),
    }
    match resolve_persist_step(Err(CreateActorError::AccountNotExists)) {
        Err(ResolveActorError::DataBaseError(m)) => assert_eq!(m, "account is not exists"),
        other => panic!("unexpected: {other:?}"),
    }
}

#[test]
fn discovered_document_becomes_a_remote_shaped_row() {
    let doc = ActorDoc {
        id: url("https://example.com/ap/actors/alice"),
        kind: ActorType::Person,
        inbox: url("https://example.com/ap/actors/alice/inbox"),
        outbox: url("https://example.com/ap/actors/alice/outbox"),
        name: Some("Alice".to_string()),
        preferred_username: "alice".to_string(),
    };
    let row = remote_actor_row(doc, ActorId::from_value(7));
    assert_eq!(row.id, ActorId::from_value(7));
    assert_eq!(row.name, "alice");
    assert_eq!(row.actor_url.as_str(), "https://example.com/ap/actors/alice");
    assert!(row.shared_inbox_url.is_none());
    assert!(row.account_id.is_none());
}

#[test]
fn note_errors_map_from_actor_lookup_failures() {
    assert!(matches!(
        CreateLocalNoteError::from_find_actor_error(FindActorError::NotFound),
        CreateLocalNoteError::ActorNotFound
    ));
    match CreateLocalNoteError::from_find_actor_error(FindActorError::DataBaseError(
        "boom".to_string(),
    )) {
        CreateLocalNoteError::Unknown(m) => assert_eq!(m, "boom"),
        other => panic!("unexpected: {other:?}"),
    }
    assert!(matches!(
        CreateRemoteNoteError::from_find_actor_error(FindActorError::NotFound),
        CreateRemoteNoteError::ActorNotFound
    ));
}

#[test]
fn fresh_identifiers_differ() {
    let a = ActorId::new();
    let b = ActorId::new();
    assert_ne!(a, b);
    assert_ne!(AccountId::new(), AccountId::new());
}
