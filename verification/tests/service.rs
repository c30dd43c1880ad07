use mozu::account::{Account, AccountName, FindAccountError};
use mozu::actor::{CreateActorError, ResolveActorError, ResolveActorRequest, WebFingerError};
use mozu::ap::{Actor as ActorDoc, ActorType};
use mozu::ids::{AccountId, ActorId};
use mozu::service::Service;
use mozu::store::ActorStore;
use mozu::urls::{HostUrl, HttpUrl};

fn url(s: &str) -> HttpUrl {
    HttpUrl::parse(s).unwrap()
}

fn service() -> Service {
    Service::new(ActorStore::new(), HostUrl::new("https://social.example").unwrap())
}

fn discovered(host: &str, name: &str) -> ActorDoc {
    let base = format!("https://{host}/ap/actors/{name}");
    ActorDoc {
        id: url(&base),
        kind: ActorType::Person,
        inbox: url(&format!("{base}/inbox")),
        outbox: url(&format!("{base}/outbox")),
        name: None,
        preferred_username: name.to_string(),
    }
}

fn request(host: &str, name: &str) -> ResolveActorRequest {
    ResolveActorRequest { host: host.to_string(), name: name.to_string() }
}

#[test]
fn resolution_is_idempotent_with_one_round_trip() {
    let mut service = service();
    let req = request("example.com", "alice");

    // First call: cache miss, so the caller performs the WebFinger round trip.
    assert!(service.resolve_actor_cached(&req).is_none());
    let first = service
        .resolve_actor_discovered(Ok(discovered("example.com", "alice")), ActorId::from_value(1))
        .unwrap();
    let first = first.as_remote().unwrap();
    assert_eq!(first.id, ActorId::from_value(1));

    // Second call: cache hit, so no discovery runs, and the identifier is
    // the one assigned by the first call.
    let second = service.resolve_actor_cached(&req).unwrap();
    assert_eq!(second.as_remote().unwrap().id, ActorId::from_value(1));
}

#[test]
fn concurrent_discovery_converges_on_one_row() {
    let mut service = service();
    // Two concurrent resolutions both missed the cache and discovered the
    // same document; each persists under its own fresh identifier.
    let a = service
        .resolve_actor_discovered(Ok(discovered("example.com", "alice")), ActorId::from_value(1))
        .unwrap();
    let b = service
        .resolve_actor_discovered(Ok(discovered("example.com", "alice")), ActorId::from_value(2))
        .unwrap();
    assert_eq!(a.as_remote().unwrap().id, ActorId::from_value(1));
    assert_eq!(b.as_remote().unwrap().id, ActorId::from_value(1));
}

#[test]
fn resolution_by_url_uses_the_cache() {
    let mut service = service();
    let actor_url = url("https://example.com/ap/actors/alice");
    assert!(service.resolve_actor_by_url_cached(&actor_url).is_none());
    service
        .resolve_actor_discovered(Ok(discovered("example.com", "alice")), ActorId::from_value(4))
        .unwrap();
    let hit = service.resolve_actor_by_url_cached(&actor_url).unwrap();
    assert_eq!(hit.as_remote().unwrap().id, ActorId::from_value(4));
    let by_id = service.find_actor_by_id(&ActorId::from_value(4)).unwrap();
    assert_eq!(by_id.as_remote().unwrap().name, "alice");
}

#[test]
fn http_failure_resolves_to_the_status_error_and_creates_no_row() {
    let mut service = service();
    let req = request("example.com", "alice");
    assert!(service.resolve_actor_cached(&req).is_none());

    let r = service.resolve_actor_discovered(
        Err(WebFingerError::HttpStatusError(404)),
        ActorId::from_value(1),
    );
    assert!(matches!(
        r,
        Err(ResolveActorError::WebFingerError(WebFingerError::HttpStatusError(404)))
    ));

    // No row was created: the next call still misses the cache.
    assert!(service.resolve_actor_cached(&req).is_none());
}

#[test]
fn discovered_actor_is_persisted_as_remote() {
    let mut service = service();
    let actor = service
        .resolve_actor_discovered(Ok(discovered("example.com", "alice")), ActorId::from_value(1))
        .unwrap();
    assert!(actor.is_remote());
    let remote = actor.as_remote().unwrap();
    assert_eq!(remote.actor_url.as_str(), "https://example.com/ap/actors/alice");
    assert!(remote.shared_inbox_url.is_none());
}

#[test]
fn create_local_actor_derives_the_published_urls() {
    let mut service = service();
    let account = Account::from_id_name(
        AccountId::from_value(9),
        AccountName::new("alice").unwrap(),
    );
    let local = service.create_local_actor(Ok(Some(account)), ActorId::from_value(1)).unwrap();
    assert_eq!(local.id, ActorId::from_value(1));
    assert_eq!(local.name, "alice");
    assert_eq!(local.actor_url.as_str(), "https://social.example/ap/actors/alice");
    assert_eq!(local.inbox_url.as_str(), "https://social.example/ap/actors/alice/inbox");
    assert_eq!(local.outbox_url.as_str(), "https://social.example/ap/actors/alice/outbox");
    assert_eq!(local.shared_inbox_url.as_str(), "https://social.example/ap/inbox");
    assert_eq!(local.account_id, AccountId::from_value(9));

    // The created actor classifies as local through the cache too.
    let cached = service.resolve_actor_cached(&request("social.example", "alice")).unwrap();
    assert!(cached.is_local());
}

#[test]
fn create_local_actor_is_idempotent() {
    let mut service = service();
    let account = Account::from_id_name(
        AccountId::from_value(9),
        AccountName::new("alice").unwrap(),
    );
    let first = service
        .create_local_actor(Ok(Some(account.clone())), ActorId::from_value(1))
        .unwrap();
    let second = service.create_local_actor(Ok(Some(account)), ActorId::from_value(2)).unwrap();
    assert_eq!(first.id, ActorId::from_value(1));
    assert_eq!(second.id, ActorId::from_value(1));
}

#[test]
fn create_local_actor_without_account_fails() {
    let mut service = service();
    let r = service.create_local_actor(Ok(None), ActorId::from_value(1));
    assert!(matches!(r, Err(CreateActorError::AccountNotExists)));

    let r = service.create_local_actor(
        Err(FindAccountError::Unknown("connection lost".to_string())),
        ActorId::from_value(1),
    );
    match r {
        Err(CreateActorError::DataBaseError(m)) => assert_eq!(m, "connection lost"),
        other => panic!("unexpected: {other:?}"),
    }
}

#[test]
fn genuine_conflict_surfaces_as_database_error() {
    let mut service = service();
    service
        .resolve_actor_discovered(Ok(discovered("example.com", "alice")), ActorId::from_value(1))
        .unwrap();
    // The same actor URL resolved again, but the remote changed its type:
    // the unique key collides with different attribute values.
    let mut doc = discovered("example.com", "alice");
    doc.kind = ActorType::Service;
    let r = service.resolve_actor_discovered(Ok(doc), ActorId::from_value(2));
    match r {
        Err(ResolveActorError::DataBaseError(m)) => assert_eq!(m, "actor is already exists"),
        other => panic!("unexpected: {other:?}"),
    }
}
