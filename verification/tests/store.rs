use mozu::actor::{ActorRow, CreateActorError};
use mozu::ap::ActorType;
use mozu::ids::{AccountId, ActorId};
use mozu::store::ActorStore;
use mozu::urls::HttpUrl;

fn url(s: &str) -> HttpUrl {
    HttpUrl::parse(s).unwrap()
}

fn remote_row(id: u128, host: &str, name: &str) -> ActorRow {
    let base = format!("https://{host}/ap/actors/{name}");
    ActorRow {
        id: ActorId::from_value(id),
        actor_type: ActorType::Person,
        name: name.to_string(),
        actor_url: url(&base),
        inbox_url: url(&format!("{base}/inbox")),
        outbox_url: url(&format!("{base}/outbox")),
        shared_inbox_url: None,
        account_id: None,
    }
}

#[test]
fn create_inserts_and_find_retrieves() {
    let mut store = ActorStore::new();
    assert_eq!(store.len(), 0);
    let created = store.create(remote_row(1, "example.com", "alice")).unwrap();
    assert_eq!(created.id, ActorId::from_value(1));
    assert_eq!(store.len(), 1);

    let by_url = store.find_by_url(&url("https://example.com/ap/actors/alice")).unwrap();
    assert_eq!(by_url.id, ActorId::from_value(1));
    let by_key = store.find_by_host_name("example.com", "alice").unwrap();
    assert_eq!(by_key.id, ActorId::from_value(1));
    let by_id = store.find_by_id(&ActorId::from_value(1)).unwrap();
    assert_eq!(by_id.name, "alice");

    assert!(store.find_by_url(&url("https://example.com/ap/actors/bob")).is_none());
    assert!(store.find_by_host_name("example.com", "bob").is_none());
    assert!(store.find_by_id(&ActorId::from_value(2)).is_none());
    assert!(store.find_by_account_id(&AccountId::from_value(5)).is_none());
}

#[test]
fn reinserting_the_same_identity_returns_the_existing_row() {
    let mut store = ActorStore::new();
    store.create(remote_row(1, "example.com", "alice")).unwrap();
    // A concurrent resolution would build the same row under another fresh id.
    let again = store.create(remote_row(2, "example.com", "alice")).unwrap();
    assert_eq!(again.id, ActorId::from_value(1));
    assert_eq!(store.len(), 1);
}

#[test]
fn url_collision_with_different_attributes_is_a_conflict() {
    let mut store = ActorStore::new();
    store.create(remote_row(1, "example.com", "alice")).unwrap();
    let mut clash = remote_row(2, "example.com", "alice");
    clash.actor_type = ActorType::Service;
    assert!(matches!(store.create(clash), Err(CreateActorError::AlreadyExists)));
    assert_eq!(store.len(), 1);
}

#[test]
fn host_name_collision_under_another_url_is_a_conflict() {
    let mut store = ActorStore::new();
    store.create(remote_row(1, "example.com", "alice")).unwrap();
    let mut clash = remote_row(2, "example.com", "alice");
    clash.actor_url = url("https://example.com/people/alice");
    assert!(matches!(store.create(clash), Err(CreateActorError::AlreadyExists)));
}

#[test]
fn account_collision_is_a_conflict() {
    let mut store = ActorStore::new();
    let mut first = remote_row(1, "example.com", "alice");
    first.account_id = Some(AccountId::from_value(9));
    first.shared_inbox_url = Some(url("https://example.com/ap/inbox"));
    store.create(first).unwrap();

    let mut second = remote_row(2, "example.com", "bob");
    second.account_id = Some(AccountId::from_value(9));
    assert!(matches!(store.create(second), Err(CreateActorError::AlreadyExists)));

    let found = store.find_by_account_id(&AccountId::from_value(9)).unwrap();
    assert_eq!(found.name, "alice");
}

#[test]
fn distinct_identities_coexist() {
    let mut store = ActorStore::new();
    store.create(remote_row(1, "example.com", "alice")).unwrap();
    store.create(remote_row(2, "example.com", "bob")).unwrap();
    store.create(remote_row(3, "other.example", "alice")).unwrap();
    assert_eq!(store.len(), 3);
    assert_eq!(
        store.find_by_host_name("other.example", "alice").unwrap().id,
        ActorId::from_value(3)
    );
}
