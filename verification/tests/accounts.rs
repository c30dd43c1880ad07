use mozu::account::{
    Account, AccountName, AccountNameError, CreateAccountError, CreateAccountRequest,
    FindAccountError, account_from_parts, classify_create_account_failure,
};
use mozu::ids::AccountId;

#[test]
fn accepts_word_names_up_to_24_characters() {
    for name in ["a", "alice", "Alice_99", "x".repeat(24).as_str()] {
        let n = AccountName::new(name).unwrap();
        assert_eq!(n.as_str(), name);
    }
}

#[test]
fn rejects_invalid_names() {
    for name in ["", "x".repeat(25).as_str(), "has space", "has-dash", "dot.name", "caf\u{e9}"] {
        match AccountName::new(name) {
            Err(AccountNameError::InvalidName(raw)) => assert_eq!(raw, name),
            Ok(_) => panic!("accepted invalid name {name:?}"),
        }
    }
}

#[test]
fn name_error_message_names_the_input() {
    let e = AccountName::new("bad name").unwrap_err();
    assert_eq!(e.message(), "name bad name is invalid");
}

#[test]
fn account_carries_id_and_name() {
    let name = AccountName::new("alice").unwrap();
    let account = Account::from_id_name(AccountId::from_value(5), name);
    assert_eq!(*account.id(), AccountId::from_value(5));
    assert_eq!(account.name().as_str(), "alice");

    let fresh = Account::new(AccountName::new("bob").unwrap());
    assert_eq!(fresh.name().as_str(), "bob");

    let req = CreateAccountRequest::new(AccountName::new("carol").unwrap());
    assert_eq!(req.name.as_str(), "carol");
}

#[test]
fn account_from_parts_revalidates_the_stored_name() {
    let account = account_from_parts(5, "alice").unwrap();
    assert_eq!(*account.id(), AccountId::from_value(5));
    assert_eq!(account.name().as_str(), "alice");

    match account_from_parts(5, "not valid!") {
        Err(FindAccountError::InvalidName(raw)) => assert_eq!(raw, "not valid!"),
        other => panic!("unexpected: {other:?}"),
    }
}

#[test]
fn insert_failures_classify_by_connection_state() {
    assert!(matches!(
        classify_create_account_failure(false, "duplicate key".to_string()),
        CreateAccountError::AlreadyExists
    ));
    match classify_create_account_failure(true, "connection closed".to_string()) {
        CreateAccountError::Unknown(m) => assert_eq!(m, "connection closed"),
        other => panic!("unexpected: {other:?}"),
    }
}

#[test]
fn find_account_error_messages() {
    assert_eq!(FindAccountError::InvalidName("zed".to_string()).message(), "zed is invalid");
    assert_eq!(FindAccountError::Unknown("boom".to_string()).message(), "boom");
}
