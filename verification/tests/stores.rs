use session_auth::credentials::RegisteredUsers;
use session_auth::profiles::Users;
use session_auth::outcomes::UsernameTaken;
use session_auth::sessions::Sessions;

fn text(value: &str) -> String {
    value.to_string()
}

#[test]
fn credentials_register_then_verify() {
    let mut store = RegisteredUsers::new();
    assert_eq!(store.verify("alice", &text("secret")), None);
    assert_eq!(store.register(text("alice"), text("secret")), Ok(()));
    assert_eq!(store.verify("alice", &text("secret")), Some(true));
    assert_eq!(store.verify("alice", &text("wrong")), Some(false));
    assert_eq!(store.verify("bob", &text("secret")), None);
}

#[test]
fn credentials_refuse_a_taken_username() {
    let mut store = RegisteredUsers::new();
    assert_eq!(store.register(text("alice"), text("secret")), Ok(()));
    assert_eq!(store.register(text("alice"), text("other")), Err(UsernameTaken));
    assert_eq!(store.register(text("alice"), text("secret")), Err(UsernameTaken));
    assert_eq!(store.verify("alice", &text("secret")), Some(true));
    assert_eq!(store.verify("alice", &text("other")), Some(false));
}

#[test]
fn credentials_compare_passwords_exactly() {
    let mut store = RegisteredUsers::new();
    assert_eq!(store.register(text("alice"), text("Secret")), Ok(()));
    assert_eq!(store.verify("alice", &text("secret")), Some(false));
    assert_eq!(store.verify("alice", &text("Secret ")), Some(false));
    assert_eq!(store.verify("alice", &text("")), Some(false));
    assert_eq!(store.verify("Alice", &text("Secret")), None);
    assert_eq!(store.verify("alice", &text("Secret")), Some(true));
}

#[test]
fn credentials_take_empty_strings() {
    let mut store = RegisteredUsers::new();
    assert_eq!(store.register(text(""), text("")), Ok(()));
    assert_eq!(store.verify("", &text("")), Some(true));
    assert_eq!(store.verify("", &text("x")), Some(false));
    assert_eq!(store.register(text(""), text("x")), Err(UsernameTaken));
}

#[test]
fn profiles_put_then_get() {
    let mut store = Users::new();
    assert!(store.get("alice").is_none());
    store.put(text("alice"), text("hi"), None);
    let found = store.get("alice").unwrap();
    assert_eq!(found.username, "alice");
    assert_eq!(found.bio, "hi");
    assert_eq!(found.location, None);
    assert!(store.get("bob").is_none());
}

#[test]
fn profiles_put_replaces() {
    let mut store = Users::new();
    store.put(text("alice"), text("hi"), None);
    store.put(text("alice"), text("hello"), Some(text("Paris")));
    let found = store.get("alice").unwrap();
    assert_eq!(found.username, "alice");
    assert_eq!(found.bio, "hello");
    assert_eq!(found.location, Some(text("Paris")));
}

#[test]
fn sessions_issue_then_resolve() {
    let mut registry = Sessions::new();
    let expected = session_auth::digest::derive("alice");
    assert!(registry.resolve(&expected).is_none());
    let id = registry.issue_or_get(text("alice"));
    assert_eq!(id, expected);
    assert_eq!(registry.resolve(&id), Some(&text("alice")));
    assert!(registry.resolve("bogus").is_none());
    assert!(registry.resolve("").is_none());
}

#[test]
fn sessions_issue_is_idempotent() {
    let mut registry = Sessions::new();
    let first = registry.issue_or_get(text("alice"));
    let second = registry.issue_or_get(text("alice"));
    let third = registry.issue_or_get(text("alice"));
    assert_eq!(first, second);
    assert_eq!(second, third);
    assert_eq!(registry.resolve(&first), Some(&text("alice")));
}

#[test]
fn sessions_keep_users_apart() {
    let mut registry = Sessions::new();
    let alice = registry.issue_or_get(text("alice"));
    let bob = registry.issue_or_get(text("bob"));
    assert_ne!(alice, bob);
    assert_eq!(registry.resolve(&alice), Some(&text("alice")));
    assert_eq!(registry.resolve(&bob), Some(&text("bob")));
}
