use session_auth::handlers::home;
use session_auth::handlers::login;
use session_auth::handlers::signup;
use session_auth::models::CreateAccount;
use session_auth::models::LoginDetails;
use session_auth::outcomes::AccountCreated;
use session_auth::outcomes::InvalidCredentials;
use session_auth::outcomes::ResolveError;
use session_auth::outcomes::UsernameTaken;
use session_auth::replies::Delivery;
use session_auth::outcomes::ProfileMissing;
use session_auth::AppState;

const NOT_LOGGED_IN: &str =
    "Not logged in. Log in by going to /login or create an account at /signup";

fn account(username: &str, password: &str, bio: &str) -> CreateAccount {
    CreateAccount {
        username: username.to_string(),
        password: password.to_string(),
        bio: bio.to_string(),
        location: None,
    }
}

fn details(username: &str, password: &str) -> LoginDetails {
    LoginDetails { username: username.to_string(), password: password.to_string() }
}

#[test]
fn end_to_end_with_token() {
    let state = AppState::new();
    assert_eq!(signup(&state, account("alice", "secret", "hi")), "Account created successfully");
    let reply = login(&state, details("alice", "secret"), Delivery::Token);
    assert_eq!(reply.status, 200);
    assert_eq!(reply.set_cookie, None);
    let id = reply.body;
    assert_eq!(id, session_auth::digest::derive("alice"));
    assert_eq!(home(&state, Some(&id), Delivery::Token), Ok("Hello, alice!".to_string()));
    let refusal = login(&state, details("alice", "wrong"), Delivery::Token);
    assert_eq!(refusal.body, "Username and password combination is wrong");
    assert_eq!(refusal.set_cookie, None);
    assert_eq!(home(&state, Some("bogus"), Delivery::Token), Ok("Token is invalid".to_string()));
    assert_eq!(home(&state, None, Delivery::Token), Ok(NOT_LOGGED_IN.to_string()));
}

#[test]
fn end_to_end_with_cookie() {
    let state = AppState::new();
    assert_eq!(signup(&state, account("alice", "secret", "hi")), "Account created successfully");
    let reply = login(&state, details("alice", "secret"), Delivery::Cookie);
    assert_eq!(reply.status, 200);
    assert_eq!(reply.body, "You're logged in");
    let id = session_auth::digest::derive("alice");
    assert_eq!(reply.set_cookie, Some(format!("sid={}", id)));
    assert_eq!(home(&state, Some(&id), Delivery::Cookie), Ok("Hello, alice!".to_string()));
    let refusal = login(&state, details("alice", "wrong"), Delivery::Cookie);
    assert_eq!(refusal.status, 401);
    assert_eq!(refusal.set_cookie, None);
    assert_eq!(refusal.body, "Username and password combination is wrong");
    assert_eq!(
        home(&state, Some("bogus"), Delivery::Cookie),
        Ok("Session is invalid. Please log in by going to /login".to_string())
    );
    assert_eq!(home(&state, None, Delivery::Cookie), Ok(NOT_LOGGED_IN.to_string()));
}

#[test]
fn typed_end_to_end() {
    let state = AppState::new();
    assert_eq!(state.register(account("alice", "secret", "hi")), Ok(AccountCreated));
    let id = state.authenticate(details("alice", "secret")).unwrap();
    let user = state.resolve(Some(&id)).unwrap();
    assert_eq!(user.username, "alice");
    assert_eq!(user.bio, "hi");
    assert_eq!(user.location, None);
    assert_eq!(state.authenticate(details("alice", "wrong")), Err(InvalidCredentials));
    assert_eq!(state.authenticate(details("bob", "secret")), Err(InvalidCredentials));
    assert_eq!(state.resolve(Some("bogus")).unwrap_err(), ResolveError::InvalidSession);
    assert_eq!(state.resolve(None).unwrap_err(), ResolveError::NoCredentialsPresented);
}

#[test]
fn signup_refuses_a_taken_username() {
    let state = AppState::new();
    assert_eq!(signup(&state, account("alice", "secret", "hi")), "Account created successfully");
    assert_eq!(signup(&state, account("alice", "other", "bye")), "Username is taken!");
    assert_eq!(state.register(account("alice", "third", "")), Err(UsernameTaken));
    let id = state.authenticate(details("alice", "secret")).unwrap();
    assert_eq!(state.authenticate(details("alice", "other")), Err(InvalidCredentials));
    assert_eq!(state.resolve(Some(&id)).unwrap().bio, "hi");
}

#[test]
fn login_twice_gives_one_session() {
    let state = AppState::new();
    assert_eq!(state.register(account("alice", "secret", "hi")), Ok(AccountCreated));
    let first = login(&state, details("alice", "secret"), Delivery::Token).body;
    let second = login(&state, details("alice", "secret"), Delivery::Token).body;
    assert_eq!(first, second);
    let (registry, lock) = state.sessions.acquire_write();
    assert_eq!(registry.resolve(&first), Some(&"alice".to_string()));
    lock.release_write(registry);
}

#[test]
fn clones_share_the_stores() {
    let state = AppState::new();
    let other = state.clone();
    assert_eq!(signup(&state, account("alice", "secret", "hi")), "Account created successfully");
    assert_eq!(signup(&other, account("alice", "secret", "hi")), "Username is taken!");
    let id = other.authenticate(details("alice", "secret")).unwrap();
    assert_eq!(home(&state, Some(&id), Delivery::Token), Ok("Hello, alice!".to_string()));
}

#[test]
fn fresh_states_are_apart() {
    let first = AppState::new();
    let second = AppState::new();
    assert_eq!(first.register(account("alice", "secret", "hi")), Ok(AccountCreated));
    assert_eq!(second.authenticate(details("alice", "secret")), Err(InvalidCredentials));
    assert_eq!(second.register(account("alice", "secret", "hi")), Ok(AccountCreated));
}

#[test]
fn session_without_profile_is_fatal() {
    let state = AppState::new();
    let (mut registry, lock) = state.sessions.acquire_write();
    let id = registry.issue_or_get("ghost".to_string());
    lock.release_write(registry);
    assert_eq!(state.resolve(Some(&id)).unwrap_err(), ResolveError::ProfileMissing);
    assert_eq!(home(&state, Some(&id), Delivery::Cookie), Err(ProfileMissing));
    assert_eq!(home(&state, Some(&id), Delivery::Token), Err(ProfileMissing));
}

#[test]
fn concurrent_logins_return_one_id() {
    let state = AppState::new();
    assert_eq!(state.register(account("alice", "secret", "hi")), Ok(AccountCreated));
    let runtime = tokio::runtime::Builder::new_multi_thread().worker_threads(4).build().unwrap();
    let mut workers = Vec::new();
    for _ in 0..16 {
        let shared = state.clone();
        workers.push(runtime.spawn_blocking(move || {
            let mut ids = Vec::new();
            for _ in 0..50 {
                ids.push(shared.authenticate(details("alice", "secret")));
            }
            ids
        }));
    }
    let expected = session_auth::digest::derive("alice");
    for worker in workers {
        for outcome in runtime.block_on(worker).unwrap() {
            assert_eq!(outcome, Ok(expected.clone()));
        }
    }
    let (registry, lock) = state.sessions.acquire_write();
    assert_eq!(registry.resolve(&expected), Some(&"alice".to_string()));
    lock.release_write(registry);
    assert_eq!(state.resolve(Some(&expected)).unwrap().username, "alice");
}

#[test]
fn concurrent_registrations_have_one_winner() {
    let state = AppState::new();
    let runtime = tokio::runtime::Builder::new_multi_thread().worker_threads(4).build().unwrap();
    let mut workers = Vec::new();
    for worker in 0..16 {
        let shared = state.clone();
        workers.push(runtime.spawn_blocking(move || {
            shared.register(account("alice", &format!("secret{}", worker), "hi"))
        }));
    }
    let mut created = 0;
    let mut taken = 0;
    for worker in workers {
        match runtime.block_on(worker).unwrap() {
            Ok(AccountCreated) => created += 1,
            Err(UsernameTaken) => taken += 1,
        }
    }
    assert_eq!(created, 1);
    assert_eq!(taken, 15);
    let mut accepted = 0;
    for worker in 0..16 {
        if state.authenticate(details("alice", &format!("secret{}", worker))).is_ok() {
            accepted += 1;
        }
    }
    assert_eq!(accepted, 1);
}
