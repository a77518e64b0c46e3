//! The three operations (register, authenticate, resolve) as functions on
//! the contents of the three stores.

use crate::digest::session_id;
use crate::models::Session;
use crate::models::User;
use crate::models::UserView;
use crate::outcomes::AccountCreated;
use crate::outcomes::InvalidCredentials;
use crate::outcomes::ResolveError;
use crate::outcomes::UsernameTaken;
use crate::profiles::filed_by_name;
use crate::sessions::ids_derived;
use crate::sessions::spec_issue;
use vstd::prelude::*;

verus! {

/// What the three stores hold.
pub struct EngineView {
    /// Username to password.
    pub credentials: Map<Seq<char>, Seq<char>>,
    /// Username to profile.
    pub profiles: Map<Seq<char>, UserView>,
    /// Session identifier to owner.
    pub sessions: Map<Seq<char>, Seq<char>>,
}

/// Three empty stores.
pub open spec fn empty_stores() -> EngineView {
    EngineView { credentials: Map::empty(), profiles: Map::empty(), sessions: Map::empty() }
}

/// The stores agree with each other: identifiers are derived from their
/// owners, profiles are filed by name, every account has a profile and every
/// session belongs to an account.
pub open spec fn consistent(stores: EngineView) -> bool {
    &&& ids_derived(stores.sessions)
    &&& filed_by_name(stores.profiles)
    &&& forall|name: Seq<char>| #[trigger]
        stores.credentials.contains_key(name) ==> stores.profiles.contains_key(name)
    &&& forall|id: Seq<char>| #[trigger]
        stores.sessions.contains_key(id) ==> stores.credentials.contains_key(stores.sessions[id])
}

/// How a registration of `username` ends.
pub open spec fn register_outcome(stores: EngineView, username: Seq<char>) -> Result<
    AccountCreated,
    UsernameTaken,
> {
    if stores.credentials.contains_key(username) {
        Err(UsernameTaken)
    } else {
        Ok(AccountCreated)
    }
}

/// The stores after a registration: unchanged where the username is taken,
/// else with the password and the profile entered under the username.
pub open spec fn registered(
    stores: EngineView,
    username: Seq<char>,
    password: Seq<char>,
    bio: Seq<char>,
    location: Option<Seq<char>>,
) -> EngineView {
    if stores.credentials.contains_key(username) {
        stores
    } else {
        EngineView {
            credentials: stores.credentials.insert(username, password),
            profiles: stores.profiles.insert(username, UserView { username, bio, location }),
            sessions: stores.sessions,
        }
    }
}

/// How a login ends: with the session identifier of the username where the
/// pair is registered, else refused.
pub open spec fn authenticate_outcome(
    stores: EngineView,
    username: Seq<char>,
    password: Seq<char>,
) -> Result<Seq<char>, InvalidCredentials> {
    if stores.credentials.contains_pair(username, password) {
        Ok(session_id(username))
    } else {
        Err(InvalidCredentials)
    }
}

/// The stores after a login: a successful one issues the session, a refused
/// one changes nothing.
pub open spec fn authenticated(
    stores: EngineView,
    username: Seq<char>,
    password: Seq<char>,
) -> EngineView {
    if stores.credentials.contains_pair(username, password) {
        EngineView {
            credentials: stores.credentials,
            profiles: stores.profiles,
            sessions: spec_issue(stores.sessions, username),
        }
    } else {
        stores
    }
}

/// How the resolution of a presented session ends.
pub open spec fn resolve_outcome(stores: EngineView, session: Option<Seq<char>>) -> Result<
    UserView,
    ResolveError,
> {
    match session {
        None => Err(ResolveError::NoCredentialsPresented),
        Some(id) => {
            if !stores.sessions.contains_key(id) {
                Err(ResolveError::InvalidSession)
            } else if !stores.profiles.contains_key(stores.sessions[id]) {
                Err(ResolveError::ProfileMissing)
            } else {
                Ok(stores.profiles[stores.sessions[id]])
            }
        },
    }
}

/// A request that may change the stores.
pub enum Step {
    /// A registration.
    Register {
        username: Seq<char>,
        password: Seq<char>,
        bio: Seq<char>,
        location: Option<Seq<char>>,
    },
    /// A login.
    Authenticate { username: Seq<char>, password: Seq<char> },
}

/// The stores after one request.
pub open spec fn step(stores: EngineView, request: Step) -> EngineView {
    match request {
        Step::Register { username, password, bio, location } => registered(
            stores,
            username,
            password,
            bio,
            location,
        ),
        Step::Authenticate { username, password } => authenticated(stores, username, password),
    }
}

/// The stores after a sequence of requests, served one after the other.
pub open spec fn run(stores: EngineView, requests: Seq<Step>) -> EngineView
    decreases requests.len(),
{
    if requests.len() == 0 {
        stores
    } else {
        step(run(stores, requests.drop_last()), requests.last())
    }
}

/// The identifiers that the registry holds for `owner`.
pub open spec fn owned_sessions(sessions: Map<Seq<char>, Seq<char>>, owner: Seq<char>) -> Set<
    Seq<char>,
> {
    Set::new(|id: Seq<char>| sessions.contains_pair(id, owner))
}

/// No other username holds the identifier that `username` derives. This
/// fails only where two usernames have the same digest and the other one
/// logged in first.
pub open spec fn id_free_for(sessions: Map<Seq<char>, Seq<char>>, username: Seq<char>) -> bool {
    sessions.contains_key(session_id(username)) ==> sessions[session_id(username)] == username
}

/// The text of a presented session.
pub open spec fn presented(session: Option<&str>) -> Option<Seq<char>> {
    match session {
        Some(id) => Some(id@),
        None => None,
    }
}

/// A login's result with the identifier as text.
pub open spec fn issued(outcome: Result<Session, InvalidCredentials>) -> Result<
    Seq<char>,
    InvalidCredentials,
> {
    match outcome {
        Ok(id) => Ok(id@),
        Err(refusal) => Err(refusal),
    }
}

/// A resolution's result with the profile as text.
pub open spec fn resolved(outcome: Result<User, ResolveError>) -> Result<UserView, ResolveError> {
    match outcome {
        Ok(user) => Ok(user@),
        Err(failure) => Err(failure),
    }
}

} // verus!
