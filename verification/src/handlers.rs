//! The engine over shared stores, each behind a lock of its own.
//!
//! Every access takes one lock, for the time of that access only. No lock is
//! held while another store is used: a registration writes the credentials
//! and the profile in two separate critical sections, and a request that runs
//! in between sees the account without its profile.
//!
//! Since other handlers may change the stores between two accesses, the
//! contracts here state what holds of every interleaving. What each
//! operation does to given stores is stated by [`crate::engine::Engine`].

use crate::credentials::RegisteredUsers;
use crate::digest::session_id;
use crate::models::CreateAccount;
use crate::models::LoginDetails;
use crate::models::Session;
use crate::models::User;
use crate::models::UserView;
use crate::outcomes::AccountCreated;
use crate::outcomes::InvalidCredentials;
use crate::outcomes::ProfileMissing;
use crate::outcomes::ResolveError;
use crate::outcomes::UsernameTaken;
use crate::profiles::Users;
use crate::profiles::filed_by_name;
use crate::protocol::presented;
use crate::protocol::resolved;
use crate::replies::Delivery;
use crate::replies::LoginReply;
use crate::replies::greeting_text;
use crate::replies::home_reply;
use crate::replies::home_reply_view;
use crate::replies::home_text;
use crate::replies::login_reply;
use crate::replies::login_reply_view;
use crate::replies::signup_reply;
use crate::replies::signup_text;
use crate::sessions::Sessions;
use crate::sessions::ids_derived;
use std::sync::Arc;
use vstd::prelude::*;
use vstd::rwlock::RwLock;
use vstd::rwlock::RwLockPredicate;

verus! {

/// The lock on the credential store admits every store.
pub struct AnyCredentials;

impl RwLockPredicate<RegisteredUsers> for AnyCredentials {
    open spec fn inv(self, store: RegisteredUsers) -> bool {
        true
    }
}

/// The lock on the profile store admits stores whose profiles are filed
/// under the username that they carry.
pub struct ProfilesFiledByName;

impl RwLockPredicate<Users> for ProfilesFiledByName {
    open spec fn inv(self, store: Users) -> bool {
        filed_by_name(store@)
    }
}

/// The lock on the session registry admits registries whose identifiers are
/// all derived from their owners.
pub struct SessionIdsDerived;

impl RwLockPredicate<Sessions> for SessionIdsDerived {
    open spec fn inv(self, registry: Sessions) -> bool {
        ids_derived(registry@)
    }
}

/// The three stores, shared by all the handlers of a process. A clone shares
/// the same stores.
#[derive(Clone)]
pub struct AppState {
    pub registered_users: Arc<RwLock<RegisteredUsers, AnyCredentials>>,
    pub sessions: Arc<RwLock<Sessions, SessionIdsDerived>>,
    pub users: Arc<RwLock<Users, ProfilesFiledByName>>,
}

/// What a resolution of `session` can answer, whatever the stores hold: no
/// session is always "not logged in", a session never is, and a profile is
/// only handed out for the session derived from its own username.
pub open spec fn may_resolve_to(
    session: Option<Seq<char>>,
    outcome: Result<UserView, ResolveError>,
) -> bool {
    match session {
        None => outcome == Err::<UserView, ResolveError>(ResolveError::NoCredentialsPresented),
        Some(id) => match outcome {
            Ok(user) => session_id(user.username) == id,
            Err(failure) => failure != ResolveError::NoCredentialsPresented,
        },
    }
}

impl AppState {
    /// Fresh, empty stores.
    pub fn new() -> (state: Self) {
        AppState {
            registered_users: Arc::new(RwLock::new(RegisteredUsers::new(), Ghost(AnyCredentials))),
            sessions: Arc::new(RwLock::new(Sessions::new(), Ghost(SessionIdsDerived))),
            users: Arc::new(RwLock::new(Users::new(), Ghost(ProfilesFiledByName))),
        }
    }

    /// Creates the account, unless its username is taken at the moment the
    /// credential store is locked. Of two racing registrations of one
    /// username, one finds it taken.
    pub fn register(&self, account: CreateAccount) -> (outcome: Result<
        AccountCreated,
        UsernameTaken,
    >) {
        let CreateAccount { username, password, bio, location } = account;
        let (mut credentials, credentials_lock) = self.registered_users.acquire_write();
        let entered = credentials.register(username.clone(), password);
        credentials_lock.release_write(credentials);
        match entered {
            Ok(()) => {
                let (mut profiles, profiles_lock) = self.users.acquire_write();
                profiles.put(username, bio, location);
                profiles_lock.release_write(profiles);
                Ok(AccountCreated)
            },
            Err(taken) => Err(taken),
        }
    }

    /// Checks the credentials and, where they are right, hands out the
    /// session identifier of the username. Whoever logs in as one user, and
    /// whenever, gets the same identifier.
    pub fn authenticate(&self, details: LoginDetails) -> (outcome: Result<
        Session,
        InvalidCredentials,
    >)
        ensures
            outcome matches Ok(id) ==> id@ == session_id(details.username@),
    {
        let (credentials, credentials_lock) = self.registered_users.acquire_write();
        let verdict = credentials.verify(details.username.as_str(), &details.password);
        credentials_lock.release_write(credentials);
        match verdict {
            Some(true) => {
                let (mut registry, registry_lock) = self.sessions.acquire_write();
                let id = registry.issue_or_get(details.username);
                registry_lock.release_write(registry);
                Ok(id)
            },
            _ => Err(InvalidCredentials),
        }
    }

    /// The profile of the owner of the presented session.
    pub fn resolve(&self, session: Option<&str>) -> (outcome: Result<User, ResolveError>)
        ensures
            may_resolve_to(presented(session), resolved(outcome)),
    {
        let id = match session {
            None => {
                return Err(ResolveError::NoCredentialsPresented);
            },
            Some(id) => id,
        };
        let (registry, registry_lock) = self.sessions.acquire_write();
        let looked_up = match registry.resolve(id) {
            Some(name) => Some(name.clone()),
            None => None,
        };
        registry_lock.release_write(registry);
        let owner = match looked_up {
            None => {
                return Err(ResolveError::InvalidSession);
            },
            Some(owner) => owner,
        };
        let (profiles, profiles_lock) = self.users.acquire_write();
        let found = match profiles.get(owner.as_str()) {
            Some(user) => Some(user.clone()),
            None => None,
        };
        profiles_lock.release_write(profiles);
        match found {
            Some(user) => Ok(user),
            None => Err(ResolveError::ProfileMissing),
        }
    }
}

/// Registers the account and answers with the confirmation or the refusal.
pub fn signup(state: &AppState, payload: CreateAccount) -> (text: &'static str)
    ensures
        text@ == signup_text(Ok(AccountCreated)) || text@ == signup_text(Err(UsernameTaken)),
{
    signup_reply(state.register(payload))
}

/// Logs the user in and answers as `delivery` says. A reply that carries an
/// identifier carries the one derived from the username.
pub fn login(state: &AppState, payload: LoginDetails, delivery: Delivery) -> (reply: LoginReply)
    ensures
        reply@ == login_reply_view(Ok(session_id(payload.username@)), delivery) || reply@
            == login_reply_view(Err(InvalidCredentials), delivery),
{
    login_reply(state.authenticate(payload), delivery)
}

/// Greets the owner of the presented session, or advises the caller to log
/// in. The one failure is the fatal one: a session whose owner has no profile.
pub fn home(state: &AppState, session: Option<&str>, delivery: Delivery) -> (reply: Result<
    String,
    ProfileMissing,
>)
    ensures
        session is None ==> home_reply_view(reply) == home_text(
            Err(ResolveError::NoCredentialsPresented),
            delivery,
        ),
        session matches Some(id) ==> {
            ||| reply == Err::<String, ProfileMissing>(ProfileMissing)
            ||| home_reply_view(reply) == home_text(Err(ResolveError::InvalidSession), delivery)
            ||| exists|name: Seq<char>|
                session_id(name) == id@ && home_reply_view(reply) == Ok::<
                    Seq<char>,
                    ProfileMissing,
                >(#[trigger] greeting_text(name))
        },
{
    home_reply(state.resolve(session), delivery)
}

} // verus!
