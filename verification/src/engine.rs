//! The authentication engine over stores of its own: every operation is a
//! function of what the stores hold.

use crate::credentials::RegisteredUsers;
use crate::models::CreateAccount;
use crate::models::LoginDetails;
use crate::models::Session;
use crate::models::User;
use crate::models::text_of;
use crate::outcomes::AccountCreated;
use crate::outcomes::InvalidCredentials;
use crate::outcomes::ResolveError;
use crate::outcomes::UsernameTaken;
use crate::profiles::Users;
use crate::protocol::EngineView;
use crate::protocol::authenticate_outcome;
use crate::protocol::authenticated;
use crate::protocol::consistent;
use crate::protocol::empty_stores;
use crate::protocol::issued;
use crate::protocol::presented;
use crate::protocol::register_outcome;
use crate::protocol::registered;
use crate::protocol::resolve_outcome;
use crate::protocol::resolved;
use crate::sessions::Sessions;
use vstd::prelude::*;

verus! {

/// The three stores under one owner.
pub struct Engine {
    registered_users: RegisteredUsers,
    users: Users,
    sessions: Sessions,
}

impl View for Engine {
    type V = EngineView;

    closed spec fn view(&self) -> EngineView {
        EngineView {
            credentials: self.registered_users@,
            profiles: self.users@,
            sessions: self.sessions@,
        }
    }
}

impl Engine {
    /// An engine without accounts or sessions.
    pub fn new() -> (engine: Self)
        ensures
            engine@ == empty_stores(),
            consistent(engine@),
    {
        Engine {
            registered_users: RegisteredUsers::new(),
            users: Users::new(),
            sessions: Sessions::new(),
        }
    }

    /// Creates the account, unless its username is taken. The profile is
    /// written only after the credentials were.
    pub fn register(&mut self, account: CreateAccount) -> (outcome: Result<
        AccountCreated,
        UsernameTaken,
    >)
        ensures
            outcome == register_outcome(old(self)@, account.username@),
            final(self)@ == registered(
                old(self)@,
                account.username@,
                account.password@,
                account.bio@,
                text_of(account.location),
            ),
            consistent(old(self)@) ==> consistent(final(self)@),
    {
        let CreateAccount { username, password, bio, location } = account;
        match self.registered_users.register(username.clone(), password) {
            Ok(()) => {
                self.users.put(username, bio, location);
                Ok(AccountCreated)
            },
            Err(taken) => Err(taken),
        }
    }

    /// Checks the credentials and, where they are right, hands out the
    /// session identifier of the username, entering it on a first login.
    pub fn authenticate(&mut self, details: LoginDetails) -> (outcome: Result<
        Session,
        InvalidCredentials,
    >)
        ensures
            issued(outcome) == authenticate_outcome(
                old(self)@,
                details.username@,
                details.password@,
            ),
            final(self)@ == authenticated(old(self)@, details.username@, details.password@),
            consistent(old(self)@) ==> consistent(final(self)@),
    {
        match self.registered_users.verify(details.username.as_str(), &details.password) {
            Some(true) => Ok(self.sessions.issue_or_get(details.username)),
            _ => Err(InvalidCredentials),
        }
    }

    /// The profile of the owner of the presented session.
    pub fn resolve(&self, session: Option<&str>) -> (outcome: Result<User, ResolveError>)
        ensures
            resolved(outcome) == resolve_outcome(self@, presented(session)),
            session is None ==> outcome == Err::<User, ResolveError>(
                ResolveError::NoCredentialsPresented,
            ),
            session matches Some(id) && !self@.sessions.contains_key(id@) ==> outcome == Err::<
                User,
                ResolveError,
            >(ResolveError::InvalidSession),
            consistent(self@) ==> !(outcome matches Err(ResolveError::ProfileMissing)),
    {
        match session {
            None => Err(ResolveError::NoCredentialsPresented),
            Some(id) => match self.sessions.resolve(id) {
                None => Err(ResolveError::InvalidSession),
                Some(owner) => match self.users.get(owner.as_str()) {
                    None => Err(ResolveError::ProfileMissing),
                    Some(user) => Ok(user.clone()),
                },
            },
        }
    }
}

} // verus!
