//! What a client is told: the fixed texts, the greeting and the session
//! cookie, for each outcome of the three operations.

use crate::models::Session;
use crate::models::User;
use crate::models::UserView;
use crate::outcomes::AccountCreated;
use crate::outcomes::InvalidCredentials;
use crate::outcomes::ProfileMissing;
use crate::outcomes::ResolveError;
use crate::outcomes::UsernameTaken;
use crate::protocol::resolved;
use vstd::prelude::*;
use vstd::string::StringExecFns;

verus! {

/// The confirmation of a registration.
pub const ACCOUNT_CREATED: &'static str = "Account created successfully";

/// The refusal of a registration whose username has an account.
pub const USERNAME_TAKEN: &'static str = "Username is taken!";

/// The refusal of a login.
pub const WRONG_COMBINATION: &'static str = "Username and password combination is wrong";

/// The confirmation of a login whose session travels in a cookie.
pub const LOGGED_IN: &'static str = "You're logged in";

/// The advice to a caller that presented no session.
pub const NOT_LOGGED_IN: &'static str =
    "Not logged in. Log in by going to /login or create an account at /signup";

/// The advice to a caller whose session cookie is not in the registry.
pub const SESSION_INVALID: &'static str = "Session is invalid. Please log in by going to /login";

/// The advice to a caller whose bearer token is not in the registry.
pub const TOKEN_INVALID: &'static str = "Token is invalid";

/// How the session identifier travels between server and client.
#[derive(Clone, Copy, Debug, PartialEq, Eq, Structural)]
pub enum Delivery {
    /// The server sets a cookie named `sid`; the client sends it back.
    Cookie,
    /// The server answers with the identifier as the body; the client sends
    /// it back as a bearer token.
    Token,
}

/// The answer to a login request.
#[derive(Debug)]
pub struct LoginReply {
    /// The status code: 200, or 401 for a refusal in cookie mode.
    pub status: u16,
    /// The cookie directive to set, if any.
    pub set_cookie: Option<String>,
    /// The body.
    pub body: String,
}

/// A [`LoginReply`] as plain text.
pub struct LoginReplyView {
    pub status: u16,
    pub set_cookie: Option<Seq<char>>,
    pub body: Seq<char>,
}

impl View for LoginReply {
    type V = LoginReplyView;

    open spec fn view(&self) -> LoginReplyView {
        LoginReplyView {
            status: self.status,
            set_cookie: crate::models::text_of(self.set_cookie),
            body: self.body@,
        }
    }
}

/// The greeting of a resolved user.
pub open spec fn greeting_text(username: Seq<char>) -> Seq<char> {
    "Hello, "@ + username + "!"@
}

/// The directive that sets the session cookie.
pub open spec fn cookie_text(id: Seq<char>) -> Seq<char> {
    "sid="@ + id
}

/// The text that answers a registration.
pub open spec fn signup_text(outcome: Result<AccountCreated, UsernameTaken>) -> Seq<char> {
    match outcome {
        Ok(_) => ACCOUNT_CREATED@,
        Err(_) => USERNAME_TAKEN@,
    }
}

/// The reply that answers a login.
pub open spec fn login_reply_view(
    outcome: Result<Seq<char>, InvalidCredentials>,
    delivery: Delivery,
) -> LoginReplyView {
    match (outcome, delivery) {
        (Ok(id), Delivery::Cookie) => LoginReplyView {
            status: 200,
            set_cookie: Some(cookie_text(id)),
            body: LOGGED_IN@,
        },
        (Ok(id), Delivery::Token) => LoginReplyView { status: 200, set_cookie: None, body: id },
        (Err(_), Delivery::Cookie) => LoginReplyView {
            status: 401,
            set_cookie: None,
            body: WRONG_COMBINATION@,
        },
        (Err(_), Delivery::Token) => LoginReplyView {
            status: 200,
            set_cookie: None,
            body: WRONG_COMBINATION@,
        },
    }
}

/// The text that answers a resolution, or the fatal failure.
pub open spec fn home_text(outcome: Result<UserView, ResolveError>, delivery: Delivery) -> Result<
    Seq<char>,
    ProfileMissing,
> {
    match outcome {
        Ok(user) => Ok(greeting_text(user.username)),
        Err(ResolveError::NoCredentialsPresented) => Ok(NOT_LOGGED_IN@),
        Err(ResolveError::InvalidSession) => match delivery {
            Delivery::Cookie => Ok(SESSION_INVALID@),
            Delivery::Token => Ok(TOKEN_INVALID@),
        },
        Err(ResolveError::ProfileMissing) => Err(ProfileMissing),
    }
}

/// A home reply with its text as characters.
pub open spec fn home_reply_view(reply: Result<String, ProfileMissing>) -> Result<
    Seq<char>,
    ProfileMissing,
> {
    match reply {
        Ok(text) => Ok(text@),
        Err(fatal) => Err(fatal),
    }
}

/// Greets `username`.
pub fn greeting(username: &str) -> (text: String)
    ensures
        text@ == greeting_text(username@),
{
    let mut text = "Hello, ".to_owned();
    text.append(username);
    text.append("!");
    text
}

/// The `set-cookie` directive for the session `id`.
pub fn session_cookie(id: &str) -> (text: String)
    ensures
        text@ == cookie_text(id@),
{
    let mut text = "sid=".to_owned();
    text.append(id);
    text
}

/// Answers a registration.
pub fn signup_reply(outcome: Result<AccountCreated, UsernameTaken>) -> (text: &'static str)
    ensures
        text@ == signup_text(outcome),
{
    match outcome {
        Ok(_) => ACCOUNT_CREATED,
        Err(_) => USERNAME_TAKEN,
    }
}

/// Answers a login: a success carries the identifier as `delivery` says, a
/// refusal carries the same text for an unknown user and a wrong password.
pub fn login_reply(outcome: Result<Session, InvalidCredentials>, delivery: Delivery) -> (reply:
    LoginReply)
    ensures
        reply@ == login_reply_view(crate::protocol::issued(outcome), delivery),
{
    match outcome {
        Ok(id) => match delivery {
            Delivery::Cookie => LoginReply {
                status: 200,
                set_cookie: Some(session_cookie(id.as_str())),
                body: LOGGED_IN.to_owned(),
            },
            Delivery::Token => LoginReply { status: 200, set_cookie: None, body: id },
        },
        Err(_) => match delivery {
            Delivery::Cookie => LoginReply {
                status: 401,
                set_cookie: None,
                body: WRONG_COMBINATION.to_owned(),
            },
            Delivery::Token => LoginReply {
                status: 200,
                set_cookie: None,
                body: WRONG_COMBINATION.to_owned(),
            },
        },
    }
}

/// Answers a resolution: a greeting, an advice, or the fatal failure.
pub fn home_reply(outcome: Result<User, ResolveError>, delivery: Delivery) -> (reply: Result<
    String,
    ProfileMissing,
>)
    ensures
        home_reply_view(reply) == home_text(resolved(outcome), delivery),
{
    match outcome {
        Ok(user) => Ok(greeting(user.username.as_str())),
        Err(ResolveError::NoCredentialsPresented) => Ok(NOT_LOGGED_IN.to_owned()),
        Err(ResolveError::InvalidSession) => match delivery {
            Delivery::Cookie => Ok(SESSION_INVALID.to_owned()),
            Delivery::Token => Ok(TOKEN_INVALID.to_owned()),
        },
        Err(ResolveError::ProfileMissing) => Err(ProfileMissing),
    }
}

} // verus!
