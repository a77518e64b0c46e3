//! The data that the engine takes in and hands out.

use vstd::prelude::*;

verus! {

/// An opaque session identifier.
pub type Session = String;

/// The unique name of an account.
pub type Username = String;

/// A credential, compared for exact equality.
pub type Password = String;

/// A request to register an account.
pub struct CreateAccount {
    pub username: Username,
    pub password: Password,
    pub bio: String,
    pub location: Option<String>,
}

/// A request to log in.
#[derive(Debug)]
pub struct LoginDetails {
    pub username: Username,
    pub password: Password,
}

/// The profile of an account.
#[derive(Debug)]
pub struct User {
    pub username: Username,
    pub bio: String,
    pub location: Option<String>,
}

/// What a [`User`] holds, as plain text.
pub struct UserView {
    pub username: Seq<char>,
    pub bio: Seq<char>,
    pub location: Option<Seq<char>>,
}

/// The text held by an optional string.
pub open spec fn text_of(value: Option<String>) -> Option<Seq<char>> {
    match value {
        Some(text) => Some(text@),
        None => None,
    }
}

impl View for User {
    type V = UserView;

    open spec fn view(&self) -> UserView {
        UserView { username: self.username@, bio: self.bio@, location: text_of(self.location) }
    }
}

impl Clone for User {
    fn clone(&self) -> (copy: Self)
        ensures
            copy@ == self@,
    {
        let location = match &self.location {
            Some(text) => Some(text.clone()),
            None => None,
        };
        User { username: self.username.clone(), bio: self.bio.clone(), location }
    }
}

} // verus!
