//! The credential store: which password each registered username has.
//!
//! Passwords are stored as they are given, not hashed: whoever can read the
//! store can read every password. A login compares the two texts for exact
//! equality.

use crate::models::Password;
use crate::models::Username;
use crate::outcomes::UsernameTaken;
use vstd::hash_map::StringHashMap;
use vstd::prelude::*;

verus! {

/// The authoritative mapping from username to password. An entry is made
/// once and never changed or removed.
pub struct RegisteredUsers {
    entries: StringHashMap<Password>,
}

impl View for RegisteredUsers {
    type V = Map<Seq<char>, Seq<char>>;

    closed spec fn view(&self) -> Map<Seq<char>, Seq<char>> {
        self.entries@.map_values(|password: Password| password@)
    }
}

/// What [`RegisteredUsers::verify`] answers on a store that holds `credentials`.
pub open spec fn spec_verify(
    credentials: Map<Seq<char>, Seq<char>>,
    username: Seq<char>,
    password: Seq<char>,
) -> Option<bool> {
    if credentials.contains_key(username) {
        Some(credentials[username] == password)
    } else {
        None
    }
}

impl RegisteredUsers {
    /// A store without accounts.
    pub fn new() -> (store: Self)
        ensures
            store@ == Map::<Seq<char>, Seq<char>>::empty(),
    {
        let store = RegisteredUsers { entries: StringHashMap::new() };
        assert(store@ =~= Map::<Seq<char>, Seq<char>>::empty());
        store
    }

    /// Records `password` for `username`, unless the username is taken: then
    /// nothing changes.
    pub fn register(&mut self, username: Username, password: Password) -> (outcome: Result<
        (),
        UsernameTaken,
    >)
        ensures
            old(self)@.contains_key(username@) ==> outcome == Err::<(), UsernameTaken>(
                UsernameTaken,
            ) && final(self)@ == old(self)@,
            !old(self)@.contains_key(username@) ==> outcome == Ok::<(), UsernameTaken>(())
                && final(self)@ == old(self)@.insert(username@, password@),
    {
        if self.entries.contains_key(username.as_str()) {
            Err(UsernameTaken)
        } else {
            self.entries.insert(username, password);
            assert(self@ =~= old(self)@.insert(username@, password@));
            Ok(())
        }
    }

    /// Whether `password` is the one stored for `username`; `None` where the
    /// username is unknown.
    pub fn verify(&self, username: &str, password: &Password) -> (verdict: Option<bool>)
        ensures
            verdict == spec_verify(self@, username@, password@),
    {
        match self.entries.get(username) {
            Some(stored) => Some(*stored == *password),
            None => None,
        }
    }
}

} // verus!
