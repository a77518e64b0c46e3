//! The profile store: the public attributes of each account.

use crate::models::User;
use crate::models::UserView;
use crate::models::Username;
use crate::models::text_of;
use vstd::hash_map::StringHashMap;
use vstd::prelude::*;

verus! {

/// The mapping from username to profile. It is written only right after a
/// successful registration of the same username.
pub struct Users {
    entries: StringHashMap<User>,
}

impl View for Users {
    type V = Map<Seq<char>, UserView>;

    closed spec fn view(&self) -> Map<Seq<char>, UserView> {
        self.entries@.map_values(|user: User| user@)
    }
}

/// Every profile is filed under the username that it carries.
pub open spec fn filed_by_name(profiles: Map<Seq<char>, UserView>) -> bool {
    forall|name: Seq<char>| #[trigger]
        profiles.contains_key(name) ==> profiles[name].username == name
}

/// What [`Users::get`] finds in a store that holds `profiles`.
pub open spec fn spec_get(profiles: Map<Seq<char>, UserView>, username: Seq<char>) -> Option<
    UserView,
> {
    if profiles.contains_key(username) {
        Some(profiles[username])
    } else {
        None
    }
}

impl Users {
    /// A store without profiles.
    pub fn new() -> (store: Self)
        ensures
            store@ == Map::<Seq<char>, UserView>::empty(),
    {
        let store = Users { entries: StringHashMap::new() };
        assert(store@ =~= Map::<Seq<char>, UserView>::empty());
        store
    }

    /// Files the profile of `username`, replacing an earlier one.
    pub fn put(&mut self, username: Username, bio: String, location: Option<String>)
        ensures
            final(self)@ == old(self)@.insert(
                username@,
                UserView { username: username@, bio: bio@, location: text_of(location) },
            ),
            filed_by_name(old(self)@) ==> filed_by_name(final(self)@),
    {
        let user = User { username: username.clone(), bio, location };
        self.entries.insert(username, user);
        assert(self@ =~= old(self)@.insert(
            username@,
            UserView { username: username@, bio: bio@, location: text_of(location) },
        ));
    }

    /// The profile filed under `username`, if there is one.
    pub fn get(&self, username: &str) -> (found: Option<&User>)
        ensures
            match found {
                Some(user) => Some(user@),
                None => None,
            } == spec_get(self@, username@),
    {
        self.entries.get(username)
    }
}

} // verus!
