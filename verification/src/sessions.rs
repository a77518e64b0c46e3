//! The session registry: which username each issued identifier stands for.

use crate::digest::session_id;
use crate::models::Session;
use crate::models::Username;
use vstd::hash_map::StringHashMap;
use vstd::prelude::*;

verus! {

/// The authoritative mapping from session identifier to owner. Entries are
/// never changed or removed once made.
pub struct Sessions {
    entries: StringHashMap<Username>,
}

impl View for Sessions {
    type V = Map<Seq<char>, Seq<char>>;

    closed spec fn view(&self) -> Map<Seq<char>, Seq<char>> {
        self.entries@.map_values(|owner: Username| owner@)
    }
}

/// Every identifier in the registry is the one derived from its owner.
pub open spec fn ids_derived(sessions: Map<Seq<char>, Seq<char>>) -> bool {
    forall|id: Seq<char>| #[trigger] sessions.contains_key(id) ==> id == session_id(sessions[id])
}

/// The registry after a login of `username`: unchanged where the derived
/// identifier is already present, else with that identifier added.
pub open spec fn spec_issue(sessions: Map<Seq<char>, Seq<char>>, username: Seq<char>) -> Map<
    Seq<char>,
    Seq<char>,
> {
    if sessions.contains_key(session_id(username)) {
        sessions
    } else {
        sessions.insert(session_id(username), username)
    }
}

/// What [`Sessions::resolve`] finds in a registry that holds `sessions`.
pub open spec fn spec_owner(sessions: Map<Seq<char>, Seq<char>>, id: Seq<char>) -> Option<
    Seq<char>,
> {
    if sessions.contains_key(id) {
        Some(sessions[id])
    } else {
        None
    }
}

impl Sessions {
    /// A registry without sessions.
    pub fn new() -> (registry: Self)
        ensures
            registry@ == Map::<Seq<char>, Seq<char>>::empty(),
    {
        let registry = Sessions { entries: StringHashMap::new() };
        assert(registry@ =~= Map::<Seq<char>, Seq<char>>::empty());
        registry
    }

    /// The session identifier of `username`. A first login enters it into the
    /// registry; a later one finds it there and changes nothing.
    pub fn issue_or_get(&mut self, username: Username) -> (id: Session)
        ensures
            id@ == session_id(username@),
            final(self)@ == spec_issue(old(self)@, username@),
            ids_derived(old(self)@) ==> ids_derived(final(self)@),
    {
        let id = crate::digest::derive(username.as_str());
        if self.entries.contains_key(id.as_str()) {
            return id;
        }
        self.entries.insert(id.clone(), username);
        assert(self@ =~= old(self)@.insert(id@, username@));
        id
    }

    /// The owner of the session `id`, if the registry holds it.
    pub fn resolve(&self, id: &str) -> (owner: Option<&Username>)
        ensures
            match owner {
                Some(name) => Some(name@),
                None => None,
            } == spec_owner(self@, id@),
    {
        self.entries.get(id)
    }
}

} // verus!
