//! What holds of the three operations, whatever the stores hold and
//! whatever requests are served in between.

use crate::digest::decimal;
use crate::digest::digit_char;
use crate::digest::session_id;
use crate::digest::spec_calculate_hash;
use crate::models::UserView;
use crate::outcomes::AccountCreated;
use crate::outcomes::InvalidCredentials;
use crate::outcomes::ResolveError;
use crate::outcomes::UsernameTaken;
use crate::protocol::EngineView;
use crate::protocol::Step;
use crate::protocol::authenticate_outcome;
use crate::protocol::authenticated;
use crate::protocol::consistent;
use crate::protocol::id_free_for;
use crate::protocol::owned_sessions;
use crate::protocol::register_outcome;
use crate::protocol::registered;
use crate::protocol::resolve_outcome;
use crate::protocol::run;
use crate::sessions::ids_derived;
use vstd::prelude::*;

verus! {

/// A decimal numeral has at least one digit.
pub proof fn decimal_is_not_empty(n: nat)
    ensures
        decimal(n).len() >= 1,
    decreases n,
{
    if n >= 10 {
        decimal_is_not_empty(n / 10);
    }
}

/// Different digits are written with different characters.
pub proof fn digit_char_is_injective(c: nat, d: nat)
    requires
        c < 10,
        d < 10,
        digit_char(c) == digit_char(d),
    ensures
        c == d,
{
}

/// Different numbers have different decimal numerals.
pub proof fn decimal_is_injective(a: nat, b: nat)
    requires
        decimal(a) == decimal(b),
    ensures
        a == b,
    decreases a,
{
    if a < 10 && b < 10 {
        assert(decimal(a)[0] == digit_char(a));
        assert(decimal(b)[0] == digit_char(b));
        digit_char_is_injective(a, b);
    } else if a < 10 {
        decimal_is_not_empty(b / 10);
        assert(decimal(a).len() == 1);
        assert(decimal(b).len() == decimal(b / 10).len() + 1);
    } else if b < 10 {
        decimal_is_not_empty(a / 10);
        assert(decimal(b).len() == 1);
        assert(decimal(a).len() == decimal(a / 10).len() + 1);
    } else {
        let shorter_a = decimal(a / 10);
        let shorter_b = decimal(b / 10);
        let last_a = digit_char(a % 10);
        let last_b = digit_char(b % 10);
        assert(decimal(a) == shorter_a.push(last_a));
        assert(decimal(b) == shorter_b.push(last_b));
        assert(shorter_a.push(last_a).drop_last() =~= shorter_a);
        assert(shorter_b.push(last_b).drop_last() =~= shorter_b);
        assert(shorter_a.push(last_a).last() == last_a);
        assert(shorter_b.push(last_b).last() == last_b);
        assert(shorter_a == shorter_b);
        assert(last_a == last_b);
        decimal_is_injective(a / 10, b / 10);
        digit_char_is_injective(a % 10, b % 10);
        assert(a == 10 * (a / 10) + a % 10);
        assert(b == 10 * (b / 10) + b % 10);
    }
}

/// Two usernames derive the same session identifier exactly where they have
/// the same digest: writing the digest in decimal adds no collision.
pub proof fn session_ids_collide_only_with_digests(first: Seq<char>, second: Seq<char>)
    ensures
        session_id(first) == session_id(second) <==> spec_calculate_hash(first)
            == spec_calculate_hash(second),
{
    if session_id(first) == session_id(second) {
        decimal_is_injective(
            spec_calculate_hash(first) as nat,
            spec_calculate_hash(second) as nat,
        );
    }
}

/// No request breaks the agreement of the stores.
pub proof fn consistency_is_kept(stores: EngineView, requests: Seq<Step>)
    requires
        consistent(stores),
    ensures
        consistent(run(stores, requests)),
    decreases requests.len(),
{
    if requests.len() > 0 {
        consistency_is_kept(stores, requests.drop_last());
    }
}

/// Accounts, profiles of accounts and sessions are never changed or removed.
pub proof fn entries_are_kept(stores: EngineView, requests: Seq<Step>)
    ensures
        forall|name: Seq<char>| #[trigger]
            stores.credentials.contains_key(name) ==> run(
                stores,
                requests,
            ).credentials.contains_pair(name, stores.credentials[name]),
        forall|name: Seq<char>|
            stores.credentials.contains_key(name) && #[trigger] stores.profiles.contains_key(name)
                ==> run(stores, requests).profiles.contains_pair(name, stores.profiles[name]),
        forall|id: Seq<char>| #[trigger]
            stores.sessions.contains_key(id) ==> run(stores, requests).sessions.contains_pair(
                id,
                stores.sessions[id],
            ),
    decreases requests.len(),
{
    if requests.len() > 0 {
        entries_are_kept(stores, requests.drop_last());
    }
}

/// Serving two sequences one after the other is serving their concatenation.
pub proof fn run_of_concat(stores: EngineView, first: Seq<Step>, second: Seq<Step>)
    ensures
        run(stores, first + second) == run(run(stores, first), second),
    decreases second.len(),
{
    if second.len() == 0 {
        assert(first + second =~= first);
    } else {
        run_of_concat(stores, first, second.drop_last());
        assert((first + second).drop_last() =~= first + second.drop_last());
        assert((first + second).last() == second.last());
    }
}

/// No request enters an identifier that is not derived from its owner.
pub proof fn ids_stay_derived(stores: EngineView, requests: Seq<Step>)
    requires
        ids_derived(stores.sessions),
    ensures
        ids_derived(run(stores, requests).sessions),
    decreases requests.len(),
{
    if requests.len() > 0 {
        ids_stay_derived(stores, requests.drop_last());
    }
}

/// Registering a username twice: the second registration is refused and
/// changes nothing, whatever it carries, so what the first one entered stays.
pub proof fn second_registration_is_refused(
    stores: EngineView,
    username: Seq<char>,
    first_password: Seq<char>,
    first_bio: Seq<char>,
    first_location: Option<Seq<char>>,
    second_password: Seq<char>,
    second_bio: Seq<char>,
    second_location: Option<Seq<char>>,
)
    ensures
        ({
            let after_first = registered(
                stores,
                username,
                first_password,
                first_bio,
                first_location,
            );
            &&& register_outcome(after_first, username) == Err::<AccountCreated, UsernameTaken>(
                UsernameTaken,
            )
            &&& registered(after_first, username, second_password, second_bio, second_location)
                == after_first
            &&& register_outcome(stores, username) is Ok ==> {
                &&& after_first.credentials.contains_pair(username, first_password)
                &&& after_first.profiles.contains_pair(
                    username,
                    UserView { username, bio: first_bio, location: first_location },
                )
            }
        }),
{
}

/// A registered pair logs in, now and after any further requests.
pub proof fn registered_pair_logs_in(
    stores: EngineView,
    requests: Seq<Step>,
    username: Seq<char>,
    password: Seq<char>,
)
    requires
        stores.credentials.contains_pair(username, password),
    ensures
        authenticate_outcome(run(stores, requests), username, password) == Ok::<
            Seq<char>,
            InvalidCredentials,
        >(session_id(username)),
{
    entries_are_kept(stores, requests);
}

/// An account that was just created logs in with the password it was
/// created with.
pub proof fn new_account_logs_in(
    stores: EngineView,
    username: Seq<char>,
    password: Seq<char>,
    bio: Seq<char>,
    location: Option<Seq<char>>,
)
    requires
        register_outcome(stores, username) is Ok,
    ensures
        authenticate_outcome(
            registered(stores, username, password, bio, location),
            username,
            password,
        ) == Ok::<Seq<char>, InvalidCredentials>(session_id(username)),
{
}

/// A wrong password and an unknown username are refused alike, and neither
/// login changes anything.
pub proof fn refused_logins_are_alike(
    stores: EngineView,
    known: Seq<char>,
    wrong_password: Seq<char>,
    unknown: Seq<char>,
    any_password: Seq<char>,
)
    requires
        stores.credentials.contains_key(known),
        stores.credentials[known] != wrong_password,
        !stores.credentials.contains_key(unknown),
    ensures
        authenticate_outcome(stores, known, wrong_password) == Err::<
            Seq<char>,
            InvalidCredentials,
        >(InvalidCredentials),
        authenticate_outcome(stores, unknown, any_password) == authenticate_outcome(
            stores,
            known,
            wrong_password,
        ),
        authenticated(stores, known, wrong_password) == stores,
        authenticated(stores, unknown, any_password) == stores,
{
}

/// A second login with the same credentials returns the same identifier and
/// changes nothing.
pub proof fn login_is_idempotent(stores: EngineView, username: Seq<char>, password: Seq<char>)
    ensures
        ({
            let once = authenticated(stores, username, password);
            &&& authenticate_outcome(once, username, password) == authenticate_outcome(
                stores,
                username,
                password,
            )
            &&& authenticated(once, username, password) == once
        }),
{
}

/// Any number of logins in a row leaves the stores as one login does.
pub proof fn repeated_logins_are_one(
    stores: EngineView,
    username: Seq<char>,
    password: Seq<char>,
    count: nat,
)
    requires
        count >= 1,
    ensures
        run(stores, Seq::new(count, |i: int| Step::Authenticate { username, password }))
            == authenticated(stores, username, password),
    decreases count,
{
    let login = Step::Authenticate { username, password };
    let logins = Seq::new(count, |i: int| login);
    let fewer = Seq::new((count - 1) as nat, |i: int| login);
    assert(logins.drop_last() =~= fewer);
    assert(logins.last() == login);
    if count > 1 {
        repeated_logins_are_one(stores, username, password, (count - 1) as nat);
        login_is_idempotent(stores, username, password);
    } else {
        assert(run(stores, fewer) == stores);
    }
}

/// The registry never holds two sessions for one owner: the only identifier
/// that an owner can hold is the one derived from its name.
pub proof fn one_session_per_owner(sessions: Map<Seq<char>, Seq<char>>, owner: Seq<char>)
    requires
        ids_derived(sessions),
    ensures
        owned_sessions(sessions, owner).subset_of(set![session_id(owner)]),
        owned_sessions(sessions, owner).finite(),
        owned_sessions(sessions, owner).len() <= 1,
        sessions.contains_pair(session_id(owner), owner) ==> owned_sessions(sessions, owner)
            == set![session_id(owner)] && owned_sessions(sessions, owner).len() == 1,
{
    let owned = owned_sessions(sessions, owner);
    let only = set![session_id(owner)];
    assert(owned.subset_of(only));
    vstd::set_lib::lemma_len_subset(owned, only);
    if sessions.contains_pair(session_id(owner), owner) {
        assert(owned =~= only);
    }
}

/// After one login or many, the registry holds exactly one session for the
/// user, provided that no other username held the identifier before.
pub proof fn login_leaves_one_session(
    stores: EngineView,
    username: Seq<char>,
    password: Seq<char>,
    count: nat,
)
    requires
        ids_derived(stores.sessions),
        id_free_for(stores.sessions, username),
        stores.credentials.contains_pair(username, password),
        count >= 1,
    ensures
        ({
            let after = run(
                stores,
                Seq::new(count, |i: int| Step::Authenticate { username, password }),
            );
            &&& owned_sessions(after.sessions, username) == set![session_id(username)]
            &&& owned_sessions(after.sessions, username).len() == 1
        }),
{
    repeated_logins_are_one(stores, username, password, count);
    let after = authenticated(stores, username, password);
    one_session_per_owner(after.sessions, username);
}

/// The identifier that a login returned resolves to the profile of the user
/// who logged in, now and after any further requests, provided that no other
/// username held the identifier before.
pub proof fn session_resolves_to_its_user(
    stores: EngineView,
    requests: Seq<Step>,
    username: Seq<char>,
    password: Seq<char>,
)
    requires
        consistent(stores),
        id_free_for(stores.sessions, username),
        stores.credentials.contains_pair(username, password),
    ensures
        ({
            let after = run(authenticated(stores, username, password), requests);
            &&& resolve_outcome(after, Some(session_id(username))) == Ok::<UserView, ResolveError>(
                stores.profiles[username],
            )
            &&& stores.profiles[username].username == username
        }),
{
    let logged_in = authenticated(stores, username, password);
    entries_are_kept(logged_in, requests);
    assert(logged_in.sessions.contains_key(session_id(username)));
    assert(logged_in.credentials.contains_key(username));
    assert(logged_in.profiles.contains_key(username));
}

/// While the stores agree with each other, no resolution finds a session
/// whose owner has no profile.
pub proof fn profile_is_never_missing(stores: EngineView, session: Option<Seq<char>>)
    requires
        consistent(stores),
    ensures
        resolve_outcome(stores, session) != Err::<UserView, ResolveError>(
            ResolveError::ProfileMissing,
        ),
        resolve_outcome(stores, session) matches Ok(user) ==> session matches Some(id)
            && stores.sessions.contains_pair(id, user.username),
{
}

/// Logins of one registered pair agree wherever they stand among other
/// requests: each returns the identifier derived from the username, and from
/// the first of them on the registry holds that identifier.
pub proof fn logins_agree_in_any_order(
    stores: EngineView,
    requests: Seq<Step>,
    username: Seq<char>,
    password: Seq<char>,
    position: int,
)
    requires
        stores.credentials.contains_pair(username, password),
        0 <= position < requests.len(),
        requests[position] == (Step::Authenticate { username, password }),
    ensures
        authenticate_outcome(run(stores, requests.take(position)), username, password) == Ok::<
            Seq<char>,
            InvalidCredentials,
        >(session_id(username)),
        run(stores, requests).sessions.contains_key(session_id(username)),
{
    let before = requests.take(position);
    let upto = requests.take(position + 1);
    let rest = requests.skip(position + 1);
    registered_pair_logs_in(stores, before, username, password);
    assert(upto.drop_last() =~= before);
    assert(upto.last() == requests[position]);
    assert(run(stores, upto).sessions.contains_key(session_id(username)));
    run_of_concat(stores, upto, rest);
    assert(upto + rest =~= requests);
    entries_are_kept(run(stores, upto), rest);
}

/// Among whatever other requests a login of a registered pair is served, the
/// registry ends with exactly one session for the user, provided that no other
/// username held the identifier at the moment of that login.
pub proof fn login_leaves_one_session_in_any_order(
    stores: EngineView,
    requests: Seq<Step>,
    username: Seq<char>,
    password: Seq<char>,
    position: int,
)
    requires
        ids_derived(stores.sessions),
        stores.credentials.contains_pair(username, password),
        0 <= position < requests.len(),
        requests[position] == (Step::Authenticate { username, password }),
        id_free_for(run(stores, requests.take(position)).sessions, username),
    ensures
        owned_sessions(run(stores, requests).sessions, username) == set![session_id(username)],
        owned_sessions(run(stores, requests).sessions, username).len() == 1,
{
    let before = requests.take(position);
    let upto = requests.take(position + 1);
    let rest = requests.skip(position + 1);
    registered_pair_logs_in(stores, before, username, password);
    assert(upto.drop_last() =~= before);
    assert(upto.last() == requests[position]);
    assert(run(stores, upto).sessions.contains_pair(session_id(username), username));
    run_of_concat(stores, upto, rest);
    assert(upto + rest =~= requests);
    entries_are_kept(run(stores, upto), rest);
    ids_stay_derived(stores, requests);
    one_session_per_owner(run(stores, requests).sessions, username);
}

} // verus!
