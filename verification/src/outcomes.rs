//! How the three operations end.

use vstd::prelude::*;

verus! {

/// A registration succeeded.
#[derive(Debug, PartialEq, Eq, Structural)]
pub struct AccountCreated;

/// A registration was refused because the username already has an account.
#[derive(Debug, PartialEq, Eq, Structural)]
pub struct UsernameTaken;

/// A login was refused. An unknown username and a wrong password give this
/// same answer, so that a caller cannot probe which usernames exist.
#[derive(Debug, PartialEq, Eq, Structural)]
pub struct InvalidCredentials;

/// Why a session could not be resolved to a profile.
#[derive(Debug, PartialEq, Eq, Structural)]
pub enum ResolveError {
    /// The caller presented no session identifier: it is not logged in.
    NoCredentialsPresented,
    /// The identifier presented is not in the session registry.
    InvalidSession,
    /// The registry names an owner that has no profile. The stores contradict
    /// each other; callers treat this as fatal, not as a missing account.
    ProfileMissing,
}

/// A resolution found a session whose owner has no profile: the stores
/// contradict each other. There is no text for this; the caller is expected
/// to stop.
#[derive(Debug, PartialEq, Eq, Structural)]
pub struct ProfileMissing;

} // verus!
