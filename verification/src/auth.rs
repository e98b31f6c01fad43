//! Authentication types.  Login is a stub that always rejects; password
//! verification is not wired up yet.

use vstd::prelude::*;

verus! {

/// A stored password hash.  Deliberately not serializable.
#[derive(Clone, Debug)]
pub struct PassHash(String);

/// Failure kinds of an authentication attempt.
#[derive(Debug, Clone, Copy, PartialEq, Eq, Structural)]
pub enum AuthError {
    /// The supplied password did not match.
    IncorrectPassword,
}

/// Attempts a login.  The current implementation accepts nobody.
pub fn login() -> (r: Result<(), AuthError>)
    ensures
        r == Err::<(), AuthError>(AuthError::IncorrectPassword),
{
    Err(AuthError::IncorrectPassword)
}

} // verus!
