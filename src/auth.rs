//! Accounts: preparing a new user's stored credentials and checking a
//! password against them.
use vstd::prelude::*;

verus! {

#[verifier::external_type_specification]
#[verifier::external_body]
pub struct ExBcryptError(bcrypt::BcryptError);

/// What bcrypt's verification gives for a password and a stored hash:
/// `Some(matches)` when the hash can be read, `None` when it cannot.
pub uninterp spec fn bcrypt_verdict(password: Seq<char>, hash: Seq<char>) -> Option<bool>;

/// Relies on bcrypt::verify, which reads the cost and salt out of `hash`,
/// hashes `password` with them and compares; it fails only when `hash` is
/// malformed or holds a cost out of range, and depends on its arguments alone.
#[verifier::external_body]
fn verify_password(password: &str, hash: &str) -> (r: Result<bool, bcrypt::BcryptError>)
    ensures
        match r {
            Ok(b) => bcrypt_verdict(password@, hash@) == Some(b),
            Err(_) => bcrypt_verdict(password@, hash@) is None,
        },
{
    bcrypt::verify(password, hash)
}

/// Relies on bcrypt::hash at bcrypt's default cost: a fresh random salt each
/// call, and a hash that bcrypt::verify accepts for the same password. It may
/// fail when no randomness can be had.
#[verifier::external_body]
fn hash_password(password: &str) -> (r: Result<String, bcrypt::BcryptError>)
    ensures
        r matches Ok(h) ==> bcrypt_verdict(password@, h@) == Some(true),
{
    bcrypt::hash(password, bcrypt::DEFAULT_COST)
}

/// The credentials of a user: at registration the password in clear, once
/// stored its hash.
pub struct CreateUserData {
    pub username: String,
    pub password: String,
}

/// Failures of account operations.
#[derive(Debug, Clone, Copy, PartialEq, Eq, Structural)]
pub enum AuthError {
    /// Unknown user or wrong password; the two are not told apart.
    Unauthorized,
    /// The password could not be hashed.
    PasswordNotAccepted,
}

/// Outcome of a login, given the stored hash of the user if the user exists.
pub open spec fn authentication_outcome(stored_hash: Option<Seq<char>>, password: Seq<char>) -> Result<
    (),
    AuthError,
> {
    match stored_hash {
        None => Err(AuthError::Unauthorized),
        Some(h) => if bcrypt_verdict(password, h) == Some(true) {
            Ok(())
        } else {
            Err(AuthError::Unauthorized)
        },
    }
}

/// Turns the verdict of password verification into the login outcome: only a
/// verified match succeeds, and every other case, a missing user (`None`)
/// included, gives the same `Unauthorized`.
pub fn authentication_verdict(verdict: Option<bool>) -> (r: Result<(), AuthError>)
    ensures
        r == (if verdict == Some(true) {
            Ok::<(), AuthError>(())
        } else {
            Err(AuthError::Unauthorized)
        }),
{
    match verdict {
        Some(true) => Ok(()),
        _ => Err(AuthError::Unauthorized),
    }
}

/// Checks `password` against the stored hash of the user, `None` when no user
/// has the given name.
pub fn authenticate(stored_hash: &Option<String>, password: &str) -> (r: Result<(), AuthError>)
    ensures
        r == authentication_outcome(
            match stored_hash {
                None => None,
                Some(h) => Some(h@),
            },
            password@,
        ),
{
    let verdict = match stored_hash {
        None => None,
        Some(h) => match verify_password(password, h.as_str()) {
            Ok(b) => Some(b),
            Err(_) => None,
        },
    };
    authentication_verdict(verdict)
}

/// Replaces the clear password of a new user by its bcrypt hash. Whatever salt
/// was drawn, the stored hash verifies against the password given.
pub fn prepare_user(data: CreateUserData) -> (r: Result<CreateUserData, AuthError>)
    ensures
        r matches Ok(u) ==> u.username == data.username && bcrypt_verdict(
            data.password@,
            u.password@,
        ) == Some(true),
        r matches Err(e) ==> e == AuthError::PasswordNotAccepted,
{
    match hash_password(data.password.as_str()) {
        Ok(h) => Ok(CreateUserData { username: data.username, password: h }),
        Err(_) => Err(AuthError::PasswordNotAccepted),
    }
}

/// A wrong password and an unknown user give one and the same outcome, and a
/// password succeeds exactly when it verifies against the stored hash.
pub proof fn lemma_failures_indistinguishable(stored_hash: Seq<char>, password: Seq<char>)
    ensures
        authentication_outcome(None, password) == Err::<(), AuthError>(AuthError::Unauthorized),
        authentication_outcome(Some(stored_hash), password) is Ok <==> bcrypt_verdict(
            password,
            stored_hash,
        ) == Some(true),
        bcrypt_verdict(password, stored_hash) != Some(true) ==> authentication_outcome(
            Some(stored_hash),
            password,
        ) == authentication_outcome(None, password),
{
}

} // verus!
