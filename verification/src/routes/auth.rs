//! The player sign-up and sign-in endpoints: which credentials are taken,
//! and how a sign-in attempt is answered.

use vstd::prelude::*;

use crate::auth::policy::{password_problem, username_problem, validate_password, validate_username};
use crate::error::ApiError;
use crate::text::{trim, trimmed};

verus! {

pub struct LoginRequest {
    pub username: String,
    pub password: String,
}

pub struct RegisterRequest {
    pub username: String,
    pub password: String,
}

/// What a sign-in with a blank name or password is told.
pub open spec fn missing_credentials_message() -> Seq<char> {
    "username and password are required"@
}

/// The name a sign-in is for: the typed name without surrounding white
/// space. Both it and the password must be non-empty.
pub fn sign_in_name(username: &str, password: &str) -> (name: Result<String, ApiError>)
    ensures
        name is Ok <==> trimmed(username@).len() > 0 && password@.len() > 0,
        name matches Ok(name) ==> name@ == trimmed(username@),
        name matches Err(err) ==> err matches ApiError::BadRequest(message)
            && message@ == missing_credentials_message(),
{
    let name = trim(username);
    if name.unicode_len() == 0 || password.unicode_len() == 0 {
        return Err(ApiError::BadRequest(String::from_str("username and password are required")));
    }
    Ok(String::from_str(name))
}

/// The stored hash a password is checked against: the account's own, or
/// the decoy when no account has that name, so that an unknown name costs
/// the same Argon2 work as a known one.
pub fn candidate_hash(stored: Option<String>, decoy: &str) -> (phc: String)
    ensures
        match stored {
            Some(own) => phc@ == own@,
            None => phc@ == decoy@,
        },
{
    match stored {
        Some(own) => own,
        None => String::from_str(decoy),
    }
}

/// How a player's sign-in is answered. `account` is whether the named
/// player is banned, `None` when there is no such player; `matched` is
/// whether the password checked out. An unknown name and a wrong password
/// get the same answer; only with the right password is a ban named.
pub fn player_sign_in(account: Option<bool>, matched: bool) -> (verdict: Result<(), ApiError>)
    ensures
        verdict is Ok <==> account == Some(false) && matched,
        (account is None || !matched) ==> verdict == Err::<(), ApiError>(ApiError::InvalidCredentials),
        (account == Some(true) && matched) ==> (verdict matches Err(err) && err matches ApiError::Forbidden(message)
            && message@ == "this account has been suspended"@),
{
    match account {
        None => Err(ApiError::InvalidCredentials),
        Some(banned) => {
            if !matched {
                return Err(ApiError::InvalidCredentials);
            }
            if banned {
                return Err(ApiError::Forbidden(String::from_str("this account has been suspended")));
            }
            Ok(())
        },
    }
}

impl LoginRequest {
    /// The name this sign-in is for; see [`sign_in_name`].
    pub fn name(&self) -> (name: Result<String, ApiError>)
        ensures
            name is Ok <==> trimmed(self.username@).len() > 0 && self.password@.len() > 0,
            name matches Ok(name) ==> name@ == trimmed(self.username@),
            name matches Err(err) ==> err matches ApiError::BadRequest(message)
                && message@ == missing_credentials_message(),
    {
        sign_in_name(self.username.as_str(), self.password.as_str())
    }
}

impl RegisterRequest {
    /// The name to register: the typed name without surrounding white
    /// space, held to the username rules, with the password held to the
    /// password rules. A bad name is reported before a bad password.
    pub fn name(&self) -> (name: Result<String, ApiError>)
        ensures
            name is Ok <==> username_problem(trimmed(self.username@)) is None
                && password_problem(self.password@) is None,
            name matches Ok(name) ==> name@ == trimmed(self.username@),
            name matches Err(err) ==> err matches ApiError::BadRequest(message) && Some(message@) == (
            if username_problem(trimmed(self.username@)) is Some {
                username_problem(trimmed(self.username@))
            } else {
                password_problem(self.password@)
            }),
    {
        let name = trim(self.username.as_str());
        match validate_username(name) {
            Err(message) => return Err(ApiError::BadRequest(message)),
            Ok(()) => {},
        }
        match validate_password(self.password.as_str()) {
            Err(message) => return Err(ApiError::BadRequest(message)),
            Ok(()) => {},
        }
        Ok(String::from_str(name))
    }
}

} // verus!
