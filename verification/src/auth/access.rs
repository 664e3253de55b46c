//! Who a verified token lets in. Players and operators are loaded fresh on
//! every request, so bans, deactivations and password changes take effect
//! immediately rather than when a token expires.

use vstd::prelude::*;

use crate::auth::token::Claims;
use crate::error::ApiError;
use crate::models::OperatorRole;
use crate::text::{decimal_text, lemma_decimal_text_reads_back, parse_i64, parsed_i64, trim, trimmed};

verus! {

/// A verified player identity.
#[derive(Debug, Clone)]
pub struct AuthUser {
    pub id: i64,
    pub username: String,
}

/// A verified operator identity.
#[derive(Debug, Clone)]
pub struct OperatorUser {
    pub id: i64,
    pub username: String,
    pub role: OperatorRole,
}

/// An operator who additionally holds the admin role. Anything that changes
/// accounts requires this rather than [`OperatorUser`].
#[derive(Debug, Clone)]
pub struct AdminOperator(pub OperatorUser);

impl AdminOperator {
    pub fn id(&self) -> (id: i64)
        ensures
            id == self.0.id,
    {
        self.0.id
    }

    pub fn username(&self) -> (name: &str)
        ensures
            name@ == self.0.username@,
    {
        self.0.username.as_str()
    }
}

/// The account id a token names. A subject that is not a number is refused
/// as unauthenticated; a subject written by [`Claims::issued`] reads back
/// as the id it was issued for.
pub fn subject_id(claims: &Claims) -> (id: Result<i64, ApiError>)
    ensures
        forall|n: i64| claims.sub@ == decimal_text(n as int) ==> id == Ok::<i64, ApiError>(n),
        match id {
            Ok(id) => parsed_i64(claims.sub@) == Some(id),
            Err(err) => parsed_i64(claims.sub@) is None && err == ApiError::Unauthenticated,
        },
{
    proof {
        assert forall|n: i64| claims.sub@ == decimal_text(n as int) implies parsed_i64(claims.sub@) == Some(n) by {
            lemma_decimal_text_reads_back(n);
        }
    }
    match parse_i64(claims.sub.as_str()) {
        Some(id) => Ok(id),
        None => Err(ApiError::Unauthenticated),
    }
}

/// Lets a player in unless the account is banned; a ban stops play on
/// tokens that were already issued.
pub fn admit_player(id: i64, username: String, is_banned: bool) -> (admitted: Result<AuthUser, ApiError>)
    ensures
        admitted is Ok <==> !is_banned,
        admitted matches Ok(user) ==> user.id == id && user.username == username,
        admitted matches Err(err) ==> err matches ApiError::Forbidden(message)
            && message@ == "this account has been suspended"@,
{
    if is_banned {
        return Err(ApiError::Forbidden(String::from_str("this account has been suspended")));
    }
    Ok(AuthUser { id, username })
}

/// Lets an operator in only while the account is active and the token was
/// issued no earlier than the current password (both in seconds since the
/// epoch): a password change logs the older sessions out.
pub fn admit_operator(
    issued_at: i64,
    id: i64,
    username: String,
    role: OperatorRole,
    is_active: bool,
    password_changed_at: i64,
) -> (admitted: Result<OperatorUser, ApiError>)
    ensures
        admitted is Ok <==> is_active && password_changed_at <= issued_at,
        admitted matches Ok(operator) ==> operator.id == id && operator.username == username
            && operator.role == role,
        admitted matches Err(err) ==> err == ApiError::Unauthenticated,
{
    if !is_active {
        return Err(ApiError::Unauthenticated);
    }
    if issued_at < password_changed_at {
        return Err(ApiError::Unauthenticated);
    }
    Ok(OperatorUser { id, username, role })
}

/// Lets an operator through to the account-changing endpoints only with the
/// admin role.
pub fn require_admin(operator: OperatorUser) -> (admitted: Result<AdminOperator, ApiError>)
    ensures
        admitted is Ok <==> operator.role == OperatorRole::Admin,
        admitted matches Ok(admin) ==> admin.0 == operator,
        admitted matches Err(err) ==> err matches ApiError::Forbidden(message)
            && message@ == "this action requires an admin operator"@,
{
    if !operator.role.is_admin() {
        return Err(ApiError::Forbidden(String::from_str("this action requires an admin operator")));
    }
    Ok(AdminOperator(operator))
}

/// The scheme word an `Authorization` header starts with, space included.
pub open spec fn bearer_prefix() -> Seq<char> {
    "Bearer "@
}

/// The token an `Authorization` header carries: what follows `Bearer `,
/// without surrounding white space, and nothing when that is empty.
pub open spec fn bearer(header: Seq<char>) -> Option<Seq<char>> {
    if header.len() >= 7 && header.subrange(0, 7) == bearer_prefix() {
        let token = trimmed(header.subrange(7, header.len() as int));
        if token.len() > 0 {
            Some(token)
        } else {
            None
        }
    } else {
        None
    }
}

/// Reads the bearer token out of an `Authorization` header.
pub fn bearer_token(header: &str) -> (token: Option<String>)
    ensures
        match (token, bearer(header@)) {
            (Some(token), Some(wanted)) => token@ == wanted,
            (None, None) => true,
            _ => false,
        },
{
    let prefix = "Bearer ";
    proof {
        reveal_strlit("Bearer ");
    }
    let length = header.unicode_len();
    if length < 7 {
        return None;
    }
    let mut i: usize = 0;
    while i < 7
        invariant
            i <= 7,
            length == header@.len(),
            length >= 7,
            prefix@ == bearer_prefix(),
            prefix@.len() == 7,
            forall|k: int| 0 <= k < i ==> header@[k] == prefix@[k],
        decreases 7 - i,
    {
        if header.get_char(i) != prefix.get_char(i) {
            assert(header@.subrange(0, 7)[i as int] != bearer_prefix()[i as int]);
            return None;
        }
        i += 1;
    }
    assert(header@.subrange(0, 7) =~= bearer_prefix());
    let rest = header.substring_char(7, length);
    let token = trim(rest);
    if token.unicode_len() == 0 {
        return None;
    }
    Some(String::from_str(token))
}

} // verus!
