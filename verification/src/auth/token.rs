//! Token claims, HS256 signing and verification, and the audience check
//! that keeps player tokens and operator tokens apart. Both kinds are signed
//! with the same key, so the audience claim is what keeps a self-registered
//! player out of the admin API.

use jsonwebtoken::{decode, encode, Algorithm, DecodingKey, EncodingKey, Header, Validation};
use serde_json::Value;
use vstd::prelude::*;

use crate::error::ApiError;
use crate::text::{decimal, decimal_text};

verus! {

/// Which surface a token was issued for.
#[derive(Debug, Clone, Copy, PartialEq, Eq, Structural)]
pub enum Audience {
    Player,
    Operator,
}

impl Default for Audience {
    /// Tokens from before audiences existed carry none; they count as player
    /// tokens, the lower privilege of the two.
    fn default() -> (kind: Self)
        ensures
            kind == Audience::Player,
    {
        Audience::Player
    }
}

/// How an audience is written in a token's `kind` claim.
pub open spec fn audience_label(kind: Audience) -> Seq<char> {
    match kind {
        Audience::Player => "player"@,
        Audience::Operator => "operator"@,
    }
}

impl Audience {
    pub fn label(self) -> (label: &'static str)
        ensures
            label@ == audience_label(self),
    {
        match self {
            Audience::Player => "player",
            Audience::Operator => "operator",
        }
    }
}

#[derive(Debug, Clone, PartialEq, Eq)]
pub struct Claims {
    pub sub: String,
    pub username: String,
    pub kind: Audience,
    pub iat: i64,
    pub exp: i64,
}

impl Claims {
    /// The claims of a token issued at `issued_at` (seconds since the epoch)
    /// for `subject`, valid for `ttl_seconds`.
    pub fn issued(subject: i64, username: &str, kind: Audience, issued_at: i64, ttl_seconds: i64) -> (claims: Self)
        requires
            i64::MIN <= issued_at + ttl_seconds <= i64::MAX,
        ensures
            claims.sub@ == decimal_text(subject as int),
            claims.username@ == username@,
            claims.kind == kind,
            claims.iat == issued_at,
            claims.exp == issued_at + ttl_seconds,
    {
        Claims {
            sub: decimal(subject),
            username: String::from_str(username),
            kind,
            iat: issued_at,
            exp: issued_at + ttl_seconds,
        }
    }
}

/// Accepts verified claims only on the surface they were issued for: a
/// player token on an operator endpoint, or the other way round, is refused
/// as unauthenticated.
pub fn check_audience(claims: Claims, expected: Audience) -> (checked: Result<Claims, ApiError>)
    ensures
        checked is Ok <==> claims.kind == expected,
        checked matches Ok(accepted) ==> accepted == claims,
        checked matches Err(err) ==> err == ApiError::Unauthenticated,
{
    if claims.kind != expected {
        return Err(ApiError::Unauthenticated);
    }
    Ok(claims)
}

/// Seconds of clock skew allowed when checking a token's expiry.
pub const TOKEN_LEEWAY_SECS: u64 = 5;

/// A token's claims as read from its signed payload, before the `kind`
/// claim is interpreted: absent (`None`) in tokens issued before audiences
/// existed.
pub struct RawClaims {
    pub sub: String,
    pub username: String,
    pub kind: Option<String>,
    pub iat: i64,
    pub exp: i64,
}

impl View for RawClaims {
    type V = (Seq<char>, Seq<char>, Option<Seq<char>>, i64, i64);

    open spec fn view(&self) -> (Seq<char>, Seq<char>, Option<Seq<char>>, i64, i64) {
        (
            self.sub@,
            self.username@,
            match self.kind {
                Some(kind) => Some(kind@),
                None => None,
            },
            self.iat,
            self.exp,
        )
    }
}

/// The HS256 token `jsonwebtoken::encode` makes of the claims `sub`,
/// `username`, `kind`, `iat` and `exp` under `secret`, or its error message.
pub uninterp spec fn jwt_signed(
    sub: Seq<char>,
    username: Seq<char>,
    kind: Seq<char>,
    iat: i64,
    exp: i64,
    secret: Seq<u8>,
) -> Result<Seq<char>, Seq<char>>;

/// The claims HS256-signed into `token` under `secret` as
/// `jsonwebtoken::decode` reads them, leaving the clock aside: `None` when the
/// signature does not hold, the payload lacks a string `sub` or `username`, a
/// whole-number `iat`, or an `exp` that is a whole number of seconds, holds a
/// `kind` that is not a string, or carries an `aud` claim.
pub uninterp spec fn jwt_claims(token: Seq<char>, secret: Seq<u8>) -> Option<
    (Seq<char>, Seq<char>, Option<Seq<char>>, i64, i64),
>;

/// Calls `jsonwebtoken::encode` with an HS256 header on a JSON object of the
/// five claims. Stated: the result is `jwt_signed` of the arguments (signing
/// and the serialisation of the object are deterministic), and, as the
/// crate's `decode` shows, a signed token whose `exp` is not negative reads
/// back under the same secret as exactly those claims.
#[verifier::external_body]
fn jwt_sign(sub: &str, username: &str, kind: &str, iat: i64, exp: i64, secret: &[u8]) -> (token: Result<String, String>)
    ensures
        match token {
            Ok(text) => jwt_signed(sub@, username@, kind@, iat, exp, secret@) == Ok::<Seq<char>, Seq<char>>(text@),
            Err(message) => jwt_signed(sub@, username@, kind@, iat, exp, secret@) == Err::<Seq<char>, Seq<char>>(message@),
        },
        0 <= exp ==> (token matches Ok(text) ==> jwt_claims(text@, secret@) == Some((sub@, username@, Some(kind@), iat, exp))),
{
    let mut claims = serde_json::Map::new();
    claims.insert("sub".to_string(), Value::from(sub));
    claims.insert("username".to_string(), Value::from(username));
    claims.insert("kind".to_string(), Value::from(kind));
    claims.insert("iat".to_string(), Value::from(iat));
    claims.insert("exp".to_string(), Value::from(exp));
    encode(&Header::new(Algorithm::HS256), &claims, &EncodingKey::from_secret(secret)).map_err(|err| err.to_string())
}

/// Calls `jsonwebtoken::decode` with HS256 and `leeway` seconds of clock
/// skew, and picks the claims out of the payload. Whether an unexpired token
/// is accepted depends on the clock, so what is stated is what holds of every
/// outcome: claims that come back are the ones signed into the token
/// (`jwt_claims`), and a token with no such claims never comes back.
#[verifier::external_body]
fn jwt_decode(token: &str, secret: &[u8], leeway: u64) -> (claims: Option<RawClaims>)
    ensures
        claims matches Some(read) ==> jwt_claims(token@, secret@) == Some(read@),
        jwt_claims(token@, secret@) is None ==> claims is None,
{
    let mut validation = Validation::new(Algorithm::HS256);
    validation.leeway = leeway;
    let payload = decode::<Value>(token, &DecodingKey::from_secret(secret), &validation).ok()?.claims;
    let kind = match payload.get("kind") {
        None => None,
        Some(value) => Some(value.as_str()?.to_string()),
    };
    let sub = payload.get("sub")?.as_str()?.to_string();
    let username = payload.get("username")?.as_str()?.to_string();
    Some(RawClaims { sub, username, kind, iat: payload.get("iat")?.as_i64()?, exp: payload.get("exp")?.as_i64()? })
}

/// The audience a `kind` claim names: absent means a player token (the
/// lower privilege), and any text but the two labels names none.
pub open spec fn claimed_audience(kind: Option<Seq<char>>) -> Option<Audience> {
    match kind {
        None => Some(Audience::Player),
        Some(text) => if text == audience_label(Audience::Player) {
            Some(Audience::Player)
        } else if text == audience_label(Audience::Operator) {
            Some(Audience::Operator)
        } else {
            None
        },
    }
}

/// Signs the claims with the service's secret. A signing failure is an
/// internal error carrying the signer's message.
pub fn sign_claims(claims: &Claims, secret: &[u8]) -> (token: Result<String, ApiError>)
    ensures
        match jwt_signed(claims.sub@, claims.username@, audience_label(claims.kind), claims.iat, claims.exp, secret@) {
            Ok(text) => token matches Ok(signed) && signed@ == text,
            Err(message) => token matches Err(err) && err matches ApiError::Internal(text)
                && text@ == "failed to sign token: "@ + message,
        },
        0 <= claims.exp ==> (token matches Ok(signed) ==> jwt_claims(signed@, secret@) == Some(
            (claims.sub@, claims.username@, Some(audience_label(claims.kind)), claims.iat, claims.exp),
        )),
{
    match jwt_sign(claims.sub.as_str(), claims.username.as_str(), claims.kind.label(), claims.iat, claims.exp, secret) {
        Ok(signed) => Ok(signed),
        Err(message) => {
            let mut text = String::from_str("failed to sign token: ");
            text.append(message.as_str());
            Err(ApiError::Internal(text))
        },
    }
}

/// A signed token as handed to a client: the bearer text, its scheme, and
/// when it expires (seconds since the epoch) and how long it lasts (seconds).
pub struct IssuedToken {
    pub token: String,
    pub token_type: &'static str,
    pub expires_at: i64,
    pub expires_in: i64,
}

/// Issues a token for `subject` on the `kind` surface at `issued_at`
/// (seconds since the epoch), valid for `ttl_seconds`: the claims of
/// `Claims::issued`, signed with `secret`. A token whose expiry is not before
/// the epoch reads back under the same secret as exactly those claims.
pub fn issue_token(
    subject: i64,
    username: &str,
    kind: Audience,
    issued_at: i64,
    ttl_seconds: i64,
    secret: &[u8],
) -> (issued: Result<IssuedToken, ApiError>)
    requires
        i64::MIN <= issued_at + ttl_seconds <= i64::MAX,
    ensures
        match jwt_signed(decimal_text(subject as int), username@, audience_label(kind), issued_at, (issued_at + ttl_seconds) as i64, secret@) {
            Ok(text) => issued matches Ok(token) && token.token@ == text && token.token_type@ == "Bearer"@
                && token.expires_at == issued_at + ttl_seconds && token.expires_in == ttl_seconds,
            Err(message) => issued matches Err(err) && err matches ApiError::Internal(text)
                && text@ == "failed to sign token: "@ + message,
        },
        0 <= issued_at + ttl_seconds ==> (issued matches Ok(token) ==> jwt_claims(token.token@, secret@) == Some(
            (decimal_text(subject as int), username@, Some(audience_label(kind)), issued_at, (issued_at + ttl_seconds) as i64),
        )),
{
    let claims = Claims::issued(subject, username, kind, issued_at, ttl_seconds);
    let token = match sign_claims(&claims, secret) {
        Ok(token) => token,
        Err(err) => return Err(err),
    };
    proof {
        reveal_strlit("Bearer");
    }
    Ok(IssuedToken { token, token_type: "Bearer", expires_at: claims.exp, expires_in: ttl_seconds })
}

/// A token issued for one surface is taken on that surface alone: the
/// audience its `kind` claim names is the one it was issued for, so
/// `verify_token` refuses it wherever another is expected.
pub proof fn lemma_issued_audience_is_kept(issued: Audience, expected: Audience)
    ensures
        claimed_audience(Some(audience_label(issued))) == Some(issued),
        (claimed_audience(Some(audience_label(issued))) == Some(expected)) <==> issued == expected,
{
    reveal_strlit("player");
    reveal_strlit("operator");
    assert(audience_label(Audience::Player) != audience_label(Audience::Operator)) by {
        assert(audience_label(Audience::Player).len() != audience_label(Audience::Operator).len());
    }
}

/// What a verified token is worth on a surface expecting `expected`: no
/// claims, a `kind` naming no audience, or a token for the other surface are
/// all refused as unauthenticated.
pub fn accept_claims(read: Option<RawClaims>, expected: Audience) -> (checked: Result<Claims, ApiError>)
    ensures
        match read {
            None => checked == Err::<Claims, ApiError>(ApiError::Unauthenticated),
            Some(raw) => if claimed_audience(raw@.2) == Some(expected) {
                checked matches Ok(claims) && claims.sub@ == raw.sub@ && claims.username@ == raw.username@
                    && claims.kind == expected && claims.iat == raw.iat && claims.exp == raw.exp
            } else {
                checked == Err::<Claims, ApiError>(ApiError::Unauthenticated)
            },
        },
{
    let raw = match read {
        None => return Err(ApiError::Unauthenticated),
        Some(raw) => raw,
    };
    let kind = match &raw.kind {
        None => Audience::Player,
        Some(text) => {
            proof {
                reveal_strlit("player");
                reveal_strlit("operator");
            }
            if *text == String::from_str("player") {
                Audience::Player
            } else if *text == String::from_str("operator") {
                Audience::Operator
            } else {
                return Err(ApiError::Unauthenticated);
            }
        },
    };
    check_audience(Claims { sub: raw.sub, username: raw.username, kind, iat: raw.iat, exp: raw.exp }, expected)
}

/// Verifies a bearer token signed with `secret` and requires it to have
/// been issued for `expected`. Whether an unexpired token is taken depends on
/// the clock; whatever the clock says, accepted claims are the ones signed
/// into the token, for the expected surface, and a token that holds no signed
/// claims, or claims for another surface, is refused as unauthenticated.
pub fn verify_token(token: &str, secret: &[u8], expected: Audience) -> (checked: Result<Claims, ApiError>)
    ensures
        checked matches Ok(claims) ==> claims.kind == expected,
        checked matches Ok(claims) ==> (jwt_claims(token@, secret@) matches Some(raw) && raw.0 == claims.sub@
            && raw.1 == claims.username@ && claimed_audience(raw.2) == Some(expected) && raw.3 == claims.iat
            && raw.4 == claims.exp),
        checked matches Err(err) ==> err == ApiError::Unauthenticated,
        jwt_claims(token@, secret@) is None ==> checked is Err,
        jwt_claims(token@, secret@) matches Some(raw) && claimed_audience(raw.2) != Some(expected) ==> checked is Err,
{
    accept_claims(jwt_decode(token, secret, TOKEN_LEEWAY_SECS), expected)
}

} // verus!
