use casino_backend::auth::access::{admit_operator, admit_player, bearer_token, require_admin, subject_id};
use casino_backend::auth::token::{check_audience, issue_token, sign_claims, verify_token};
use std::time::{SystemTime, UNIX_EPOCH};
use casino_backend::auth::{decoy_hash, hash_password, verify_password, Audience, Claims, OperatorUser};
use casino_backend::error::ApiError;
use casino_backend::models::OperatorRole;

#[test]
fn accepts_the_correct_password() {
    let hash = hash_password("all-in-on-black").expect("hash");

    assert!(verify_password("all-in-on-black", &hash));
    assert!(!verify_password("all-in-on-red", &hash));
}

#[test]
fn salts_each_hash() {
    let first = hash_password("same-password").expect("hash");
    let second = hash_password("same-password").expect("hash");

    assert_ne!(first, second);
}

#[test]
fn treats_a_malformed_hash_as_a_mismatch() {
    assert!(!verify_password("anything", "not-a-phc-string"));
}

#[test]
fn the_decoy_hash_is_a_real_hash_of_its_secret() {
    let decoy = decoy_hash();
    assert!(decoy.starts_with("$argon2id$"));
    assert!(verify_password("decoy-password-never-matches", &decoy));
    assert!(!verify_password("hunter2hunter2", &decoy));
}

#[test]
fn claims_carry_the_subject_as_decimal_text() {
    let claims = Claims::issued(42, "pitboss", Audience::Operator, 1_000, 3_600);
    assert_eq!(claims.sub, "42");
    assert_eq!(claims.username, "pitboss");
    assert_eq!(claims.iat, 1_000);
    assert_eq!(claims.exp, 4_600);
    assert_eq!(subject_id(&claims), Ok(42));

    let negative = Claims::issued(-7, "x", Audience::Player, 0, 0);
    assert_eq!(subject_id(&negative), Ok(-7));
}

#[test]
fn a_subject_that_is_not_a_number_is_unauthenticated() {
    let mut claims = Claims::issued(1, "x", Audience::Player, 0, 60);
    claims.sub = "not-a-number".to_string();
    assert_eq!(subject_id(&claims), Err(ApiError::Unauthenticated));
}

#[test]
fn each_surface_takes_only_its_own_tokens() {
    let player = Claims::issued(1, "player", Audience::Player, 0, 60);
    let staff = Claims::issued(2, "staff", Audience::Operator, 0, 60);

    assert_eq!(check_audience(player.clone(), Audience::Operator), Err(ApiError::Unauthenticated));
    assert_eq!(check_audience(staff.clone(), Audience::Player), Err(ApiError::Unauthenticated));
    assert_eq!(check_audience(player.clone(), Audience::Player), Ok(player));
    assert_eq!(check_audience(staff.clone(), Audience::Operator), Ok(staff));
}

#[test]
fn tokens_without_an_audience_count_as_player_tokens() {
    assert_eq!(Audience::default(), Audience::Player);
    assert_eq!(Audience::Operator.label(), "operator");
}

#[test]
fn a_banned_player_is_turned_away() {
    assert_eq!(
        admit_player(3, "shark".to_string(), true).err(),
        Some(ApiError::Forbidden("this account has been suspended".to_string()))
    );
    let user = admit_player(3, "shark".to_string(), false).expect("not banned");
    assert_eq!(user.id, 3);
    assert_eq!(user.username, "shark");
}

#[test]
fn an_operator_token_older_than_the_password_is_refused() {
    assert_eq!(
        admit_operator(99, 5, "boss".to_string(), OperatorRole::Admin, true, 100).err(),
        Some(ApiError::Unauthenticated)
    );
    assert_eq!(
        admit_operator(200, 5, "boss".to_string(), OperatorRole::Admin, false, 100).err(),
        Some(ApiError::Unauthenticated)
    );
    let operator = admit_operator(100, 5, "boss".to_string(), OperatorRole::Viewer, true, 100)
        .expect("issued at the password change");
    assert_eq!(operator.role, OperatorRole::Viewer);
}

#[test]
fn only_admins_reach_the_account_changing_endpoints() {
    let viewer = OperatorUser { id: 1, username: "eyes".to_string(), role: OperatorRole::Viewer };
    assert_eq!(
        require_admin(viewer).err().map(|err| err.message()),
        Some("this action requires an admin operator".to_string())
    );
    let admin = OperatorUser { id: 2, username: "boss".to_string(), role: OperatorRole::Admin };
    let admitted = require_admin(admin).expect("admin");
    assert_eq!(admitted.id(), 2);
    assert_eq!(admitted.username(), "boss");
}

#[test]
fn a_bearer_header_yields_its_trimmed_token() {
    assert_eq!(bearer_token("Bearer abc.def"), Some("abc.def".to_string()));
    assert_eq!(bearer_token("Bearer   abc  "), Some("abc".to_string()));
    assert_eq!(bearer_token("Bearer    "), None);
    assert_eq!(bearer_token("bearer abc"), None);
    assert_eq!(bearer_token("Basic abc"), None);
    assert_eq!(bearer_token("Bear"), None);
}

fn now() -> i64 {
    SystemTime::now().duration_since(UNIX_EPOCH).expect("clock after the epoch").as_secs() as i64
}

const SECRET: &[u8] = b"a-secret-long-enough-for-tests!!";

#[test]
fn round_trips_claims() {
    let issued = issue_token(7, "pitboss", Audience::Player, now(), 60, SECRET).expect("issue");
    let claims = verify_token(&issued.token, SECRET, Audience::Player).expect("verify");

    assert_eq!(claims.sub, "7");
    assert_eq!(claims.username, "pitboss");
    assert_eq!(issued.expires_in, 60);
}

#[test]
fn refuses_a_player_token_on_the_operator_surface() {
    let player = issue_token(7, "pitboss", Audience::Player, now(), 60, SECRET).expect("issue");

    assert!(verify_token(&player.token, SECRET, Audience::Operator).is_err());
    assert!(verify_token(&player.token, SECRET, Audience::Player).is_ok());
}

#[test]
fn refuses_an_operator_token_on_the_player_surface() {
    let staff = issue_token(3, "floor-manager", Audience::Operator, now(), 60, SECRET).expect("issue");

    assert!(verify_token(&staff.token, SECRET, Audience::Player).is_err());
    assert!(verify_token(&staff.token, SECRET, Audience::Operator).is_ok());
}

#[test]
fn rejects_token_signed_with_another_secret() {
    let issued =
        issue_token(7, "pitboss", Audience::Player, now(), 60, b"first-secret-long-enough-for-test").expect("issue");

    assert!(verify_token(&issued.token, b"other-secret-long-enough-for-test", Audience::Player).is_err());
}

#[test]
fn rejects_expired_token() {
    let expired = Claims::issued(7, "pitboss", Audience::Player, 0, 1_000);
    let token = sign_claims(&expired, SECRET).expect("encode");

    assert!(verify_token(&token, SECRET, Audience::Player).is_err());
}

#[test]
fn an_issued_token_carries_its_expiry_and_scheme() {
    let issued = issue_token(42, "boss", Audience::Operator, 1_700_000_000, 3_600, SECRET).expect("issue");
    assert_eq!(issued.token_type, "Bearer");
    assert_eq!(issued.expires_at, 1_700_003_600);
    assert_eq!(issued.expires_in, 3_600);
    assert_eq!(issued.token.split('.').count(), 3);
}

#[test]
fn verified_claims_are_the_signed_ones() {
    let issued_at = now();
    let claims = Claims::issued(-12, "croupier", Audience::Operator, issued_at, 120);
    let token = sign_claims(&claims, SECRET).expect("sign");

    assert_eq!(verify_token(&token, SECRET, Audience::Operator), Ok(claims));
    assert_eq!(verify_token(&token, SECRET, Audience::Player), Err(ApiError::Unauthenticated));
    assert_eq!(verify_token("not.a.token", SECRET, Audience::Operator), Err(ApiError::Unauthenticated));
    assert_eq!(verify_token(&token, b"another-secret-long-enough-here!", Audience::Operator), Err(ApiError::Unauthenticated));
}

#[test]
fn a_token_from_before_audiences_counts_as_a_player_token() {
    let mut payload = serde_json::Map::new();
    payload.insert("sub".to_string(), serde_json::Value::from("7"));
    payload.insert("username".to_string(), serde_json::Value::from("pitboss"));
    payload.insert("iat".to_string(), serde_json::Value::from(now()));
    payload.insert("exp".to_string(), serde_json::Value::from(now() + 60));
    let token = jsonwebtoken::encode(
        &jsonwebtoken::Header::new(jsonwebtoken::Algorithm::HS256),
        &payload,
        &jsonwebtoken::EncodingKey::from_secret(SECRET),
    )
    .expect("encode");

    let claims = verify_token(&token, SECRET, Audience::Player).expect("a legacy token is a player token");
    assert_eq!(claims.kind, Audience::Player);
    assert_eq!(claims.sub, "7");
    assert!(verify_token(&token, SECRET, Audience::Operator).is_err());

    payload.insert("kind".to_string(), serde_json::Value::from("croupier"));
    let unknown = jsonwebtoken::encode(
        &jsonwebtoken::Header::new(jsonwebtoken::Algorithm::HS256),
        &payload,
        &jsonwebtoken::EncodingKey::from_secret(SECRET),
    )
    .expect("encode");
    assert!(verify_token(&unknown, SECRET, Audience::Player).is_err());
}

#[test]
fn a_subject_is_read_in_the_decimal_grammar() {
    let with_subject = |sub: &str| {
        let mut claims = Claims::issued(0, "x", Audience::Player, 0, 60);
        claims.sub = sub.to_string();
        subject_id(&claims)
    };
    assert_eq!(with_subject("+42"), Ok(42));
    assert_eq!(with_subject("007"), Ok(7));
    assert_eq!(with_subject("-9223372036854775808"), Ok(i64::MIN));
    assert_eq!(with_subject("9223372036854775807"), Ok(i64::MAX));
    assert_eq!(with_subject("9223372036854775808"), Err(ApiError::Unauthenticated));
    assert_eq!(with_subject("-"), Err(ApiError::Unauthenticated));
    assert_eq!(with_subject("+"), Err(ApiError::Unauthenticated));
    assert_eq!(with_subject(""), Err(ApiError::Unauthenticated));
    assert_eq!(with_subject(" 1"), Err(ApiError::Unauthenticated));
    assert_eq!(with_subject("1_000"), Err(ApiError::Unauthenticated));
    assert_eq!(with_subject("--1"), Err(ApiError::Unauthenticated));
}
