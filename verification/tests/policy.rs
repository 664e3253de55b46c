use casino_backend::auth::policy::{MAX_PASSWORD_LEN, MAX_USERNAME_LEN, MIN_PASSWORD_LEN};
use casino_backend::auth::{validate_password, validate_username};

#[test]
fn accepts_ordinary_usernames() {
    assert!(validate_username("high_roller").is_ok());
    assert!(validate_username("ace-of-spades").is_ok());
    assert!(validate_username("7even").is_ok());
}

#[test]
fn rejects_bad_usernames() {
    assert!(validate_username("ab").is_err());
    assert!(validate_username(&"a".repeat(MAX_USERNAME_LEN + 1)).is_err());
    assert!(validate_username("has space").is_err());
    assert!(validate_username("dealer!").is_err());
    assert!(validate_username("_leading").is_err());
}

#[test]
fn enforces_password_length() {
    assert!(validate_password(&"x".repeat(MIN_PASSWORD_LEN)).is_ok());
    assert!(validate_password(&"x".repeat(MIN_PASSWORD_LEN - 1)).is_err());
    assert!(validate_password(&"x".repeat(MAX_PASSWORD_LEN + 1)).is_err());
}

#[test]
fn names_the_first_broken_username_rule() {
    assert_eq!(
        validate_username("ab"),
        Err("username must be between 3 and 24 characters long".to_string())
    );
    assert_eq!(
        validate_username("has space"),
        Err("username may only contain letters, numbers, underscores, and hyphens".to_string())
    );
    assert_eq!(
        validate_username("-dash"),
        Err("username must start with a letter or number".to_string())
    );
    assert_eq!(validate_username(&"a".repeat(MAX_USERNAME_LEN)), Ok(()));
}

#[test]
fn names_the_broken_password_rule() {
    assert_eq!(
        validate_password("short"),
        Err("password must be at least 10 characters long".to_string())
    );
    assert_eq!(
        validate_password(&"x".repeat(MAX_PASSWORD_LEN + 1)),
        Err("password must be at most 128 characters long".to_string())
    );
    assert_eq!(validate_password(&"x".repeat(MAX_PASSWORD_LEN)), Ok(()));
}
