use casino_backend::cli::parse_role;
use casino_backend::config::{Config, ConfigError, EnvValue, Environment};
use casino_backend::error::ApiError;
use casino_backend::models::{OperatorRole, STARTING_BALANCE};
use casino_backend::routes::status::{
    api_check, collect_checks, database_check, format_duration, overall, Check, Health,
};

fn unset() -> Environment {
    Environment {
        host: EnvValue::Unset,
        port: EnvValue::Unset,
        token_ttl_minutes: EnvValue::Unset,
        database_url: EnvValue::Unset,
        static_dir: EnvValue::Unset,
        app_env: EnvValue::Unset,
        jwt_secret: EnvValue::Unset,
    }
}

fn text(value: &str) -> EnvValue {
    EnvValue::Text(value.to_string())
}

#[test]
fn an_empty_environment_gets_development_defaults() {
    let config = Config::from_env(&unset()).expect("defaults are valid");
    assert_eq!(config.host, "127.0.0.1");
    assert_eq!(config.port, 8080);
    assert_eq!(config.token_ttl_secs, 3_600);
    assert_eq!(config.database_url, "sqlite://data/casino.db");
    assert_eq!(config.static_dir, "static");
    assert_eq!(config.environment, "development");
    assert_eq!(config.jwt_secret.len(), 64);
}

#[test]
fn each_process_draws_its_own_secret() {
    let first = Config::from_env(&unset()).expect("defaults");
    let second = Config::from_env(&unset()).expect("defaults");
    assert_ne!(first.jwt_secret, second.jwt_secret);
}

#[test]
fn blank_values_count_as_unset() {
    let mut env = unset();
    env.host = text("   ");
    env.port = text("\t");
    let config = Config::from_env(&env).expect("blank means default");
    assert_eq!(config.host, "127.0.0.1");
    assert_eq!(config.port, 8080);
}

#[test]
fn configured_values_are_taken_as_given() {
    let mut env = unset();
    env.host = text("0.0.0.0");
    env.port = text("9000");
    env.token_ttl_minutes = text("15");
    env.app_env = text("production");
    env.jwt_secret = text("0123456789abcdef0123456789abcdef");
    let config = Config::from_env(&env).expect("valid");
    assert_eq!(config.host, "0.0.0.0");
    assert_eq!(config.port, 9000);
    assert_eq!(config.token_ttl_secs, 900);
    assert_eq!(config.environment, "production");
    assert_eq!(config.jwt_secret, b"0123456789abcdef0123456789abcdef".to_vec());
}

#[test]
fn unreadable_values_are_refused_by_name() {
    let mut env = unset();
    env.port = text("eighty");
    let err = Config::from_env(&env).expect_err("not a port");
    assert_eq!(err, ConfigError::InvalidValue { name: "PORT", value: "eighty".to_string() });
    assert_eq!(err.message(), "environment variable PORT has an invalid value: eighty");

    let mut env = unset();
    env.port = text("70000");
    assert!(matches!(Config::from_env(&env), Err(ConfigError::InvalidValue { name: "PORT", .. })));

    let mut env = unset();
    env.static_dir = EnvValue::NotUnicode;
    let err = Config::from_env(&env).expect_err("not unicode");
    assert_eq!(err, ConfigError::NotUnicode { name: "STATIC_DIR" });
    assert_eq!(err.message(), "environment variable STATIC_DIR is not valid UTF-8");

    let mut env = unset();
    env.token_ttl_minutes = text("307445734561825861");
    assert!(matches!(
        Config::from_env(&env),
        Err(ConfigError::InvalidValue { name: "TOKEN_TTL_MINUTES", .. })
    ));
}

#[test]
fn a_short_secret_is_refused() {
    let mut env = unset();
    env.jwt_secret = text("too-short");
    let err = Config::from_env(&env).expect_err("weak");
    assert_eq!(err, ConfigError::WeakSecret);
    assert_eq!(err.message(), "JWT_SECRET must be at least 32 characters long");
}

#[test]
fn the_first_bad_variable_is_reported() {
    let mut env = unset();
    env.host = EnvValue::NotUnicode;
    env.jwt_secret = text("short");
    assert_eq!(Config::from_env(&env).err(), Some(ConfigError::NotUnicode { name: "HOST" }));
}

#[test]
fn the_command_line_role_defaults_to_admin() {
    let args = |words: &[&str]| words.iter().map(|word| word.to_string()).collect::<Vec<String>>();
    assert_eq!(parse_role(&args(&[])), Ok(OperatorRole::Admin));
    assert_eq!(parse_role(&args(&["--role", "viewer"])), Ok(OperatorRole::Viewer));
    assert_eq!(parse_role(&args(&["--role", "viewer", "--role", "admin"])), Ok(OperatorRole::Admin));
    assert_eq!(parse_role(&args(&["--role"])), Err("--role needs a value".to_string()));
    assert_eq!(
        parse_role(&args(&["--role", "owner"])),
        Err("unknown role 'owner', expected admin or viewer".to_string())
    );
    assert_eq!(parse_role(&args(&["--force"])), Err("unexpected argument '--force'".to_string()));
}

#[test]
fn uptime_reads_in_its_two_largest_units() {
    assert_eq!(format_duration(0), "0s");
    assert_eq!(format_duration(59), "59s");
    assert_eq!(format_duration(61), "1m 1s");
    assert_eq!(format_duration(3_600), "1h 0m");
    assert_eq!(format_duration(3_661), "1h 1m");
    assert_eq!(format_duration(90_061), "1d 1h 1m");
    assert_eq!(format_duration(-75), "-15s");
}

#[test]
fn the_database_panel_follows_reachability_and_latency() {
    let down = database_check(false, None, "sqlite", Some("disk I/O error".to_string()));
    assert_eq!((down.health, down.detail.as_str()), (Health::Down, "disk I/O error"));
    let gone = database_check(false, None, "sqlite", None);
    assert_eq!(gone.detail, "unreachable");
    let slow = database_check(true, Some(25_001), "sqlite", None);
    assert_eq!((slow.health, slow.detail.as_str()), (Health::Degraded, "slow response (250.01 ms)"));
    let edge = database_check(true, Some(25_000), "sqlite", None);
    assert_eq!((edge.health, edge.detail.as_str()), (Health::Okay, "sqlite responding in 250.00 ms"));
    let quick = database_check(true, Some(7), "sqlite", None);
    assert_eq!(quick.detail, "sqlite responding in 0.07 ms");
    let unmeasured = database_check(true, None, "sqlite", None);
    assert_eq!(unmeasured.detail, "sqlite responding");
}

#[test]
fn the_page_shows_its_worst_panel() {
    let api = api_check(3_661);
    assert_eq!(api.name, "api");
    assert_eq!(api.detail, "serving for 1h 1m");
    assert_eq!(overall(&[]), Health::Okay);

    let checks = collect_checks(10, true, Some(30_000), "sqlite", None);
    assert_eq!(checks.len(), 2);
    assert_eq!(overall(&checks), Health::Degraded);

    let checks = collect_checks(10, false, None, "sqlite", None);
    assert_eq!(overall(&checks), Health::Down);

    let mixed = vec![
        Check { name: "a", health: Health::Down, detail: String::new() },
        Check { name: "b", health: Health::Okay, detail: String::new() },
    ];
    assert_eq!(overall(&mixed), Health::Down);
    assert_eq!(Health::Degraded.severity(), 1);
}

#[test]
fn every_refusal_has_its_status_and_code() {
    let cases = [
        (ApiError::InvalidCredentials, 401, "invalid_credentials", "invalid username or password"),
        (ApiError::Unauthenticated, 401, "unauthenticated", "authentication required"),
        (ApiError::Forbidden("no".to_string()), 403, "forbidden", "no"),
        (ApiError::NotFound("gone".to_string()), 404, "not_found", "gone"),
        (ApiError::BadRequest("bad".to_string()), 400, "bad_request", "bad"),
        (ApiError::UsernameTaken, 409, "username_taken", "username is already taken"),
        (ApiError::InsufficientFunds, 402, "insufficient_funds", "you do not have enough coins"),
        (ApiError::LoanOutstanding, 409, "loan_outstanding", "you already have an outstanding loan"),
        (ApiError::NoOpenLoan, 400, "no_open_loan", "you do not have an outstanding loan"),
        (ApiError::HandInProgress, 409, "hand_in_progress", "you already have a hand in play"),
        (ApiError::NoOpenHand, 400, "no_open_hand", "you do not have a hand in play"),
        (ApiError::Internal("db".to_string()), 500, "internal_error", "internal server error"),
    ];
    for (err, status, code, message) in cases {
        assert_eq!(err.status(), status);
        assert_eq!(err.code(), code);
        assert_eq!(err.message(), message);
        assert_eq!(err.challenges(), status == 401);
    }
}

#[test]
fn new_accounts_start_with_a_thousand_coins() {
    assert_eq!(STARTING_BALANCE, 1_000);
    assert!(OperatorRole::Admin.is_admin());
    assert!(!OperatorRole::Viewer.is_admin());
}

#[test]
fn the_secret_minimum_counts_characters() {
    let mut env = unset();
    env.jwt_secret = text(&"é".repeat(16));
    assert_eq!(Config::from_env(&env).err(), Some(ConfigError::WeakSecret), "32 bytes, but 16 characters");

    env.jwt_secret = text(&"é".repeat(32));
    let config = Config::from_env(&env).expect("32 characters");
    assert_eq!(config.jwt_secret.len(), 64);
}

#[test]
fn numeric_settings_take_an_unsigned_decimal() {
    let mut env = unset();
    env.port = text("+8081");
    env.token_ttl_minutes = text("0030");
    let config = Config::from_env(&env).expect("a plus sign and leading zeros are decimal");
    assert_eq!(config.port, 8081);
    assert_eq!(config.token_ttl_secs, 1_800);

    let mut env = unset();
    env.port = text("-1");
    assert!(matches!(Config::from_env(&env), Err(ConfigError::InvalidValue { name: "PORT", .. })));

    let mut env = unset();
    env.port = text("65535");
    assert_eq!(Config::from_env(&env).expect("the largest port").port, 65_535);

    let mut env = unset();
    env.port = text("65536");
    assert!(matches!(Config::from_env(&env), Err(ConfigError::InvalidValue { name: "PORT", .. })));
}
