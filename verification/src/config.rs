//! Service configuration, decided from what the environment holds. Reading
//! the process environment is the caller's part; this module decides what
//! each variable means, which defaults apply and which values are refused.

use rand_core::{OsRng, RngCore};
use vstd::prelude::*;

use crate::text::{parse_u16, parse_u64, parsed_u16, parsed_u64, trim, trimmed};

verus! {

/// Minimum length, in characters, for a `JWT_SECRET` supplied via the
/// environment.
pub const MIN_SECRET_LEN: usize = 32;

/// Length, in bytes, of the secret generated when none is configured.
pub const GENERATED_SECRET_LEN: usize = 64;

pub const DEFAULT_PORT: u16 = 8080;

pub const DEFAULT_TOKEN_TTL_MINUTES: u64 = 60;

/// Why the configuration was refused.
#[derive(Debug, Clone, PartialEq, Eq)]
pub enum ConfigError {
    NotUnicode { name: &'static str },
    InvalidValue { name: &'static str, value: String },
    WeakSecret,
}

/// A refusal as plain values: the variable's name, and the offending text.
pub enum ConfigErrorView {
    NotUnicode(Seq<char>),
    InvalidValue(Seq<char>, Seq<char>),
    WeakSecret,
}

impl View for ConfigError {
    type V = ConfigErrorView;

    open spec fn view(&self) -> ConfigErrorView {
        match self {
            ConfigError::NotUnicode { name } => ConfigErrorView::NotUnicode(name@),
            ConfigError::InvalidValue { name, value } => ConfigErrorView::InvalidValue(name@, value@),
            ConfigError::WeakSecret => ConfigErrorView::WeakSecret,
        }
    }
}

/// What the operator is told about a refused configuration.
pub open spec fn config_error_message(err: ConfigErrorView) -> Seq<char> {
    match err {
        ConfigErrorView::NotUnicode(name) => "environment variable "@ + name
            + " is not valid UTF-8"@,
        ConfigErrorView::InvalidValue(name, value) => "environment variable "@ + name
            + " has an invalid value: "@ + value,
        ConfigErrorView::WeakSecret => "JWT_SECRET must be at least 32 characters long"@,
    }
}

impl ConfigError {
    pub fn message(&self) -> (text: String)
        ensures
            text@ == config_error_message(self@),
    {
        match self {
            ConfigError::NotUnicode { name } => {
                let mut text = String::from_str("environment variable ");
                text.append(name);
                text.append(" is not valid UTF-8");
                text
            },
            ConfigError::InvalidValue { name, value } => {
                let mut text = String::from_str("environment variable ");
                text.append(name);
                text.append(" has an invalid value: ");
                text.append(value.as_str());
                text
            },
            ConfigError::WeakSecret => String::from_str("JWT_SECRET must be at least 32 characters long"),
        }
    }
}

/// What the process environment holds for one variable.
#[derive(Debug, Clone)]
pub enum EnvValue {
    Unset,
    /// Set, but not valid Unicode.
    NotUnicode,
    Text(String),
}

/// The raw values of every variable the service reads.
#[derive(Debug, Clone)]
pub struct Environment {
    pub host: EnvValue,
    pub port: EnvValue,
    pub token_ttl_minutes: EnvValue,
    pub database_url: EnvValue,
    pub static_dir: EnvValue,
    pub app_env: EnvValue,
    pub jwt_secret: EnvValue,
}

#[derive(Debug, Clone)]
pub struct Config {
    pub host: String,
    pub port: u16,
    pub database_url: String,
    pub jwt_secret: Vec<u8>,
    /// How long an issued token stays valid, in seconds.
    pub token_ttl_secs: u64,
    pub static_dir: String,
    pub environment: String,
}

/// A variable's setting: `None` when it is unset or holds only white space.
pub open spec fn setting(name: Seq<char>, raw: EnvValue) -> Result<Option<Seq<char>>, ConfigErrorView> {
    match raw {
        EnvValue::Unset => Ok(None),
        EnvValue::NotUnicode => Err(ConfigErrorView::NotUnicode(name)),
        EnvValue::Text(text) => if trimmed(text@).len() == 0 {
            Ok(None)
        } else {
            Ok(Some(text@))
        },
    }
}

/// A text setting, with its default.
pub open spec fn text_setting(name: Seq<char>, raw: EnvValue, default: Seq<char>) -> Result<Seq<char>, ConfigErrorView> {
    match setting(name, raw) {
        Err(err) => Err(err),
        Ok(None) => Ok(default),
        Ok(Some(text)) => Ok(text),
    }
}

/// The port setting: a `u16` as `str::parse` reads it, 8080 when unset.
pub open spec fn port_setting(raw: EnvValue) -> Result<u16, ConfigErrorView> {
    match setting("PORT"@, raw) {
        Err(err) => Err(err),
        Ok(None) => Ok(DEFAULT_PORT),
        Ok(Some(text)) => match parsed_u16(text) {
            Some(port) => Ok(port),
            None => Err(ConfigErrorView::InvalidValue("PORT"@, text)),
        },
    }
}

/// The token lifetime in minutes, 60 when unset; refused when it is not a
/// `u64` or when the same span in seconds would not fit in one.
pub open spec fn ttl_setting(raw: EnvValue) -> Result<u64, ConfigErrorView> {
    match setting("TOKEN_TTL_MINUTES"@, raw) {
        Err(err) => Err(err),
        Ok(None) => Ok(DEFAULT_TOKEN_TTL_MINUTES),
        Ok(Some(text)) => match parsed_u64(text) {
            Some(minutes) => if minutes * 60 <= u64::MAX {
                Ok(minutes)
            } else {
                Err(ConfigErrorView::InvalidValue("TOKEN_TTL_MINUTES"@, text))
            },
            None => Err(ConfigErrorView::InvalidValue("TOKEN_TTL_MINUTES"@, text)),
        },
    }
}

/// The configured signing secret as bytes, `None` when it is to be
/// generated; refused when shorter than 32 characters.
pub open spec fn secret_setting(raw: EnvValue) -> Result<Option<Seq<u8>>, ConfigErrorView> {
    match setting("JWT_SECRET"@, raw) {
        Err(err) => Err(err),
        Ok(None) => Ok(None),
        Ok(Some(text)) => {
            if text.len() < MIN_SECRET_LEN {
                Err(ConfigErrorView::WeakSecret)
            } else {
                Ok(Some(vstd::utf8::encode_utf8(text)))
            }
        },
    }
}

/// The configuration as plain values; a `None` secret is one that is
/// generated afresh by each process.
pub struct Settings {
    pub host: Seq<char>,
    pub port: u16,
    pub token_ttl_minutes: u64,
    pub database_url: Seq<char>,
    pub static_dir: Seq<char>,
    pub environment: Seq<char>,
    pub jwt_secret: Option<Seq<u8>>,
}

/// What an environment configures, or the first refusal in the order the
/// variables are read: `HOST`, `PORT`, `TOKEN_TTL_MINUTES`, `DATABASE_URL`,
/// `STATIC_DIR`, `APP_ENV`, `JWT_SECRET`.
pub open spec fn settings(env: Environment) -> Result<Settings, ConfigErrorView> {
    match text_setting("HOST"@, env.host, "127.0.0.1"@) {
        Err(err) => Err(err),
        Ok(host) => match port_setting(env.port) {
            Err(err) => Err(err),
            Ok(port) => match ttl_setting(env.token_ttl_minutes) {
                Err(err) => Err(err),
                Ok(minutes) => match text_setting("DATABASE_URL"@, env.database_url, "sqlite://data/casino.db"@) {
                    Err(err) => Err(err),
                    Ok(database_url) => match text_setting("STATIC_DIR"@, env.static_dir, "static"@) {
                        Err(err) => Err(err),
                        Ok(static_dir) => match text_setting("APP_ENV"@, env.app_env, "development"@) {
                            Err(err) => Err(err),
                            Ok(environment) => match secret_setting(env.jwt_secret) {
                                Err(err) => Err(err),
                                Ok(jwt_secret) => Ok(Settings {
                                    host,
                                    port,
                                    token_ttl_minutes: minutes,
                                    database_url,
                                    static_dir,
                                    environment,
                                    jwt_secret,
                                }),
                            },
                        },
                    },
                },
            },
        },
    }
}

/// Whether a configuration carries out what the settings say.
pub open spec fn configures(config: Config, wanted: Settings) -> bool {
    &&& config.host@ == wanted.host
    &&& config.port == wanted.port
    &&& config.token_ttl_secs == wanted.token_ttl_minutes * 60
    &&& config.database_url@ == wanted.database_url
    &&& config.static_dir@ == wanted.static_dir
    &&& config.environment@ == wanted.environment
    &&& match wanted.jwt_secret {
        Some(secret) => config.jwt_secret@ == secret,
        None => config.jwt_secret@.len() == GENERATED_SECRET_LEN,
    }
}

/// Fills the buffer from `rand_core::OsRng` with `fill_bytes`. Stated: the
/// length is kept. The bytes are random and nothing is said of them.
/// `fill_bytes` panics when the operating system's generator fails.
#[verifier::external_body]
fn fill_random(bytes: &mut Vec<u8>)
    ensures
        final(bytes)@.len() == old(bytes)@.len(),
{
    OsRng.fill_bytes(bytes.as_mut_slice())
}

/// A fresh secret of `GENERATED_SECRET_LEN` random bytes.
fn random_secret() -> (bytes: Vec<u8>)
    ensures
        bytes@.len() == GENERATED_SECRET_LEN,
{
    let mut bytes: Vec<u8> = Vec::new();
    let mut i: usize = 0;
    while i < GENERATED_SECRET_LEN
        invariant
            i <= GENERATED_SECRET_LEN,
            bytes@.len() == i,
        decreases GENERATED_SECRET_LEN - i,
    {
        bytes.push(0);
        i += 1;
    }
    fill_random(&mut bytes);
    bytes
}

/// A variable's setting: unset, or set to nothing but white space, reads as
/// `None`.
pub fn var(name: &'static str, raw: &EnvValue) -> (value: Result<Option<String>, ConfigError>)
    ensures
        match (value, setting(name@, *raw)) {
            (Ok(Some(text)), Ok(Some(wanted))) => text@ == wanted,
            (Ok(None), Ok(None)) => true,
            (Err(err), Err(wanted)) => err@ == wanted,
            _ => false,
        },
{
    match raw {
        EnvValue::Unset => Ok(None),
        EnvValue::NotUnicode => Err(ConfigError::NotUnicode { name }),
        EnvValue::Text(text) => {
            if trim(text.as_str()).unicode_len() == 0 {
                Ok(None)
            } else {
                Ok(Some(text.clone()))
            }
        },
    }
}

fn text_var(name: &'static str, raw: &EnvValue, default: &str) -> (value: Result<String, ConfigError>)
    ensures
        match (value, text_setting(name@, *raw, default@)) {
            (Ok(text), Ok(wanted)) => text@ == wanted,
            (Err(err), Err(wanted)) => err@ == wanted,
            _ => false,
        },
{
    match var(name, raw) {
        Err(err) => Err(err),
        Ok(None) => Ok(String::from_str(default)),
        Ok(Some(text)) => Ok(text),
    }
}

/// A number read with `str::parse`, or its default when unset.
pub trait Setting: Sized {
    /// What `str::parse` makes of a text for this type.
    spec fn parsed(text: Seq<char>) -> Option<Self>;

    fn parse_setting(text: &str) -> (value: Option<Self>)
        ensures
            value == Self::parsed(text@);
}

impl Setting for u16 {
    open spec fn parsed(text: Seq<char>) -> Option<u16> {
        parsed_u16(text)
    }

    fn parse_setting(text: &str) -> (value: Option<u16>) {
        parse_u16(text)
    }
}

impl Setting for u64 {
    open spec fn parsed(text: Seq<char>) -> Option<u64> {
        parsed_u64(text)
    }

    fn parse_setting(text: &str) -> (value: Option<u64>) {
        parse_u64(text)
    }
}

/// A numeric setting: its default when unset, refused with the offending
/// text when it does not parse.
pub fn parse_var<T: Setting>(name: &'static str, raw: &EnvValue, default: T) -> (value: Result<T, ConfigError>)
    ensures
        match setting(name@, *raw) {
            Err(wanted) => value matches Err(err) && err@ == wanted,
            Ok(None) => value == Ok::<T, ConfigError>(default),
            Ok(Some(text)) => match T::parsed(text) {
                Some(parsed) => value == Ok::<T, ConfigError>(parsed),
                None => value matches Err(err) && err@ == ConfigErrorView::InvalidValue(name@, text),
            },
        },
{
    match var(name, raw) {
        Err(err) => Err(err),
        Ok(None) => Ok(default),
        Ok(Some(raw_text)) => match T::parse_setting(raw_text.as_str()) {
            Some(parsed) => Ok(parsed),
            None => Err(ConfigError::InvalidValue { name, value: raw_text }),
        },
    }
}

impl Config {
    /// Decides the configuration from the environment's values, falling
    /// back to development-friendly defaults for everything except the JWT
    /// secret, which is randomised per process when unset. A lifetime whose
    /// seconds overflow a `u64` is refused like any unreadable value.
    pub fn from_env(env: &Environment) -> (config: Result<Self, ConfigError>)
        ensures
            match (config, settings(*env)) {
                (Ok(config), Ok(wanted)) => configures(config, wanted),
                (Err(err), Err(wanted)) => err@ == wanted,
                _ => false,
            },
    {
        let host = match text_var("HOST", &env.host, "127.0.0.1") {
            Ok(host) => host,
            Err(err) => return Err(err),
        };
        let port: u16 = match parse_var("PORT", &env.port, DEFAULT_PORT) {
            Ok(port) => port,
            Err(err) => return Err(err),
        };
        let ttl_minutes: u64 = match parse_var("TOKEN_TTL_MINUTES", &env.token_ttl_minutes, DEFAULT_TOKEN_TTL_MINUTES) {
            Ok(minutes) => minutes,
            Err(err) => return Err(err),
        };
        let token_ttl_secs: u64 = match ttl_minutes.checked_mul(60) {
            Some(secs) => secs,
            None => {
                let value = match &env.token_ttl_minutes {
                    EnvValue::Text(text) => text.clone(),
                    _ => String::new(),
                };
                return Err(ConfigError::InvalidValue { name: "TOKEN_TTL_MINUTES", value });
            },
        };
        let database_url = match text_var("DATABASE_URL", &env.database_url, "sqlite://data/casino.db") {
            Ok(url) => url,
            Err(err) => return Err(err),
        };
        let static_dir = match text_var("STATIC_DIR", &env.static_dir, "static") {
            Ok(dir) => dir,
            Err(err) => return Err(err),
        };
        let environment = match text_var("APP_ENV", &env.app_env, "development") {
            Ok(name) => name,
            Err(err) => return Err(err),
        };
        let jwt_secret = match var("JWT_SECRET", &env.jwt_secret) {
            Err(err) => return Err(err),
            Ok(Some(secret)) => {
                if secret.as_str().unicode_len() < MIN_SECRET_LEN {
                    return Err(ConfigError::WeakSecret);
                }
                secret.as_str().as_bytes_vec()
            },
            Ok(None) => random_secret(),
        };
        Ok(Config { host, port, database_url, jwt_secret, token_ttl_secs, static_dir, environment })
    }
}

} // verus!
