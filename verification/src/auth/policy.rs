//! Rules for what counts as an acceptable username and password. Shared by the
//! public signup endpoint and the account-creation commands so both agree.

use vstd::prelude::*;

verus! {

pub const MIN_USERNAME_LEN: usize = 3;

pub const MAX_USERNAME_LEN: usize = 24;

pub const MIN_PASSWORD_LEN: usize = 10;

pub const MAX_PASSWORD_LEN: usize = 128;

/// An ASCII letter or digit.
pub open spec fn ascii_alphanumeric(ch: char) -> bool {
    ('a' <= ch && ch <= 'z') || ('A' <= ch && ch <= 'Z') || ('0' <= ch && ch <= '9')
}

/// Letters, digits, underscores and hyphens may appear in a username.
pub open spec fn username_char(ch: char) -> bool {
    ascii_alphanumeric(ch) || ch == '_' || ch == '-'
}

/// Why a username is refused, or `None` when it is acceptable: 3 to 24
/// characters, each a letter, digit, underscore or hyphen, the first a letter
/// or digit.
pub open spec fn username_problem(name: Seq<char>) -> Option<Seq<char>> {
    if !(MIN_USERNAME_LEN <= name.len() <= MAX_USERNAME_LEN) {
        Some("username must be between 3 and 24 characters long"@)
    } else if !(forall|i: int| 0 <= i < name.len() ==> username_char(#[trigger] name[i])) {
        Some("username may only contain letters, numbers, underscores, and hyphens"@)
    } else if !ascii_alphanumeric(name[0]) {
        Some("username must start with a letter or number"@)
    } else {
        None
    }
}

/// Why a password is refused, or `None` when it is acceptable: 10 to 128
/// characters. The upper bound keeps the hasher from being handed an
/// arbitrarily long input.
pub open spec fn password_problem(password: Seq<char>) -> Option<Seq<char>> {
    if password.len() < MIN_PASSWORD_LEN {
        Some("password must be at least 10 characters long"@)
    } else if password.len() > MAX_PASSWORD_LEN {
        Some("password must be at most 128 characters long"@)
    } else {
        None
    }
}

fn is_ascii_alphanumeric(ch: char) -> (alnum: bool)
    ensures
        alnum == ascii_alphanumeric(ch),
{
    ('a' <= ch && ch <= 'z') || ('A' <= ch && ch <= 'Z') || ('0' <= ch && ch <= '9')
}

/// Checks a username against the signup rules, returning a message suitable
/// for showing to whoever typed it.
pub fn validate_username(username: &str) -> (verdict: Result<(), String>)
    ensures
        match verdict {
            Ok(()) => username_problem(username@) is None,
            Err(message) => username_problem(username@) == Some(message@),
        },
{
    let length = username.unicode_len();
    if !(MIN_USERNAME_LEN <= length && length <= MAX_USERNAME_LEN) {
        return Err(String::from_str("username must be between 3 and 24 characters long"));
    }
    let mut i: usize = 0;
    while i < length
        invariant
            length == username@.len(),
            MIN_USERNAME_LEN <= length <= MAX_USERNAME_LEN,
            i <= length,
            forall|k: int| 0 <= k < i ==> username_char(#[trigger] username@[k]),
        decreases length - i,
    {
        let ch = username.get_char(i);
        if !(is_ascii_alphanumeric(ch) || ch == '_' || ch == '-') {
            assert(!username_char(username@[i as int]));
            return Err(
                String::from_str(
                    "username may only contain letters, numbers, underscores, and hyphens",
                ),
            );
        }
        i += 1;
    }
    if !is_ascii_alphanumeric(username.get_char(0)) {
        return Err(String::from_str("username must start with a letter or number"));
    }
    Ok(())
}

/// Checks a password against the signup rules.
pub fn validate_password(password: &str) -> (verdict: Result<(), String>)
    ensures
        match verdict {
            Ok(()) => password_problem(password@) is None,
            Err(message) => password_problem(password@) == Some(message@),
        },
{
    let length = password.unicode_len();
    if length < MIN_PASSWORD_LEN {
        return Err(String::from_str("password must be at least 10 characters long"));
    }
    if length > MAX_PASSWORD_LEN {
        return Err(String::from_str("password must be at most 128 characters long"));
    }
    Ok(())
}

} // verus!
