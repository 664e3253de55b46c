pub mod access;
pub mod password;
pub mod policy;
pub mod token;

pub use access::{AdminOperator, AuthUser, OperatorUser};
pub use password::{decoy_hash, hash_password, verify_password};
pub use policy::{validate_password, validate_username, MIN_PASSWORD_LEN};
pub use token::{Audience, Claims};
