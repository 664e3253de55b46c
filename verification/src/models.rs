//! Domain values shared across the service.

use vstd::prelude::*;

verus! {

/// Coins credited to every new account.
pub const STARTING_BALANCE: i64 = 1000;

/// What an operator is allowed to do once signed in to the dashboard.
#[derive(Debug, Clone, Copy, PartialEq, Eq, Structural)]
pub enum OperatorRole {
    /// Reads the dashboard and manages operator and player accounts,
    /// including player balances.
    Admin,
    /// Reads the dashboard and changes their own password, nothing more.
    Viewer,
}

impl OperatorRole {
    pub fn is_admin(self) -> (admin: bool)
        ensures
            admin == (self == OperatorRole::Admin),
    {
        match self {
            OperatorRole::Admin => true,
            OperatorRole::Viewer => false,
        }
    }
}

} // verus!
