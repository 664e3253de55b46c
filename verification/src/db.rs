//! What the handlers hand to the store: records of settled play and
//! bookkeeping waiting to be written, and the filters of the two listings.
//! The store itself talks to the database and lives with the server.

use vstd::prelude::*;

verus! {

/// Rows per page when a listing asks for no particular size.
pub const DEFAULT_PAGE_SIZE: i64 = 50;

/// Narrows a player listing. `search` matches on username.
#[derive(Debug, Clone, Copy)]
pub struct PlayerFilter<'a> {
    pub search: Option<&'a str>,
    pub limit: i64,
    pub offset: i64,
}

impl Default for PlayerFilter<'_> {
    fn default() -> (filter: Self)
        ensures
            filter.search is None,
            filter.limit == DEFAULT_PAGE_SIZE,
            filter.offset == 0,
    {
        PlayerFilter { search: None, limit: DEFAULT_PAGE_SIZE, offset: 0 }
    }
}

/// A spin that has been played and now needs paying for.
#[derive(Debug, Clone, Copy)]
pub struct SpinRecord<'a> {
    pub user_id: i64,
    pub bet: i64,
    pub payout: i64,
    /// The reels as the client will see them, already serialised.
    pub reels: &'a str,
}

/// A marker the cashier has agreed to write, waiting to be recorded.
#[derive(Debug, Clone, Copy, PartialEq, Eq, Structural)]
pub struct LoanRecord {
    pub user_id: i64,
    pub principal: i64,
    pub interest: i64,
}

/// An admin credit or debit waiting to be applied and logged.
#[derive(Debug, Clone, Copy)]
pub struct BalanceAdjustmentRecord<'a> {
    pub user_id: i64,
    pub operator_id: i64,
    pub operator_username: &'a str,
    pub delta: i64,
    pub reason: &'a str,
}

/// Narrows the balance-adjustment audit log. `user_id` limits the list to
/// one player when set.
#[derive(Debug, Clone, Copy, PartialEq, Eq, Structural)]
pub struct AdjustmentFilter {
    pub user_id: Option<i64>,
    pub limit: i64,
    pub offset: i64,
}

impl Default for AdjustmentFilter {
    fn default() -> (filter: Self)
        ensures
            filter.user_id is None,
            filter.limit == DEFAULT_PAGE_SIZE,
            filter.offset == 0,
    {
        AdjustmentFilter { user_id: None, limit: DEFAULT_PAGE_SIZE, offset: 0 }
    }
}

} // verus!
