//! The operator endpoints: which account changes an admin may make, how the
//! listings are paged, and what a balance adjustment must carry.

use vstd::prelude::*;

use super::auth::{missing_credentials_message, sign_in_name};
use crate::auth::policy::{password_problem, username_problem, validate_password, validate_username};
use crate::db::{AdjustmentFilter, BalanceAdjustmentRecord, PlayerFilter, DEFAULT_PAGE_SIZE};
use crate::error::ApiError;
use crate::models::OperatorRole;
use crate::text::{trim, trimmed};

verus! {

/// The most rows a listing returns in one page.
pub const MAX_PAGE_SIZE: i64 = 200;

/// The largest credit or debit an admin may make in one adjustment.
pub const MAX_ABS_DELTA: i64 = 1_000_000_000;

/// The longest reason an adjustment may carry, in characters.
pub const MAX_REASON_LEN: usize = 280;

pub struct LoginRequest {
    pub username: String,
    pub password: String,
}

pub struct CreateOperatorRequest {
    pub username: String,
    pub password: String,
    pub role: OperatorRole,
}

pub struct UpdateOperatorRequest {
    pub role: Option<OperatorRole>,
    pub is_active: Option<bool>,
}

pub struct ResetPasswordRequest {
    pub new_password: String,
}

pub struct ChangeOwnPasswordRequest {
    pub current_password: String,
    pub new_password: String,
}

pub struct UpdatePlayerRequest {
    pub is_banned: bool,
}

pub struct ListPlayersQuery {
    pub search: Option<String>,
    pub limit: Option<i64>,
    pub offset: Option<i64>,
}

pub struct AdjustBalanceRequest {
    pub delta: i64,
    pub reason: String,
}

pub struct ListAdjustmentsQuery {
    pub player_id: Option<i64>,
    pub limit: Option<i64>,
    pub offset: Option<i64>,
}

/// The role an operator created through the API gets when none is asked
/// for. The command line defaults to admin instead, since that is how the
/// first operator is made.
pub fn default_role() -> (role: OperatorRole)
    ensures
        role == OperatorRole::Viewer,
{
    OperatorRole::Viewer
}

/// What is answered for an operator id that names nobody.
pub fn unknown_operator() -> (err: ApiError)
    ensures
        err matches ApiError::NotFound(message) && message@ == "no operator with that id"@,
{
    ApiError::NotFound(String::from_str("no operator with that id"))
}

/// What is answered for a player id that names nobody.
pub fn unknown_player() -> (err: ApiError)
    ensures
        err matches ApiError::NotFound(message) && message@ == "no player with that id"@,
{
    ApiError::NotFound(String::from_str("no player with that id"))
}

/// Rows per page: 50 unless asked, and always between 1 and 200.
pub open spec fn page_size(limit: Option<i64>) -> i64 {
    match limit {
        None => DEFAULT_PAGE_SIZE,
        Some(asked) => if asked < 1 {
            1
        } else if asked > MAX_PAGE_SIZE {
            MAX_PAGE_SIZE
        } else {
            asked
        },
    }
}

/// Rows to skip: none unless asked, and never a negative number.
pub open spec fn page_start(offset: Option<i64>) -> i64 {
    match offset {
        None => 0,
        Some(asked) => if asked < 0 {
            0
        } else {
            asked
        },
    }
}

pub fn page_limit(limit: Option<i64>) -> (size: i64)
    ensures
        size == page_size(limit),
        1 <= size <= MAX_PAGE_SIZE,
{
    match limit {
        None => DEFAULT_PAGE_SIZE,
        Some(asked) => if asked < 1 {
            1
        } else if asked > MAX_PAGE_SIZE {
            MAX_PAGE_SIZE
        } else {
            asked
        },
    }
}

pub fn page_offset(offset: Option<i64>) -> (start: i64)
    ensures
        start == page_start(offset),
        start >= 0,
{
    match offset {
        None => 0,
        Some(asked) => if asked < 0 {
            0
        } else {
            asked
        },
    }
}

impl LoginRequest {
    /// The name this operator sign-in is for: the typed name without
    /// surrounding white space. Both it and the password must be non-empty.
    pub fn name(&self) -> (name: Result<String, ApiError>)
        ensures
            name is Ok <==> trimmed(self.username@).len() > 0 && self.password@.len() > 0,
            name matches Ok(name) ==> name@ == trimmed(self.username@),
            name matches Err(err) ==> err matches ApiError::BadRequest(message)
                && message@ == missing_credentials_message(),
    {
        sign_in_name(self.username.as_str(), self.password.as_str())
    }
}

/// How an operator's sign-in is answered. `account` is whether the named
/// operator is active, `None` when there is no such operator; `matched` is
/// whether the password checked out. An unknown name and a wrong password
/// get the same answer; only with the right password is a deactivation
/// named.
pub fn operator_sign_in(account: Option<bool>, matched: bool) -> (verdict: Result<(), ApiError>)
    ensures
        verdict is Ok <==> account == Some(true) && matched,
        (account is None || !matched) ==> verdict == Err::<(), ApiError>(ApiError::InvalidCredentials),
        (account == Some(false) && matched) ==> (verdict matches Err(err) && err matches ApiError::Forbidden(message)
            && message@ == "this operator account has been deactivated"@),
{
    match account {
        None => Err(ApiError::InvalidCredentials),
        Some(active) => {
            if !matched {
                return Err(ApiError::InvalidCredentials);
            }
            if !active {
                return Err(ApiError::Forbidden(String::from_str("this operator account has been deactivated")));
            }
            Ok(())
        },
    }
}

/// The first problem with a new operator's name (white space trimmed) and
/// password, the name first.
pub open spec fn new_account_problem(username: Seq<char>, password: Seq<char>) -> Option<Seq<char>> {
    if username_problem(trimmed(username)) is Some {
        username_problem(trimmed(username))
    } else {
        password_problem(password)
    }
}

impl CreateOperatorRequest {
    /// The name the new operator gets: the typed name without surrounding
    /// white space, held to the username rules, with the password held to the
    /// password rules.
    pub fn name(&self) -> (name: Result<String, ApiError>)
        ensures
            name is Ok <==> new_account_problem(self.username@, self.password@) is None,
            name matches Ok(name) ==> name@ == trimmed(self.username@),
            name matches Err(err) ==> err matches ApiError::BadRequest(message)
                && new_account_problem(self.username@, self.password@) == Some(message@),
    {
        let name = trim(self.username.as_str());
        match validate_username(name) {
            Err(message) => return Err(ApiError::BadRequest(message)),
            Ok(()) => {},
        }
        match validate_password(self.password.as_str()) {
            Err(message) => return Err(ApiError::BadRequest(message)),
            Ok(()) => {},
        }
        Ok(String::from_str(name))
    }
}

impl UpdateOperatorRequest {
    /// Refuses an empty change, and an admin deactivating or demoting their
    /// own account: that refusal is what keeps an active admin in place.
    pub fn check(&self, id: i64, admin_id: i64) -> (checked: Result<(), ApiError>)
        ensures
            checked is Ok <==> (self.role is Some || self.is_active is Some) && (id == admin_id
                ==> self.is_active != Some(false) && self.role != Some(OperatorRole::Viewer)),
            (self.role is None && self.is_active is None) ==> (checked matches Err(err)
                && err matches ApiError::BadRequest(message)
                && message@ == "provide role, is_active, or both"@),
            (!(self.role is None && self.is_active is None) && id == admin_id && self.is_active
                == Some(false)) ==> (checked matches Err(err) && err matches ApiError::Forbidden(message)
                && message@ == "you cannot deactivate your own account"@),
            (!(self.role is None && self.is_active is None) && id == admin_id && self.is_active
                != Some(false) && self.role == Some(OperatorRole::Viewer)) ==> (checked matches Err(err)
                && err matches ApiError::Forbidden(message)
                && message@ == "you cannot remove your own admin role"@),
    {
        if self.role.is_none() && self.is_active.is_none() {
            return Err(ApiError::BadRequest(String::from_str("provide role, is_active, or both")));
        }
        if id == admin_id {
            if self.is_active == Some(false) {
                return Err(ApiError::Forbidden(String::from_str("you cannot deactivate your own account")));
            }
            if self.role == Some(OperatorRole::Viewer) {
                return Err(ApiError::Forbidden(String::from_str("you cannot remove your own admin role")));
            }
        }
        Ok(())
    }
}

impl ResetPasswordRequest {
    /// An admin resets another operator's password; their own goes through
    /// the change-my-password endpoint, which proves they know the current
    /// one. The new password is held to the password rules.
    pub fn check(&self, id: i64, admin_id: i64) -> (checked: Result<(), ApiError>)
        ensures
            checked is Ok <==> id != admin_id && password_problem(self.new_password@) is None,
            id == admin_id ==> (checked matches Err(err) && err matches ApiError::Forbidden(message)
                && message@ == "use the change-my-password endpoint for your own account"@),
            (id != admin_id && password_problem(self.new_password@) is Some) ==> (checked matches Err(err)
                && err matches ApiError::BadRequest(message)
                && password_problem(self.new_password@) == Some(message@)),
    {
        if id == admin_id {
            return Err(
                ApiError::Forbidden(
                    String::from_str("use the change-my-password endpoint for your own account"),
                ),
            );
        }
        match validate_password(self.new_password.as_str()) {
            Err(message) => Err(ApiError::BadRequest(message)),
            Ok(()) => Ok(()),
        }
    }
}

/// An admin may delete any operator account but their own.
pub fn check_operator_delete(id: i64, admin_id: i64) -> (checked: Result<(), ApiError>)
    ensures
        checked is Ok <==> id != admin_id,
        checked matches Err(err) ==> err matches ApiError::Forbidden(message)
            && message@ == "you cannot delete your own account"@,
{
    if id == admin_id {
        return Err(ApiError::Forbidden(String::from_str("you cannot delete your own account")));
    }
    Ok(())
}

impl ChangeOwnPasswordRequest {
    /// The new password is held to the password rules before the current
    /// one is checked.
    pub fn check(&self) -> (checked: Result<(), ApiError>)
        ensures
            checked is Ok <==> password_problem(self.new_password@) is None,
            checked matches Err(err) ==> err matches ApiError::BadRequest(message)
                && password_problem(self.new_password@) == Some(message@),
    {
        match validate_password(self.new_password.as_str()) {
            Err(message) => Err(ApiError::BadRequest(message)),
            Ok(()) => Ok(()),
        }
    }

    /// The change goes ahead only when the current password checked out.
    pub fn confirm(matched: bool) -> (confirmed: Result<(), ApiError>)
        ensures
            confirmed is Ok <==> matched,
            confirmed matches Err(err) ==> err matches ApiError::Forbidden(message)
                && message@ == "current password is incorrect"@,
    {
        if !matched {
            return Err(ApiError::Forbidden(String::from_str("current password is incorrect")));
        }
        Ok(())
    }
}

impl ListPlayersQuery {
    /// The search term: the typed text without surrounding white space, and
    /// no term at all when nothing is left.
    pub fn search_term(&self) -> (term: Option<String>)
        ensures
            match self.search {
                None => term is None,
                Some(typed) => if trimmed(typed@).len() == 0 {
                    term is None
                } else {
                    term matches Some(term) && term@ == trimmed(typed@)
                },
            },
    {
        match &self.search {
            None => None,
            Some(typed) => {
                let term = trim(typed.as_str());
                if term.unicode_len() == 0 {
                    None
                } else {
                    Some(String::from_str(term))
                }
            },
        }
    }

    /// The filter handed to the store, for a search term from
    /// [`ListPlayersQuery::search_term`].
    pub fn filter<'a>(&self, term: &'a Option<String>) -> (filter: PlayerFilter<'a>)
        ensures
            match *term {
                None => filter.search is None,
                Some(text) => filter.search matches Some(search) && search@ == text@,
            },
            filter.limit == page_size(self.limit),
            filter.offset == page_start(self.offset),
    {
        let search = match term {
            None => None,
            Some(text) => Some(text.as_str()),
        };
        PlayerFilter { search, limit: page_limit(self.limit), offset: page_offset(self.offset) }
    }
}

impl ListAdjustmentsQuery {
    /// The filter handed to the store: a player id only when it could name
    /// a player, and the page bounds.
    pub fn filter(&self) -> (filter: AdjustmentFilter)
        ensures
            filter.user_id == (match self.player_id {
                Some(id) => if id > 0 {
                    Some(id)
                } else {
                    None
                },
                None => None,
            }),
            filter.limit == page_size(self.limit),
            filter.offset == page_start(self.offset),
    {
        let user_id = match self.player_id {
            Some(id) => if id > 0 {
                Some(id)
            } else {
                None
            },
            None => None,
        };
        AdjustmentFilter { user_id, limit: page_limit(self.limit), offset: page_offset(self.offset) }
    }
}

/// What an adjustment is told when its amount is out of bounds.
pub open spec fn delta_range_message() -> Seq<char> {
    "delta must be between -1000000000 and 1000000000"@
}

/// The first problem with an adjustment, its reason taken without
/// surrounding white space: a zero amount, an amount beyond a billion
/// either way, a missing reason, or a reason over 280 characters.
pub open spec fn adjustment_problem(delta: i64, reason: Seq<char>) -> Option<Seq<char>> {
    if delta == 0 {
        Some("delta must be a non-zero amount"@)
    } else if !(-MAX_ABS_DELTA <= delta <= MAX_ABS_DELTA) {
        Some(delta_range_message())
    } else if trimmed(reason).len() == 0 {
        Some("a reason is required"@)
    } else if trimmed(reason).len() > MAX_REASON_LEN {
        Some("reason must be 280 characters or fewer"@)
    } else {
        None
    }
}

impl AdjustBalanceRequest {
    /// The reason to log, without surrounding white space, once the amount
    /// and the reason pass the checks.
    pub fn reason(&self) -> (reason: Result<String, ApiError>)
        ensures
            reason is Ok <==> adjustment_problem(self.delta, self.reason@) is None,
            reason matches Ok(text) ==> text@ == trimmed(self.reason@),
            reason matches Err(err) ==> err matches ApiError::BadRequest(message)
                && adjustment_problem(self.delta, self.reason@) == Some(message@),
    {
        if self.delta == 0 {
            return Err(ApiError::BadRequest(String::from_str("delta must be a non-zero amount")));
        }
        if !(-MAX_ABS_DELTA <= self.delta && self.delta <= MAX_ABS_DELTA) {
            return Err(
                ApiError::BadRequest(String::from_str("delta must be between -1000000000 and 1000000000")),
            );
        }
        let reason = trim(self.reason.as_str());
        if reason.unicode_len() == 0 {
            return Err(ApiError::BadRequest(String::from_str("a reason is required")));
        }
        if reason.unicode_len() > MAX_REASON_LEN {
            return Err(ApiError::BadRequest(String::from_str("reason must be 280 characters or fewer")));
        }
        Ok(String::from_str(reason))
    }
}

/// The adjustment handed to the store, made by `admin_id`.
pub fn adjustment_record<'a>(
    user_id: i64,
    admin_id: i64,
    admin_username: &'a str,
    delta: i64,
    reason: &'a str,
) -> (record: BalanceAdjustmentRecord<'a>)
    ensures
        record.user_id == user_id,
        record.operator_id == admin_id,
        record.operator_username@ == admin_username@,
        record.delta == delta,
        record.reason@ == reason@,
{
    BalanceAdjustmentRecord { user_id, operator_id: admin_id, operator_username: admin_username, delta, reason }
}

/// What an adjustment is told when the store finds the balance too low for
/// the debit.
pub fn overdrawn() -> (err: ApiError)
    ensures
        err matches ApiError::BadRequest(message)
            && message@ == "this adjustment would take the balance below zero"@,
{
    ApiError::BadRequest(String::from_str("this adjustment would take the balance below zero"))
}

/// The roster after an accepted change to operator `id`.
pub open spec fn apply_operator_update(roster: Map<i64, (OperatorRole, bool)>, id: i64, request: UpdateOperatorRequest) -> Map<
    i64,
    (OperatorRole, bool),
> {
    if roster.contains_key(id) {
        let (role, active) = roster[id];
        let role = match request.role {
            Some(asked) => asked,
            None => role,
        };
        let active = match request.is_active {
            Some(asked) => asked,
            None => active,
        };
        roster.insert(id, (role, active))
    } else {
        roster
    }
}

/// Whether `admin_id` is an active admin on the roster.
pub open spec fn active_admin(roster: Map<i64, (OperatorRole, bool)>, admin_id: i64) -> bool {
    roster.contains_key(admin_id) && roster[admin_id] == (OperatorRole::Admin, true)
}

/// An admin cannot take themselves out: after any change or deletion the
/// checks let through, the admin who made it is still an active admin, so an
/// active admin always remains.
pub proof fn lemma_an_active_admin_remains(
    roster: Map<i64, (OperatorRole, bool)>,
    admin_id: i64,
    id: i64,
    request: UpdateOperatorRequest,
)
    requires
        active_admin(roster, admin_id),
    ensures
        ((request.role is Some || request.is_active is Some) && (id == admin_id ==> request.is_active
            != Some(false) && request.role != Some(OperatorRole::Viewer))) ==> active_admin(
            apply_operator_update(roster, id, request),
            admin_id,
        ),
        id != admin_id ==> active_admin(roster.remove(id), admin_id),
{
}

} // verus!
