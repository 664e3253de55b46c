use casino_backend::db::{AdjustmentFilter, PlayerFilter};
use casino_backend::error::ApiError;
use casino_backend::models::OperatorRole;
use casino_backend::routes::admin::{
    adjustment_record, check_operator_delete, default_role, operator_sign_in, overdrawn, page_limit,
    page_offset, unknown_operator, unknown_player, AdjustBalanceRequest, ChangeOwnPasswordRequest,
    CreateOperatorRequest, ListAdjustmentsQuery, ListPlayersQuery, ResetPasswordRequest,
    UpdateOperatorRequest,
};
use casino_backend::routes::auth::{candidate_hash, player_sign_in, LoginRequest, RegisterRequest};
use casino_backend::routes::check_bet;

fn bad_request(message: &str) -> ApiError {
    ApiError::BadRequest(message.to_string())
}

fn forbidden(message: &str) -> ApiError {
    ApiError::Forbidden(message.to_string())
}

#[test]
fn a_bet_message_names_the_limits() {
    assert_eq!(check_bet(5, 1, 500), Ok(()));
    assert_eq!(check_bet(1, 1, 500), Ok(()));
    assert_eq!(check_bet(501, 1, 500), Err(bad_request("bet must be between 1 and 500 coins")));
    assert_eq!(check_bet(0, -20, -10), Err(bad_request("bet must be between -20 and -10 coins")));
}

#[test]
fn sign_in_trims_the_name_and_needs_both_fields() {
    let request = LoginRequest { username: "  dealer  ".to_string(), password: "secret".to_string() };
    assert_eq!(request.name(), Ok("dealer".to_string()));
    let blank = LoginRequest { username: "   ".to_string(), password: "secret".to_string() };
    assert_eq!(blank.name(), Err(bad_request("username and password are required")));
    let no_password = LoginRequest { username: "dealer".to_string(), password: String::new() };
    assert_eq!(no_password.name(), Err(bad_request("username and password are required")));
}

#[test]
fn registration_reports_the_name_before_the_password() {
    let both_bad = RegisterRequest { username: " x ".to_string(), password: "short".to_string() };
    assert_eq!(
        both_bad.name(),
        Err(bad_request("username must be between 3 and 24 characters long"))
    );
    let bad_password = RegisterRequest { username: "player_one".to_string(), password: "short".to_string() };
    assert_eq!(bad_password.name(), Err(bad_request("password must be at least 10 characters long")));
    let good = RegisterRequest { username: " player_one ".to_string(), password: "long-enough-pass".to_string() };
    assert_eq!(good.name(), Ok("player_one".to_string()));
}

#[test]
fn an_unknown_name_and_a_wrong_password_look_the_same() {
    assert_eq!(player_sign_in(None, false), Err(ApiError::InvalidCredentials));
    assert_eq!(player_sign_in(None, true), Err(ApiError::InvalidCredentials));
    assert_eq!(player_sign_in(Some(false), false), Err(ApiError::InvalidCredentials));
    assert_eq!(player_sign_in(Some(true), false), Err(ApiError::InvalidCredentials));
    assert_eq!(player_sign_in(Some(true), true), Err(forbidden("this account has been suspended")));
    assert_eq!(player_sign_in(Some(false), true), Ok(()));

    assert_eq!(operator_sign_in(None, true), Err(ApiError::InvalidCredentials));
    assert_eq!(operator_sign_in(Some(false), false), Err(ApiError::InvalidCredentials));
    assert_eq!(
        operator_sign_in(Some(false), true),
        Err(forbidden("this operator account has been deactivated"))
    );
    assert_eq!(operator_sign_in(Some(true), true), Ok(()));
}

#[test]
fn an_unknown_name_is_checked_against_the_decoy() {
    assert_eq!(candidate_hash(Some("$own".to_string()), "$decoy"), "$own");
    assert_eq!(candidate_hash(None, "$decoy"), "$decoy");
}

#[test]
fn operators_made_through_the_api_are_viewers_by_default() {
    assert_eq!(default_role(), OperatorRole::Viewer);
    let request = CreateOperatorRequest {
        username: " floor_boss ".to_string(),
        password: "long-enough-pass".to_string(),
        role: default_role(),
    };
    assert_eq!(request.name(), Ok("floor_boss".to_string()));
    let weak = CreateOperatorRequest {
        username: "floor_boss".to_string(),
        password: "x".to_string(),
        role: OperatorRole::Admin,
    };
    assert_eq!(weak.name(), Err(bad_request("password must be at least 10 characters long")));
}

#[test]
fn an_admin_cannot_take_themselves_out() {
    let empty = UpdateOperatorRequest { role: None, is_active: None };
    assert_eq!(empty.check(2, 1), Err(bad_request("provide role, is_active, or both")));

    let deactivate = UpdateOperatorRequest { role: None, is_active: Some(false) };
    assert_eq!(deactivate.check(1, 1), Err(forbidden("you cannot deactivate your own account")));
    assert_eq!(deactivate.check(2, 1), Ok(()));

    let demote = UpdateOperatorRequest { role: Some(OperatorRole::Viewer), is_active: None };
    assert_eq!(demote.check(1, 1), Err(forbidden("you cannot remove your own admin role")));
    assert_eq!(demote.check(2, 1), Ok(()));

    let both = UpdateOperatorRequest { role: Some(OperatorRole::Viewer), is_active: Some(false) };
    assert_eq!(both.check(1, 1), Err(forbidden("you cannot deactivate your own account")));

    let stay = UpdateOperatorRequest { role: Some(OperatorRole::Admin), is_active: Some(true) };
    assert_eq!(stay.check(1, 1), Ok(()));

    assert_eq!(check_operator_delete(1, 1), Err(forbidden("you cannot delete your own account")));
    assert_eq!(check_operator_delete(2, 1), Ok(()));
}

#[test]
fn an_admin_resets_only_other_passwords() {
    let request = ResetPasswordRequest { new_password: "brand-new-password".to_string() };
    assert_eq!(
        request.check(1, 1),
        Err(forbidden("use the change-my-password endpoint for your own account"))
    );
    assert_eq!(request.check(2, 1), Ok(()));
    let weak = ResetPasswordRequest { new_password: "short".to_string() };
    assert_eq!(weak.check(2, 1), Err(bad_request("password must be at least 10 characters long")));
}

#[test]
fn changing_your_own_password_needs_the_current_one() {
    let request = ChangeOwnPasswordRequest {
        current_password: "old-password-here".to_string(),
        new_password: "short".to_string(),
    };
    assert_eq!(request.check(), Err(bad_request("password must be at least 10 characters long")));
    assert_eq!(ChangeOwnPasswordRequest::confirm(false), Err(forbidden("current password is incorrect")));
    assert_eq!(ChangeOwnPasswordRequest::confirm(true), Ok(()));
}

#[test]
fn listings_are_paged_within_bounds() {
    assert_eq!(page_limit(None), 50);
    assert_eq!(page_limit(Some(0)), 1);
    assert_eq!(page_limit(Some(-3)), 1);
    assert_eq!(page_limit(Some(75)), 75);
    assert_eq!(page_limit(Some(10_000)), 200);
    assert_eq!(page_offset(None), 0);
    assert_eq!(page_offset(Some(-1)), 0);
    assert_eq!(page_offset(Some(40)), 40);

    let default = PlayerFilter::default();
    assert_eq!((default.search, default.limit, default.offset), (None, 50, 0));
    assert_eq!(AdjustmentFilter::default(), AdjustmentFilter { user_id: None, limit: 50, offset: 0 });
}

#[test]
fn a_player_search_ignores_surrounding_space() {
    let query = ListPlayersQuery { search: Some("  ace ".to_string()), limit: Some(500), offset: Some(-10) };
    let term = query.search_term();
    assert_eq!(term, Some("ace".to_string()));
    let filter = query.filter(&term);
    assert_eq!(filter.search, Some("ace"));
    assert_eq!(filter.limit, 200);
    assert_eq!(filter.offset, 0);

    let blank = ListPlayersQuery { search: Some("   ".to_string()), limit: None, offset: None };
    assert_eq!(blank.search_term(), None);
}

#[test]
fn the_audit_log_filters_only_on_real_player_ids() {
    let query = ListAdjustmentsQuery { player_id: Some(0), limit: None, offset: Some(20) };
    assert_eq!(query.filter(), AdjustmentFilter { user_id: None, limit: 50, offset: 20 });
    let query = ListAdjustmentsQuery { player_id: Some(9), limit: Some(3), offset: None };
    assert_eq!(query.filter(), AdjustmentFilter { user_id: Some(9), limit: 3, offset: 0 });
}

#[test]
fn an_adjustment_needs_an_amount_and_a_reason() {
    let zero = AdjustBalanceRequest { delta: 0, reason: "comp".to_string() };
    assert_eq!(zero.reason(), Err(bad_request("delta must be a non-zero amount")));
    let huge = AdjustBalanceRequest { delta: -1_000_000_001, reason: "comp".to_string() };
    assert_eq!(huge.reason(), Err(bad_request("delta must be between -1000000000 and 1000000000")));
    let silent = AdjustBalanceRequest { delta: 5, reason: "   ".to_string() };
    assert_eq!(silent.reason(), Err(bad_request("a reason is required")));
    let long = AdjustBalanceRequest { delta: 5, reason: "é".repeat(281) };
    assert_eq!(long.reason(), Err(bad_request("reason must be 280 characters or fewer")));
    let just_right = AdjustBalanceRequest { delta: 1_000_000_000, reason: "é".repeat(280) };
    assert_eq!(just_right.reason(), Ok("é".repeat(280)));
    let ok = AdjustBalanceRequest { delta: -25, reason: "  refund  ".to_string() };
    assert_eq!(ok.reason(), Ok("refund".to_string()));

    let record = adjustment_record(4, 1, "boss", -25, "refund");
    assert_eq!((record.user_id, record.operator_id, record.delta), (4, 1, -25));
    assert_eq!((record.operator_username, record.reason), ("boss", "refund"));
}

#[test]
fn unknown_ids_and_overdrafts_have_their_own_answers() {
    assert_eq!(unknown_operator(), ApiError::NotFound("no operator with that id".to_string()));
    assert_eq!(unknown_player(), ApiError::NotFound("no player with that id".to_string()));
    assert_eq!(overdrawn(), bad_request("this adjustment would take the balance below zero"));
}

#[test]
fn unicode_white_space_is_trimmed_from_names() {
    let request = LoginRequest { username: "\u{3000}dealer\u{a0}\t".to_string(), password: "x".to_string() };
    assert_eq!(request.name(), Ok("dealer".to_string()));
}
