//! What each endpoint decides, apart from the reading and writing around it:
//! the request bodies, the checks a request must pass, and what is handed
//! to the store and answered.

use vstd::prelude::*;

use crate::error::ApiError;
use crate::text::{decimal, decimal_text};

pub mod admin;
pub mod auth;
pub mod bank;
pub mod blackjack;
pub mod games;
pub mod status;

verus! {

/// What a player is told when a stake is outside the table limits.
pub open spec fn bet_range_message(min: i64, max: i64) -> Seq<char> {
    "bet must be between "@ + decimal_text(min as int) + " and "@ + decimal_text(max as int)
        + " coins"@
}

/// Accepts a stake within `min..=max`.
pub fn check_bet(bet: i64, min: i64, max: i64) -> (checked: Result<(), ApiError>)
    ensures
        checked is Ok <==> min <= bet <= max,
        checked matches Err(err) ==> err matches ApiError::BadRequest(message)
            && message@ == bet_range_message(min, max),
{
    if min <= bet && bet <= max {
        return Ok(());
    }
    let mut message = String::from_str("bet must be between ");
    message.append(decimal(min).as_str());
    message.append(" and ");
    message.append(decimal(max).as_str());
    message.append(" coins");
    Err(ApiError::BadRequest(message))
}

} // verus!
