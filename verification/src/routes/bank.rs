//! The house bank endpoints: which loans the cashier writes.

use vstd::prelude::*;

use crate::db::LoanRecord;
use crate::error::ApiError;
use crate::games::bank::{posted, quote, terms_for};

verus! {

pub struct BorrowRequest {
    pub amount: i64,
}

impl BorrowRequest {
    /// The marker to record for this request: only a posted amount is lent,
    /// on the posted terms, so the client cannot invent a product the house
    /// never offered.
    pub fn loan_record(&self, user_id: i64) -> (record: Result<LoanRecord, ApiError>)
        ensures
            record is Ok <==> posted().contains(self.amount),
            record matches Ok(loan) ==> loan == (LoanRecord {
                user_id,
                principal: self.amount,
                interest: terms_for(self.amount).interest,
            }),
            record matches Err(err) ==> err matches ApiError::BadRequest(message)
                && message@ == "the bank does not offer a loan of that size"@,
    {
        match quote(self.amount) {
            Some(offer) => Ok(LoanRecord { user_id, principal: offer.principal, interest: offer.interest }),
            None => Err(ApiError::BadRequest(String::from_str("the bank does not offer a loan of that size"))),
        }
    }
}

} // verus!
