//! Why a request was refused, in the terms the client is told.

use vstd::prelude::*;

verus! {

/// A refusal, with the HTTP status and machine-readable code it is answered
/// with. Failures of the database and other internal faults are answered as
/// `Internal`.
#[derive(Debug, Clone, PartialEq, Eq)]
pub enum ApiError {
    InvalidCredentials,
    Unauthenticated,
    Forbidden(String),
    NotFound(String),
    BadRequest(String),
    UsernameTaken,
    InsufficientFunds,
    LoanOutstanding,
    NoOpenLoan,
    HandInProgress,
    NoOpenHand,
    Internal(String),
}

/// The machine-readable code of a refusal.
pub open spec fn error_code(err: ApiError) -> Seq<char> {
    match err {
        ApiError::InvalidCredentials => "invalid_credentials"@,
        ApiError::Unauthenticated => "unauthenticated"@,
        ApiError::Forbidden(_) => "forbidden"@,
        ApiError::NotFound(_) => "not_found"@,
        ApiError::BadRequest(_) => "bad_request"@,
        ApiError::UsernameTaken => "username_taken"@,
        ApiError::InsufficientFunds => "insufficient_funds"@,
        ApiError::LoanOutstanding => "loan_outstanding"@,
        ApiError::NoOpenLoan => "no_open_loan"@,
        ApiError::HandInProgress => "hand_in_progress"@,
        ApiError::NoOpenHand => "no_open_hand"@,
        ApiError::Internal(_) => "internal_error"@,
    }
}

/// The HTTP status a refusal is answered with.
pub open spec fn error_status(err: ApiError) -> u16 {
    match err {
        ApiError::InvalidCredentials | ApiError::Unauthenticated => 401,
        ApiError::Forbidden(_) => 403,
        ApiError::NotFound(_) => 404,
        ApiError::BadRequest(_) => 400,
        ApiError::UsernameTaken => 409,
        ApiError::InsufficientFunds => 402,
        ApiError::LoanOutstanding => 409,
        ApiError::NoOpenLoan => 400,
        ApiError::HandInProgress => 409,
        ApiError::NoOpenHand => 400,
        ApiError::Internal(_) => 500,
    }
}

/// What the person on the other end is told.
pub open spec fn error_message(err: ApiError) -> Seq<char> {
    match err {
        ApiError::InvalidCredentials => "invalid username or password"@,
        ApiError::Unauthenticated => "authentication required"@,
        ApiError::Forbidden(message) => message@,
        ApiError::NotFound(message) => message@,
        ApiError::BadRequest(message) => message@,
        ApiError::UsernameTaken => "username is already taken"@,
        ApiError::InsufficientFunds => "you do not have enough coins"@,
        ApiError::LoanOutstanding => "you already have an outstanding loan"@,
        ApiError::NoOpenLoan => "you do not have an outstanding loan"@,
        ApiError::HandInProgress => "you already have a hand in play"@,
        ApiError::NoOpenHand => "you do not have a hand in play"@,
        ApiError::Internal(_) => "internal server error"@,
    }
}

impl ApiError {
    pub fn code(&self) -> (code: &'static str)
        ensures
            code@ == error_code(*self),
    {
        match self {
            ApiError::InvalidCredentials => "invalid_credentials",
            ApiError::Unauthenticated => "unauthenticated",
            ApiError::Forbidden(_) => "forbidden",
            ApiError::NotFound(_) => "not_found",
            ApiError::BadRequest(_) => "bad_request",
            ApiError::UsernameTaken => "username_taken",
            ApiError::InsufficientFunds => "insufficient_funds",
            ApiError::LoanOutstanding => "loan_outstanding",
            ApiError::NoOpenLoan => "no_open_loan",
            ApiError::HandInProgress => "hand_in_progress",
            ApiError::NoOpenHand => "no_open_hand",
            ApiError::Internal(_) => "internal_error",
        }
    }

    pub fn status(&self) -> (status: u16)
        ensures
            status == error_status(*self),
    {
        match self {
            ApiError::InvalidCredentials | ApiError::Unauthenticated => 401,
            ApiError::Forbidden(_) => 403,
            ApiError::NotFound(_) => 404,
            ApiError::BadRequest(_) => 400,
            ApiError::UsernameTaken => 409,
            ApiError::InsufficientFunds => 402,
            ApiError::LoanOutstanding => 409,
            ApiError::NoOpenLoan => 400,
            ApiError::HandInProgress => 409,
            ApiError::NoOpenHand => 400,
            ApiError::Internal(_) => 500,
        }
    }

    /// The text shown for this refusal.
    pub fn message(&self) -> (text: String)
        ensures
            text@ == error_message(*self),
    {
        match self {
            ApiError::InvalidCredentials => String::from_str("invalid username or password"),
            ApiError::Unauthenticated => String::from_str("authentication required"),
            ApiError::Forbidden(message) => message.clone(),
            ApiError::NotFound(message) => message.clone(),
            ApiError::BadRequest(message) => message.clone(),
            ApiError::UsernameTaken => String::from_str("username is already taken"),
            ApiError::InsufficientFunds => String::from_str("you do not have enough coins"),
            ApiError::LoanOutstanding => String::from_str("you already have an outstanding loan"),
            ApiError::NoOpenLoan => String::from_str("you do not have an outstanding loan"),
            ApiError::HandInProgress => String::from_str("you already have a hand in play"),
            ApiError::NoOpenHand => String::from_str("you do not have a hand in play"),
            ApiError::Internal(_) => String::from_str("internal server error"),
        }
    }

    /// Whether the answer carries a `WWW-Authenticate: Bearer` challenge:
    /// the refusals that a fresh sign-in could cure.
    pub fn challenges(&self) -> (challenge: bool)
        ensures
            challenge == (*self is Unauthenticated || *self is InvalidCredentials),
    {
        match self {
            ApiError::Unauthenticated | ApiError::InvalidCredentials => true,
            _ => false,
        }
    }
}

} // verus!
