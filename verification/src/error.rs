//! Why a request was turned down.

use vstd::prelude::*;

verus! {

pub const ERROR_DEPOSIT_NOT_ENOUGH: &'static str = "ERROR_DEPOSIT_NOT_ENOUGH";

pub const ERROR_PAYMENT_NOT_ENOUGH: &'static str = "ERROR_PAYMENT_NOT_ENOUGH";

pub const ERROR_NOT_INVALID_MESSAGE: &'static str = "ERROR_NOT_INVALID_MESSAGE";

pub const ERROR_NOT_FOUND_ORDER_ID: &'static str = "ERROR_NOT_FOUND_ORDER_ID";

pub const ERROR_UNAUTHORIZED: &'static str = "ERROR_UNAUTHORIZED";

pub const ERROR_ALREADY_COMPLETED: &'static str = "ERROR_ALREADY_COMPLETED";

pub const ERROR_ALREADY_REFUNDED: &'static str = "ERROR_ALREADY_REFUNDED";

pub const ERROR_NOT_COMPLETED: &'static str = "ERROR_NOT_COMPLETED";

pub const ERROR_TOO_MANY_RESULTS: &'static str = "ERROR_TOO_MANY_RESULTS";

/// Every failure ends the request in which it occurs and leaves the ledger
/// as it was.
#[derive(Debug, Clone, Copy, PartialEq, Eq, Structural)]
pub enum Error {
    /// Less value was attached to a payment than the order costs.
    InsufficientDeposit,
    /// The token service forwarded less than the order costs.
    InsufficientPayment,
    /// The message relayed with a token payment names no order and amount.
    InvalidMessage,
    /// The ledger holds no order under the identifier.
    NotFound,
    /// The caller is not the one identity that may make this request.
    Unauthorized,
    /// A payment was offered for an order that is paid already.
    AlreadyCompleted,
    /// A refund was asked for an order that is refunded already.
    AlreadyRefunded,
    /// A refund was asked for an order that was never paid.
    NotCompleted,
    /// A confirmation came with another number of outcomes than one.
    UnexpectedResultCount,
}

impl Error {
    /// The text that names each failure.
    pub open spec fn spec_message(self) -> Seq<char> {
        match self {
            Error::InsufficientDeposit => ERROR_DEPOSIT_NOT_ENOUGH@,
            Error::InsufficientPayment => ERROR_PAYMENT_NOT_ENOUGH@,
            Error::InvalidMessage => ERROR_NOT_INVALID_MESSAGE@,
            Error::NotFound => ERROR_NOT_FOUND_ORDER_ID@,
            Error::Unauthorized => ERROR_UNAUTHORIZED@,
            Error::AlreadyCompleted => ERROR_ALREADY_COMPLETED@,
            Error::AlreadyRefunded => ERROR_ALREADY_REFUNDED@,
            Error::NotCompleted => ERROR_NOT_COMPLETED@,
            Error::UnexpectedResultCount => ERROR_TOO_MANY_RESULTS@,
        }
    }

    /// The text with which a host reports the failure.
    pub fn message(&self) -> (text: &'static str)
        ensures
            text@ == self.spec_message(),
    {
        match self {
            Error::InsufficientDeposit => ERROR_DEPOSIT_NOT_ENOUGH,
            Error::InsufficientPayment => ERROR_PAYMENT_NOT_ENOUGH,
            Error::InvalidMessage => ERROR_NOT_INVALID_MESSAGE,
            Error::NotFound => ERROR_NOT_FOUND_ORDER_ID,
            Error::Unauthorized => ERROR_UNAUTHORIZED,
            Error::AlreadyCompleted => ERROR_ALREADY_COMPLETED,
            Error::AlreadyRefunded => ERROR_ALREADY_REFUNDED,
            Error::NotCompleted => ERROR_NOT_COMPLETED,
            Error::UnexpectedResultCount => ERROR_TOO_MANY_RESULTS,
        }
    }
}

} // verus!
