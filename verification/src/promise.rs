//! What an entry point answers: a value, or a transfer that the host has to
//! carry out, with the confirmation that is to follow it.

use vstd::prelude::*;

use crate::order::OrderId;

verus! {

/// Gas reserved for the token service's transfer and for the confirmation.
pub const SET_REFUND_GAS: u64 = 10_000_000_000_000;

/// Value attached to a transfer request to the token service.
pub const FT_TRANSFER_DEPOSIT: u128 = 1;

/// Memo of a refund made through the token service.
pub const REFUND_MEMO: &'static str = "Refund order from FT contract";

/// One outbound transfer.
#[derive(Debug, Clone, PartialEq, Eq)]
pub enum Transfer {
    /// Native value sent to `receiver_id`.
    Near { receiver_id: String, amount: u128 },
    /// A request to the token service `token_id` to send `amount` of its
    /// tokens to `receiver_id`.
    FungibleToken { token_id: String, receiver_id: String, amount: u128, memo: String },
}

/// What a `Transfer` stands for.
pub enum TransferView {
    Near { receiver_id: Seq<char>, amount: u128 },
    FungibleToken { token_id: Seq<char>, receiver_id: Seq<char>, amount: u128, memo: Seq<char> },
}

impl View for Transfer {
    type V = TransferView;

    open spec fn view(&self) -> TransferView {
        match *self {
            Transfer::Near { receiver_id, amount } => TransferView::Near {
                receiver_id: receiver_id@,
                amount,
            },
            Transfer::FungibleToken {
                token_id,
                receiver_id,
                amount,
                memo,
            } => TransferView::FungibleToken {
                token_id: token_id@,
                receiver_id: receiver_id@,
                amount,
                memo: memo@,
            },
        }
    }
}

/// A transfer that is pending when the entry point returns.
#[derive(Debug, Clone, PartialEq, Eq)]
pub struct Promise {
    /// The transfer to carry out.
    pub transfer: Transfer,
    /// The order whose refund the outcome of the transfer is to confirm;
    /// `None` for a transfer that nothing waits for.
    pub confirms: Option<OrderId>,
}

/// What a `Promise` stands for.
pub struct PromiseView {
    pub transfer: TransferView,
    pub confirms: Option<Seq<char>>,
}

impl View for Promise {
    type V = PromiseView;

    open spec fn view(&self) -> PromiseView {
        PromiseView {
            transfer: self.transfer@,
            confirms: match self.confirms {
                Some(order_id) => Some(order_id@),
                None => None,
            },
        }
    }
}

/// The answer of an entry point.
#[derive(Debug, Clone, PartialEq, Eq)]
pub enum PromiseOrValue {
    /// A transfer was issued; the host carries it out.
    Promise(Promise),
    /// The request is finished with this quantity as its result.
    Value(u128),
}

/// What a `PromiseOrValue` stands for.
pub enum PromiseOrValueView {
    Promise(PromiseView),
    Value(u128),
}

impl View for PromiseOrValue {
    type V = PromiseOrValueView;

    open spec fn view(&self) -> PromiseOrValueView {
        match *self {
            PromiseOrValue::Promise(promise) => PromiseOrValueView::Promise(promise@),
            PromiseOrValue::Value(value) => PromiseOrValueView::Value(value),
        }
    }
}

/// How a transfer ended, as the host reports it to the confirmation.
#[derive(Debug, Clone, Copy, PartialEq, Eq, Structural)]
pub enum PromiseResult {
    /// No outcome is known.
    NotReady,
    /// The transfer was made.
    Successful,
    /// The transfer was not made.
    Failed,
}

} // verus!
