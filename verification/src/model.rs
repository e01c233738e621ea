//! The settlement protocol as mathematics: what each entry point makes of the
//! state it finds and the request it gets.
//!
//! Every entry point is one step. A step that fails leaves the state as it
//! was. A refund takes two steps: `cancel_order` issues the transfer and
//! writes nothing, and `set_is_refunded` marks the order once the transfer's
//! outcome is known.

use vstd::prelude::*;

use crate::context::CallContextView;
use crate::error::Error;
use crate::ledger::LedgerView;
use crate::message::FtMessageView;
use crate::order::{OrderView, PaymentMethod};
use crate::promise::{PromiseOrValueView, PromiseResult, PromiseView, TransferView, REFUND_MEMO};

verus! {

/// The state of the desk: who owns it, which token service it takes
/// payments from, and the ledger.
pub struct ContractView {
    pub owner_id: Seq<char>,
    pub ft_contract_id: Seq<char>,
    pub orders: LedgerView,
}

/// The answer of a step.
pub type ReplyView = Result<PromiseOrValueView, Error>;

/// What a step leaves behind: the state after it, and its answer.
pub struct Step {
    pub state: ContractView,
    pub reply: ReplyView,
}

/// The record written for a payment at the time `created_at`: `payer_id`
/// gave `received_amount` over `payment_method` for an order that costs
/// `amount`.
pub open spec fn paid_order(
    payment_method: PaymentMethod,
    order_id: Seq<char>,
    payer_id: Seq<char>,
    amount: u128,
    received_amount: u128,
    created_at: u64,
) -> OrderView {
    OrderView {
        order_id,
        payer_id,
        payment_method,
        amount,
        received_amount,
        is_completed: true,
        is_refund: false,
        created_at,
    }
}

/// What is left of `given` once `price` is taken from it.
pub open spec fn excess(given: u128, price: u128) -> u128 {
    if given > price {
        (given - price) as u128
    } else {
        0
    }
}

/// The answer to a direct payment: the excess goes back to the payer at
/// once, and nothing waits for that transfer.
pub open spec fn change_reply(ctx: CallContextView, order_amount: u128) -> PromiseOrValueView {
    if ctx.attached_deposit > order_amount {
        PromiseOrValueView::Promise(
            PromiseView {
                transfer: TransferView::Near {
                    receiver_id: ctx.predecessor_account_id,
                    amount: excess(ctx.attached_deposit, order_amount),
                },
                confirms: None,
            },
        )
    } else {
        PromiseOrValueView::Value(0)
    }
}

impl OrderView {
    /// The transfer that gives the order's price back to its payer, over the
    /// rail by which it was paid.
    pub open spec fn refund_transfer(self, ft_contract_id: Seq<char>) -> TransferView {
        match self.payment_method {
            PaymentMethod::NEAR => TransferView::Near {
                receiver_id: self.payer_id,
                amount: self.amount,
            },
            PaymentMethod::FungibleToken => TransferView::FungibleToken {
                token_id: ft_contract_id,
                receiver_id: self.payer_id,
                amount: self.amount,
                memo: REFUND_MEMO@,
            },
        }
    }
}

impl ContractView {
    /// The state of a desk that has recorded nothing yet.
    pub open spec fn initial(owner_id: Seq<char>, ft_contract_id: Seq<char>) -> ContractView {
        ContractView { owner_id, ft_contract_id, orders: Map::empty() }
    }

    /// An order is recorded under `order_id` and it is paid.
    pub open spec fn is_paid(self, order_id: Seq<char>) -> bool {
        self.orders.contains_key(order_id) && self.orders[order_id].is_completed
    }

    /// The same state with `order` written under `order_id`.
    pub open spec fn with_order(self, order_id: Seq<char>, order: OrderView) -> ContractView {
        ContractView { orders: self.orders.insert(order_id, order), ..self }
    }

    /// A step that fails: nothing changes.
    pub open spec fn rejected(self, error: Error) -> Step {
        Step { state: self, reply: Err(error) }
    }

    /// A step that answers and writes nothing.
    pub open spec fn answered(self, reply: PromiseOrValueView) -> Step {
        Step { state: self, reply: Ok(reply) }
    }

    /// A payment with value attached to the request.
    pub open spec fn pay_order(
        self,
        ctx: CallContextView,
        order_id: Seq<char>,
        order_amount: u128,
    ) -> Step {
        if ctx.attached_deposit < order_amount {
            self.rejected(Error::InsufficientDeposit)
        } else if self.is_paid(order_id) {
            self.rejected(Error::AlreadyCompleted)
        } else {
            Step {
                state: self.with_order(
                    order_id,
                    paid_order(
                        PaymentMethod::NEAR,
                        order_id,
                        ctx.predecessor_account_id,
                        order_amount,
                        ctx.attached_deposit,
                        ctx.block_timestamp,
                    ),
                ),
                reply: Ok(change_reply(ctx, order_amount)),
            }
        }
    }

    /// A payment that the token service relays for `sender_id`, who sent it
    /// `amount` with a message that decoded to `message`, or did not decode.
    /// The order is recorded with `sender_id` as payer and `amount` as
    /// received; the answer is the part of `amount` that the order does not
    /// take, which the token service gives back.
    pub open spec fn ft_on_transfer(
        self,
        ctx: CallContextView,
        sender_id: Seq<char>,
        amount: u128,
        message: Option<FtMessageView>,
    ) -> Step {
        if ctx.predecessor_account_id != self.ft_contract_id {
            self.rejected(Error::Unauthorized)
        } else {
            match message {
                None => self.rejected(Error::InvalidMessage),
                Some(message) => {
                    if amount < message.order_amount {
                        self.rejected(Error::InsufficientPayment)
                    } else if self.is_paid(message.order_id) {
                        self.rejected(Error::AlreadyCompleted)
                    } else {
                        Step {
                            state: self.with_order(
                                message.order_id,
                                paid_order(
                                    PaymentMethod::FungibleToken,
                                    message.order_id,
                                    sender_id,
                                    message.order_amount,
                                    amount,
                                    ctx.block_timestamp,
                                ),
                            ),
                            reply: Ok(
                                PromiseOrValueView::Value(excess(amount, message.order_amount)),
                            ),
                        }
                    }
                },
            }
        }
    }

    /// The owner cancels an order: the refund transfer is issued, with the
    /// order's identifier for the confirmation; the ledger is not written.
    pub open spec fn cancel_order(self, ctx: CallContextView, order_id: Seq<char>) -> Step {
        if ctx.predecessor_account_id != self.owner_id {
            self.rejected(Error::Unauthorized)
        } else if !self.orders.contains_key(order_id) {
            self.rejected(Error::NotFound)
        } else {
            let order = self.orders[order_id];
            if order.is_refund {
                self.rejected(Error::AlreadyRefunded)
            } else if !order.is_completed {
                self.rejected(Error::NotCompleted)
            } else if order.amount > 0 {
                self.answered(
                    PromiseOrValueView::Promise(
                        PromiseView {
                            transfer: order.refund_transfer(self.ft_contract_id),
                            confirms: Some(order_id),
                        },
                    ),
                )
            } else {
                self.answered(PromiseOrValueView::Value(0))
            }
        }
    }

    /// The confirmation of a refund: the desk, acting on itself, learns the
    /// one outcome of the transfer issued for `order_id`.
    pub open spec fn set_is_refunded(
        self,
        ctx: CallContextView,
        order_id: Seq<char>,
        results: Seq<PromiseResult>,
    ) -> Step {
        if ctx.predecessor_account_id != ctx.current_account_id {
            self.rejected(Error::Unauthorized)
        } else if results.len() != 1 {
            self.rejected(Error::UnexpectedResultCount)
        } else if results[0] == PromiseResult::Successful {
            if !self.orders.contains_key(order_id) {
                self.rejected(Error::NotFound)
            } else {
                let order = self.orders[order_id];
                Step {
                    state: self.with_order(order_id, order.refunded()),
                    reply: Ok(PromiseOrValueView::Value(order.amount)),
                }
            }
        } else {
            self.answered(PromiseOrValueView::Value(0))
        }
    }

    /// The record under `order_id`, or `NotFound`.
    pub open spec fn get_order(self, order_id: Seq<char>) -> Result<OrderView, Error> {
        if self.orders.contains_key(order_id) {
            Ok(self.orders[order_id])
        } else {
            Err(Error::NotFound)
        }
    }
}

} // verus!
