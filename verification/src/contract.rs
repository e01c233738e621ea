//! The desk itself: its state and its entry points.
//!
//! An entry point never reaches out. It is told the circumstances of the
//! request in a `CallContext`, decides, writes the ledger, and answers with a
//! value or with the transfer that the host has to carry out. The outcome of
//! a refund transfer comes back through `set_is_refunded`.

use vstd::prelude::*;

use crate::context::CallContext;
use crate::error::Error;
use crate::ledger::Ledger;
use crate::model::{ContractView, ReplyView, Step};
use crate::order::{Order, OrderId, PaymentMethod};
use crate::promise::{Promise, PromiseOrValue, PromiseResult, Transfer, REFUND_MEMO};

verus! {

/// The order desk.
pub struct EcommerceContract {
    /// Who may cancel orders.
    pub owner_id: String,
    /// The token service whose relayed payments are accepted.
    pub ft_contract_id: String,
    /// The ledger.
    pub orders: Ledger,
}

impl View for EcommerceContract {
    type V = ContractView;

    open spec fn view(&self) -> ContractView {
        ContractView {
            owner_id: self.owner_id@,
            ft_contract_id: self.ft_contract_id@,
            orders: self.orders@,
        }
    }
}

/// The view of an entry point's answer.
pub open spec fn reply_view(reply: Result<PromiseOrValue, Error>) -> ReplyView {
    match reply {
        Ok(reply) => Ok(reply@),
        Err(error) => Err(error),
    }
}

/// The confirmation that the desk sends to itself after a refund transfer.
pub trait ExtSelf {
    /// Takes the outcome of the transfer that was issued for `order_id`.
    fn set_is_refunded(
        &mut self,
        ctx: &CallContext,
        order_id: OrderId,
        results: &Vec<PromiseResult>,
    ) -> Result<PromiseOrValue, Error>;
}

impl EcommerceContract {
    /// A desk owned by `owner_id` that takes token payments from
    /// `ft_contract_id`, with an empty ledger.
    pub fn new(owner_id: String, ft_contract_id: String) -> (contract: EcommerceContract)
        ensures
            contract@ == ContractView::initial(owner_id@, ft_contract_id@),
    {
        EcommerceContract { owner_id, ft_contract_id, orders: Ledger::new() }
    }

    /// Whether a paid order is recorded under `order_id`.
    pub fn is_paid(&self, order_id: &OrderId) -> (paid: bool)
        ensures
            paid == self@.is_paid(order_id@),
    {
        match self.orders.peek(order_id) {
            Some(order) => order.is_completed,
            None => false,
        }
    }

    /// Records the payment of `order_amount` for `order_id` by the caller,
    /// who attached at least that much; what was attached beyond it goes
    /// back to the caller.
    pub fn pay_order(&mut self, ctx: &CallContext, order_id: OrderId, order_amount: u128) -> (reply:
        Result<PromiseOrValue, Error>)
        ensures
            (Step { state: final(self)@, reply: reply_view(reply) }) == old(self)@.pay_order(
                ctx@,
                order_id@,
                order_amount,
            ),
    {
        if ctx.attached_deposit < order_amount {
            return Err(Error::InsufficientDeposit);
        }
        if self.is_paid(&order_id) {
            return Err(Error::AlreadyCompleted);
        }
        let order = Order {
            order_id: order_id.clone(),
            payer_id: ctx.predecessor_account_id.clone(),
            payment_method: PaymentMethod::NEAR,
            amount: order_amount,
            received_amount: ctx.attached_deposit,
            is_completed: true,
            is_refund: false,
            created_at: ctx.block_timestamp,
        };
        self.orders.upsert(order_id, order);
        if ctx.attached_deposit > order_amount {
            Ok(
                PromiseOrValue::Promise(
                    Promise {
                        transfer: Transfer::Near {
                            receiver_id: ctx.predecessor_account_id.clone(),
                            amount: ctx.attached_deposit - order_amount,
                        },
                        confirms: None,
                    },
                ),
            )
        } else {
            Ok(PromiseOrValue::Value(0))
        }
    }

    /// The record under `order_id`.
    pub fn get_order(&self, order_id: OrderId) -> (found: Result<Order, Error>)
        ensures
            found.is_ok() == self@.get_order(order_id@).is_ok(),
            found matches Ok(order) ==> self@.get_order(order_id@) == Ok::<_, Error>(order@),
            found matches Err(error) ==> error == Error::NotFound,
    {
        self.orders.get(&order_id)
    }

    /// Issues the refund of a paid order on the owner's request. The order
    /// is marked only by the confirmation that follows the transfer.
    pub fn cancel_order(&mut self, ctx: &CallContext, order_id: OrderId) -> (reply: Result<
        PromiseOrValue,
        Error,
    >)
        ensures
            (Step { state: final(self)@, reply: reply_view(reply) }) == old(self)@.cancel_order(
                ctx@,
                order_id@,
            ),
    {
        if !(ctx.predecessor_account_id == self.owner_id) {
            return Err(Error::Unauthorized);
        }
        let order = match self.orders.peek(&order_id) {
            Some(order) => order,
            None => {
                return Err(Error::NotFound);
            },
        };
        if order.is_refund {
            return Err(Error::AlreadyRefunded);
        }
        if !order.is_completed {
            return Err(Error::NotCompleted);
        }
        if order.amount > 0 {
            let transfer = match order.payment_method {
                PaymentMethod::NEAR => Transfer::Near {
                    receiver_id: order.payer_id.clone(),
                    amount: order.amount,
                },
                PaymentMethod::FungibleToken => Transfer::FungibleToken {
                    token_id: self.ft_contract_id.clone(),
                    receiver_id: order.payer_id.clone(),
                    amount: order.amount,
                    memo: REFUND_MEMO.to_owned(),
                },
            };
            Ok(PromiseOrValue::Promise(Promise { transfer, confirms: Some(order_id) }))
        } else {
            Ok(PromiseOrValue::Value(0))
        }
    }
}

impl ExtSelf for EcommerceContract {
    /// Marks the order refunded where the one outcome is a success, and
    /// answers with the refunded amount; answers 0 and writes nothing where
    /// the transfer failed or its outcome is not known.
    fn set_is_refunded(
        &mut self,
        ctx: &CallContext,
        order_id: OrderId,
        results: &Vec<PromiseResult>,
    ) -> (reply: Result<PromiseOrValue, Error>)
        ensures
            (Step { state: final(self)@, reply: reply_view(reply) }) == old(self)@.set_is_refunded(
                ctx@,
                order_id@,
                results@,
            ),
    {
        if !(ctx.predecessor_account_id == ctx.current_account_id) {
            return Err(Error::Unauthorized);
        }
        if results.len() != 1 {
            return Err(Error::UnexpectedResultCount);
        }
        match results[0] {
            PromiseResult::Successful => {
                let mut order = match self.orders.get(&order_id) {
                    Ok(order) => order,
                    Err(error) => {
                        return Err(error);
                    },
                };
                order.is_refund = true;
                let amount = order.amount;
                self.orders.upsert(order_id, order);
                Ok(PromiseOrValue::Value(amount))
            },
            _ => Ok(PromiseOrValue::Value(0)),
        }
    }
}

} // verus!
