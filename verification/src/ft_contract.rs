//! The token rail: payments that the token service relays, and the
//! interface of that service.

use vstd::prelude::*;

use crate::context::CallContext;
use crate::contract::{reply_view, EcommerceContract};
use crate::error::Error;
use crate::message::{decode_message, decoded, message_view, FtMessage};
use crate::model::Step;
use crate::order::{Order, PaymentMethod};
use crate::promise::PromiseOrValue;

verus! {

/// What a receiver of token payments offers to the token service.
pub trait FungibleTokenReceiver {
    /// Takes the notice that `sender_id` sent `amount` with the message
    /// `msg`, and answers with the part of `amount` that is not used.
    fn ft_on_transfer(&mut self, ctx: &CallContext, sender_id: String, amount: u128, msg: String) -> Result<
        PromiseOrValue,
        Error,
    >;
}

/// What the token service offers: the caller of `ft_transfer` sends `amount`
/// of its own tokens to `receiver_id`.
pub trait FungibleToken {
    fn ft_transfer(
        &mut self,
        ctx: &CallContext,
        receiver_id: String,
        amount: u128,
        memo: Option<String>,
    );
}

impl EcommerceContract {
    /// Records the token payment that `message` describes, relayed by the
    /// token service for `sender_id`; `message` is `None` where what was
    /// relayed with the payment did not decode.
    pub fn accept_token_payment(
        &mut self,
        ctx: &CallContext,
        sender_id: String,
        amount: u128,
        message: Option<FtMessage>,
    ) -> (reply: Result<PromiseOrValue, Error>)
        ensures
            (Step { state: final(self)@, reply: reply_view(reply) }) == old(self)@.ft_on_transfer(
                ctx@,
                sender_id@,
                amount,
                message_view(message),
            ),
    {
        if !(ctx.predecessor_account_id == self.ft_contract_id) {
            return Err(Error::Unauthorized);
        }
        let message = match message {
            Some(message) => message,
            None => {
                return Err(Error::InvalidMessage);
            },
        };
        if amount < message.order_amount {
            return Err(Error::InsufficientPayment);
        }
        if self.is_paid(&message.order_id) {
            return Err(Error::AlreadyCompleted);
        }
        let order = Order {
            order_id: message.order_id.clone(),
            payer_id: sender_id,
            payment_method: PaymentMethod::FungibleToken,
            amount: message.order_amount,
            received_amount: amount,
            is_completed: true,
            is_refund: false,
            created_at: ctx.block_timestamp,
        };
        self.orders.upsert(message.order_id, order);
        if amount > message.order_amount {
            Ok(PromiseOrValue::Value(amount - message.order_amount))
        } else {
            Ok(PromiseOrValue::Value(0))
        }
    }
}

impl FungibleTokenReceiver for EcommerceContract {
    /// Decodes `msg` and records the payment it describes.
    fn ft_on_transfer(&mut self, ctx: &CallContext, sender_id: String, amount: u128, msg: String) -> (reply:
        Result<PromiseOrValue, Error>)
        ensures
            (Step { state: final(self)@, reply: reply_view(reply) }) == old(self)@.ft_on_transfer(
                ctx@,
                sender_id@,
                amount,
                decoded(msg@),
            ),
    {
        let message = decode_message(msg.as_str());
        self.accept_token_payment(ctx, sender_id, amount, message)
    }
}

} // verus!
