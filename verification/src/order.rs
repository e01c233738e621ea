//! The order record and its mathematical view.

use vstd::prelude::*;

verus! {

/// Key of an order, chosen by whoever pays it.
pub type OrderId = String;

/// The rail over which an order was paid, and over which it is refunded.
#[derive(Debug, Clone, Copy, PartialEq, Eq, Structural)]
pub enum PaymentMethod {
    /// The platform's native value transfer.
    NEAR,
    /// A transfer carried out by the separate token service.
    FungibleToken,
}

/// One purchase record.
#[derive(Debug, PartialEq, Eq)]
pub struct Order {
    pub order_id: OrderId,
    pub payer_id: String,
    pub payment_method: PaymentMethod,
    pub amount: u128,
    pub received_amount: u128,
    pub is_completed: bool,
    pub is_refund: bool,
    pub created_at: u64,
}

/// What an `Order` stands for: its texts as sequences of characters.
pub struct OrderView {
    pub order_id: Seq<char>,
    pub payer_id: Seq<char>,
    pub payment_method: PaymentMethod,
    pub amount: u128,
    pub received_amount: u128,
    pub is_completed: bool,
    pub is_refund: bool,
    pub created_at: u64,
}

impl View for Order {
    type V = OrderView;

    open spec fn view(&self) -> OrderView {
        OrderView {
            order_id: self.order_id@,
            payer_id: self.payer_id@,
            payment_method: self.payment_method,
            amount: self.amount,
            received_amount: self.received_amount,
            is_completed: self.is_completed,
            is_refund: self.is_refund,
            created_at: self.created_at,
        }
    }
}

impl OrderView {
    /// A refund may be issued for a paid order that was not refunded yet.
    pub open spec fn refundable(self) -> bool {
        self.is_completed && !self.is_refund
    }

    /// The same record with the refund flag raised.
    pub open spec fn refunded(self) -> OrderView {
        OrderView { is_refund: true, ..self }
    }
}

impl Clone for Order {
    fn clone(&self) -> (copy: Order)
        ensures
            copy@ == self@,
    {
        Order {
            order_id: self.order_id.clone(),
            payer_id: self.payer_id.clone(),
            payment_method: self.payment_method,
            amount: self.amount,
            received_amount: self.received_amount,
            is_completed: self.is_completed,
            is_refund: self.is_refund,
            created_at: self.created_at,
        }
    }
}

} // verus!
