//! What holds of the settlement protocol, whatever the state and the request.

use vstd::prelude::*;

use crate::context::CallContextView;
use crate::error::Error;
use crate::message::FtMessageView;
use crate::model::{excess, ContractView, Step};
use crate::order::PaymentMethod;
use crate::promise::{PromiseOrValueView, PromiseResult, PromiseView, TransferView, REFUND_MEMO};

verus! {

/// One delivery of outcomes to the confirmation of a refund.
pub struct Confirmation {
    pub ctx: CallContextView,
    pub order_id: Seq<char>,
    pub results: Seq<PromiseResult>,
}

/// One request to the desk, whichever entry point it goes to.
pub enum Request {
    PayOrder { ctx: CallContextView, order_id: Seq<char>, order_amount: u128 },
    FtOnTransfer {
        ctx: CallContextView,
        sender_id: Seq<char>,
        amount: u128,
        message: Option<FtMessageView>,
    },
    CancelOrder { ctx: CallContextView, order_id: Seq<char> },
    SetIsRefunded { ctx: CallContextView, order_id: Seq<char>, results: Seq<PromiseResult> },
}

impl ContractView {
    /// The step that the entry point named by `request` takes.
    pub open spec fn handle(self, request: Request) -> Step {
        match request {
            Request::PayOrder { ctx, order_id, order_amount } => self.pay_order(
                ctx,
                order_id,
                order_amount,
            ),
            Request::FtOnTransfer { ctx, sender_id, amount, message } => self.ft_on_transfer(
                ctx,
                sender_id,
                amount,
                message,
            ),
            Request::CancelOrder { ctx, order_id } => self.cancel_order(ctx, order_id),
            Request::SetIsRefunded { ctx, order_id, results } => self.set_is_refunded(
                ctx,
                order_id,
                results,
            ),
        }
    }

    /// The state after the requests have been served one after the other.
    pub open spec fn after_requests(self, requests: Seq<Request>) -> ContractView
        decreases requests.len(),
    {
        if requests.len() == 0 {
            self
        } else {
            self.after_requests(requests.drop_last()).handle(requests.last()).state
        }
    }

    /// An order is recorded under `order_id` and it is marked refunded.
    pub open spec fn is_refunded(self, order_id: Seq<char>) -> bool {
        self.orders.contains_key(order_id) && self.orders[order_id].is_refund
    }

    /// Every record is a paid order.
    pub open spec fn all_paid(self) -> bool {
        forall|order_id: Seq<char>| #[trigger]
            self.orders.contains_key(order_id) ==> self.orders[order_id].is_completed
    }

    /// No record is marked refunded without being paid.
    pub open spec fn no_refund_without_payment(self) -> bool {
        forall|order_id: Seq<char>| #[trigger]
            self.orders.contains_key(order_id) && !self.orders[order_id].is_completed
                ==> !self.orders[order_id].is_refund
    }

    /// The state after the confirmations have been delivered one after the
    /// other.
    pub open spec fn after_confirmations(self, confirmations: Seq<Confirmation>) -> ContractView
        decreases confirmations.len(),
    {
        if confirmations.len() == 0 {
            self
        } else {
            let last = confirmations.last();
            self.after_confirmations(confirmations.drop_last()).set_is_refunded(
                last.ctx,
                last.order_id,
                last.results,
            ).state
        }
    }

    /// How many of the confirmations found `order_id` not marked refunded
    /// and left it marked.
    pub open spec fn times_marked(self, order_id: Seq<char>, confirmations: Seq<Confirmation>) -> nat
        decreases confirmations.len(),
    {
        if confirmations.len() == 0 {
            0
        } else {
            let before = self.after_confirmations(confirmations.drop_last());
            let after = self.after_confirmations(confirmations);
            let marked: nat = if !before.is_refunded(order_id) && after.is_refunded(order_id) {
                1
            } else {
                0
            };
            self.times_marked(order_id, confirmations.drop_last()) + marked
        }
    }

    /// How many of the confirmations found `order_id` marked refunded and
    /// left it unmarked.
    pub open spec fn times_unmarked(
        self,
        order_id: Seq<char>,
        confirmations: Seq<Confirmation>,
    ) -> nat
        decreases confirmations.len(),
    {
        if confirmations.len() == 0 {
            0
        } else {
            let before = self.after_confirmations(confirmations.drop_last());
            let after = self.after_confirmations(confirmations);
            let unmarked: nat = if before.is_refunded(order_id) && !after.is_refunded(order_id) {
                1
            } else {
                0
            };
            self.times_unmarked(order_id, confirmations.drop_last()) + unmarked
        }
    }
}

/// A payment for an order that is not paid yet, with at least the price
/// attached, succeeds and records the order as paid, at that price, not
/// refunded, with the caller as payer and what was attached as received. No
/// other record changes.
pub proof fn law_payment_is_recorded(
    state: ContractView,
    ctx: CallContextView,
    order_id: Seq<char>,
    order_amount: u128,
)
    requires
        !state.is_paid(order_id),
        ctx.attached_deposit >= order_amount,
    ensures
        ({
            let step = state.pay_order(ctx, order_id, order_amount);
            let order = step.state.orders[order_id];
            &&& step.reply is Ok
            &&& step.state.orders.contains_key(order_id)
            &&& order.order_id == order_id
            &&& order.is_completed
            &&& order.amount == order_amount
            &&& !order.is_refund
            &&& order.payer_id == ctx.predecessor_account_id
            &&& order.payment_method == PaymentMethod::NEAR
            &&& order.received_amount == ctx.attached_deposit
            &&& step.state.orders.remove(order_id) == state.orders.remove(order_id)
            &&& step.state.owner_id == state.owner_id
            &&& step.state.ft_contract_id == state.ft_contract_id
        }),
{
    let step = state.pay_order(ctx, order_id, order_amount);
    assert(step.state.orders.remove(order_id) =~= state.orders.remove(order_id));
}

/// A payment with less attached than the price fails with
/// `InsufficientDeposit` and changes nothing, whatever the ledger holds.
pub proof fn law_deposit_floor(
    state: ContractView,
    ctx: CallContextView,
    order_id: Seq<char>,
    order_amount: u128,
)
    requires
        ctx.attached_deposit < order_amount,
    ensures
        state.pay_order(ctx, order_id, order_amount).state == state,
        state.pay_order(ctx, order_id, order_amount).reply == Err::<PromiseOrValueView, Error>(
            Error::InsufficientDeposit,
        ),
{
}

/// A notice of a token payment from anyone but the token service fails with
/// `Unauthorized` and changes nothing, whatever it carries.
pub proof fn law_only_the_token_service_is_heard(
    state: ContractView,
    ctx: CallContextView,
    sender_id: Seq<char>,
    amount: u128,
    message: Option<FtMessageView>,
)
    requires
        ctx.predecessor_account_id != state.ft_contract_id,
    ensures
        state.ft_on_transfer(ctx, sender_id, amount, message).state == state,
        state.ft_on_transfer(ctx, sender_id, amount, message).reply == Err::<
            PromiseOrValueView,
            Error,
        >(Error::Unauthorized),
{
}

/// A confirmation never takes the mark from an order that is refunded.
pub proof fn law_confirmation_keeps_the_mark(
    state: ContractView,
    confirmation: Confirmation,
    order_id: Seq<char>,
)
    requires
        state.is_refunded(order_id),
    ensures
        state.set_is_refunded(
            confirmation.ctx,
            confirmation.order_id,
            confirmation.results,
        ).state.is_refunded(order_id),
{
}

/// Over any sequence of confirmations, whatever their outcomes, an order is
/// marked refunded at most once, and is never unmarked; if it was marked, it
/// is marked at the end.
pub proof fn law_refund_is_marked_once(
    state: ContractView,
    order_id: Seq<char>,
    confirmations: Seq<Confirmation>,
)
    ensures
        state.times_marked(order_id, confirmations) <= 1,
        state.times_unmarked(order_id, confirmations) == 0,
        state.times_marked(order_id, confirmations) == 1 ==> state.after_confirmations(
            confirmations,
        ).is_refunded(order_id),
        state.is_refunded(order_id) ==> state.times_marked(order_id, confirmations) == 0
            && state.after_confirmations(confirmations).is_refunded(order_id),
    decreases confirmations.len(),
{
    if confirmations.len() > 0 {
        law_refund_is_marked_once(state, order_id, confirmations.drop_last());
        let before = state.after_confirmations(confirmations.drop_last());
        if before.is_refunded(order_id) {
            law_confirmation_keeps_the_mark(before, confirmations.last(), order_id);
        }
    }
}

/// A confirmation whose one outcome is not a success changes nothing and
/// answers 0: the order keeps its price and stays as refundable as it was.
pub proof fn law_failed_transfer_changes_nothing(
    state: ContractView,
    ctx: CallContextView,
    order_id: Seq<char>,
    outcome: PromiseResult,
)
    requires
        ctx.predecessor_account_id == ctx.current_account_id,
        outcome != PromiseResult::Successful,
    ensures
        state.set_is_refunded(ctx, order_id, seq![outcome]).state == state,
        state.set_is_refunded(ctx, order_id, seq![outcome]).reply == Ok::<
            PromiseOrValueView,
            Error,
        >(PromiseOrValueView::Value(0)),
{
}

/// A confirmation changes the state only if it comes from the desk itself
/// with exactly one outcome that is a success, for an order that is
/// recorded; it then raises the mark of that order and changes nothing else.
pub proof fn law_only_a_confirmed_success_marks(
    state: ContractView,
    ctx: CallContextView,
    order_id: Seq<char>,
    results: Seq<PromiseResult>,
)
    ensures
        ({
            let step = state.set_is_refunded(ctx, order_id, results);
            let confirmed = ctx.predecessor_account_id == ctx.current_account_id && results.len()
                == 1 && results[0] == PromiseResult::Successful && state.orders.contains_key(
                order_id,
            );
            &&& !confirmed ==> step.state == state
            &&& confirmed ==> step.state == state.with_order(
                order_id,
                state.orders[order_id].refunded(),
            )
            &&& confirmed ==> step.reply == Ok::<PromiseOrValueView, Error>(
                PromiseOrValueView::Value(state.orders[order_id].amount),
            )
        }),
{
}

/// Payments and cancellations never touch the mark of a paid order, nor its
/// payer, rail and price: only a confirmation writes a paid order, and it
/// writes the mark alone.
pub proof fn law_paid_order_is_fixed(
    state: ContractView,
    ctx: CallContextView,
    order_id: Seq<char>,
    amount: u128,
    sender_id: Seq<char>,
    message: Option<FtMessageView>,
    results: Seq<PromiseResult>,
    paid: Seq<char>,
)
    requires
        state.is_paid(paid),
    ensures
        state.pay_order(ctx, order_id, amount).state.orders.contains_key(paid),
        state.pay_order(ctx, order_id, amount).state.orders[paid] == state.orders[paid],
        state.ft_on_transfer(ctx, sender_id, amount, message).state.orders.contains_key(paid),
        state.ft_on_transfer(ctx, sender_id, amount, message).state.orders[paid]
            == state.orders[paid],
        state.cancel_order(ctx, order_id).state == state,
        state.set_is_refunded(ctx, order_id, results).state.orders.contains_key(paid),
        ({
            let after = state.set_is_refunded(ctx, order_id, results).state.orders[paid];
            after == state.orders[paid] || after == state.orders[paid].refunded()
        }),
{
}

/// Where every record is a paid order, it is so after any step; and then no
/// record is marked refunded without being paid.
pub proof fn law_every_record_stays_paid(
    state: ContractView,
    ctx: CallContextView,
    order_id: Seq<char>,
    amount: u128,
    sender_id: Seq<char>,
    message: Option<FtMessageView>,
    results: Seq<PromiseResult>,
)
    requires
        state.all_paid(),
    ensures
        state.no_refund_without_payment(),
        state.pay_order(ctx, order_id, amount).state.all_paid(),
        state.ft_on_transfer(ctx, sender_id, amount, message).state.all_paid(),
        state.cancel_order(ctx, order_id).state.all_paid(),
        state.set_is_refunded(ctx, order_id, results).state.all_paid(),
        ContractView::initial(state.owner_id, state.ft_contract_id).all_paid(),
{
    assert forall|key: Seq<char>| #[trigger]
        state.orders.contains_key(key) && !state.orders[key].is_completed
            implies !state.orders[key].is_refund by {}
    let paid = state.pay_order(ctx, order_id, amount).state;
    assert forall|key: Seq<char>| #[trigger]
        paid.orders.contains_key(key) implies paid.orders[key].is_completed by {
        if key != order_id {
            assert(state.orders.contains_key(key));
        }
    }
    let relayed = state.ft_on_transfer(ctx, sender_id, amount, message).state;
    assert forall|key: Seq<char>| #[trigger]
        relayed.orders.contains_key(key) implies relayed.orders[key].is_completed by {
        if relayed != state {
            if key != message.unwrap().order_id {
                assert(state.orders.contains_key(key));
            }
        }
    }
    let confirmed = state.set_is_refunded(ctx, order_id, results).state;
    assert forall|key: Seq<char>| #[trigger]
        confirmed.orders.contains_key(key) implies confirmed.orders[key].is_completed by {
        assert(state.orders.contains_key(key));
    }
}

/// Whatever requests are served, in whatever order: the desk keeps its owner
/// and its token service; every record stays a paid order; an order that is
/// paid stays recorded with its identifier, payer, rail, price, received
/// quantity and time; and an order that is marked refunded stays marked.
pub proof fn law_history_keeps_what_is_settled(
    state: ContractView,
    requests: Seq<Request>,
    order_id: Seq<char>,
)
    requires
        state.all_paid(),
    ensures
        ({
            let after = state.after_requests(requests);
            &&& after.owner_id == state.owner_id
            &&& after.ft_contract_id == state.ft_contract_id
            &&& after.all_paid()
            &&& state.orders.contains_key(order_id) ==> after.orders.contains_key(order_id) && (
            after.orders[order_id] == state.orders[order_id] || after.orders[order_id]
                == state.orders[order_id].refunded())
            &&& state.is_refunded(order_id) ==> after.is_refunded(order_id)
        }),
    decreases requests.len(),
{
    if requests.len() > 0 {
        law_history_keeps_what_is_settled(state, requests.drop_last(), order_id);
        let before = state.after_requests(requests.drop_last());
        match requests.last() {
            Request::PayOrder { ctx, order_id: paid, order_amount } => {
                law_every_record_stays_paid(
                    before,
                    ctx,
                    paid,
                    order_amount,
                    Seq::empty(),
                    None,
                    Seq::empty(),
                );
            },
            Request::FtOnTransfer { ctx, sender_id, amount, message } => {
                law_every_record_stays_paid(
                    before,
                    ctx,
                    Seq::empty(),
                    amount,
                    sender_id,
                    message,
                    Seq::empty(),
                );
            },
            Request::CancelOrder { ctx, order_id: cancelled } => {},
            Request::SetIsRefunded { ctx, order_id: confirmed, results } => {
                law_every_record_stays_paid(
                    before,
                    ctx,
                    confirmed,
                    0,
                    Seq::empty(),
                    None,
                    results,
                );
            },
        }
    }
}

/// The round trip over the native rail: a payment of `price` with `price`
/// and some excess attached records both quantities and sends the excess
/// back at once; the owner's cancellation then issues a transfer of `price`
/// to the payer; and the confirmed success marks the order refunded.
pub proof fn law_round_trip_near(
    state: ContractView,
    pay: CallContextView,
    cancel: CallContextView,
    confirm: CallContextView,
    order_id: Seq<char>,
    price: u128,
)
    requires
        !state.is_paid(order_id),
        pay.attached_deposit >= price,
        cancel.predecessor_account_id == state.owner_id,
        confirm.predecessor_account_id == confirm.current_account_id,
    ensures
        ({
            let paid = state.pay_order(pay, order_id, price);
            let cancelled = paid.state.cancel_order(cancel, order_id);
            let confirmed = cancelled.state.set_is_refunded(
                confirm,
                order_id,
                seq![PromiseResult::Successful],
            );
            let refund = PromiseOrValueView::Promise(
                PromiseView {
                    transfer: TransferView::Near {
                        receiver_id: pay.predecessor_account_id,
                        amount: price,
                    },
                    confirms: Some(order_id),
                },
            );
            let change = PromiseOrValueView::Promise(
                PromiseView {
                    transfer: TransferView::Near {
                        receiver_id: pay.predecessor_account_id,
                        amount: excess(pay.attached_deposit, price),
                    },
                    confirms: None,
                },
            );
            &&& paid.state.orders[order_id].received_amount == pay.attached_deposit
            &&& paid.state.orders[order_id].amount == price
            &&& pay.attached_deposit > price ==> paid.reply == Ok::<PromiseOrValueView, Error>(
                change,
            )
            &&& pay.attached_deposit == price ==> paid.reply == Ok::<PromiseOrValueView, Error>(
                PromiseOrValueView::Value(0),
            )
            &&& cancelled.state == paid.state
            &&& !cancelled.state.is_refunded(order_id)
            &&& price > 0 ==> cancelled.reply == Ok::<PromiseOrValueView, Error>(refund)
            &&& price == 0 ==> cancelled.reply == Ok::<PromiseOrValueView, Error>(
                PromiseOrValueView::Value(0),
            )
            &&& confirmed.state.is_refunded(order_id)
            &&& confirmed.state.orders[order_id] == paid.state.orders[order_id].refunded()
            &&& confirmed.reply == Ok::<PromiseOrValueView, Error>(
                PromiseOrValueView::Value(price),
            )
        }),
{
}

/// The round trip over the token rail: a payment relayed by the token
/// service for `sender_id` records the order at the price that the message
/// names and answers with the rest of what was forwarded; the owner's
/// cancellation then asks the token service to send the price to the payer;
/// and the confirmed success marks the order refunded.
pub proof fn law_round_trip_token(
    state: ContractView,
    relay: CallContextView,
    cancel: CallContextView,
    confirm: CallContextView,
    sender_id: Seq<char>,
    forwarded: u128,
    message: FtMessageView,
)
    requires
        !state.is_paid(message.order_id),
        relay.predecessor_account_id == state.ft_contract_id,
        forwarded >= message.order_amount,
        cancel.predecessor_account_id == state.owner_id,
        confirm.predecessor_account_id == confirm.current_account_id,
    ensures
        ({
            let order_id = message.order_id;
            let price = message.order_amount;
            let paid = state.ft_on_transfer(relay, sender_id, forwarded, Some(message));
            let cancelled = paid.state.cancel_order(cancel, order_id);
            let confirmed = cancelled.state.set_is_refunded(
                confirm,
                order_id,
                seq![PromiseResult::Successful],
            );
            let refund = PromiseOrValueView::Promise(
                PromiseView {
                    transfer: TransferView::FungibleToken {
                        token_id: state.ft_contract_id,
                        receiver_id: sender_id,
                        amount: price,
                        memo: REFUND_MEMO@,
                    },
                    confirms: Some(order_id),
                },
            );
            &&& paid.state.orders[order_id].payment_method == PaymentMethod::FungibleToken
            &&& paid.state.orders[order_id].amount == price
            &&& paid.state.orders[order_id].payer_id == sender_id
            &&& paid.state.orders[order_id].received_amount == forwarded
            &&& paid.state.orders[order_id].is_completed
            &&& paid.reply == Ok::<PromiseOrValueView, Error>(
                PromiseOrValueView::Value(excess(forwarded, price)),
            )
            &&& cancelled.state == paid.state
            &&& price > 0 ==> cancelled.reply == Ok::<PromiseOrValueView, Error>(refund)
            &&& price == 0 ==> cancelled.reply == Ok::<PromiseOrValueView, Error>(
                PromiseOrValueView::Value(0),
            )
            &&& confirmed.state.is_refunded(order_id)
            &&& confirmed.reply == Ok::<PromiseOrValueView, Error>(
                PromiseOrValueView::Value(price),
            )
        }),
{
}

/// A cancellation of an order that is marked refunded fails with
/// `AlreadyRefunded`, however often it is asked: no transfer is issued and
/// nothing changes.
pub proof fn law_no_second_refund(state: ContractView, ctx: CallContextView, order_id: Seq<char>)
    requires
        ctx.predecessor_account_id == state.owner_id,
        state.is_refunded(order_id),
    ensures
        state.cancel_order(ctx, order_id).state == state,
        state.cancel_order(ctx, order_id).reply == Err::<PromiseOrValueView, Error>(
            Error::AlreadyRefunded,
        ),
        state.cancel_order(ctx, order_id).state.cancel_order(ctx, order_id).reply == Err::<
            PromiseOrValueView,
            Error,
        >(Error::AlreadyRefunded),
{
}

/// A step that fails leaves the state as it was, and a cancellation writes
/// nothing even where it succeeds.
pub proof fn law_failure_writes_nothing(
    state: ContractView,
    ctx: CallContextView,
    order_id: Seq<char>,
    amount: u128,
    sender_id: Seq<char>,
    message: Option<FtMessageView>,
    results: Seq<PromiseResult>,
)
    ensures
        state.pay_order(ctx, order_id, amount).reply is Err ==> state.pay_order(
            ctx,
            order_id,
            amount,
        ).state == state,
        state.ft_on_transfer(ctx, sender_id, amount, message).reply is Err ==> state.ft_on_transfer(
            ctx,
            sender_id,
            amount,
            message,
        ).state == state,
        state.cancel_order(ctx, order_id).state == state,
        state.set_is_refunded(ctx, order_id, results).reply is Err ==> state.set_is_refunded(
            ctx,
            order_id,
            results,
        ).state == state,
{
}

} // verus!
