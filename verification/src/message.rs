//! The message that the token service relays with a payment.
//!
//! The message is a JSON document with two members that hold text:
//! `order_id`, the order that is paid, and `order_amount`, its price as a
//! base-10 numeral. Other members are ignored.

use vstd::prelude::*;

use crate::amount::{amount_of, parse_amount};
use crate::order::OrderId;

verus! {

/// Name of the member that holds the order's identifier.
pub const ORDER_ID_KEY: &'static str = "order_id";

/// Name of the member that holds the order's price.
pub const ORDER_AMOUNT_KEY: &'static str = "order_amount";

/// What a token payment is for.
#[derive(Debug, Clone, PartialEq, Eq)]
pub struct FtMessage {
    pub order_id: OrderId,
    pub order_amount: u128,
}

/// What an `FtMessage` stands for.
pub struct FtMessageView {
    pub order_id: Seq<char>,
    pub order_amount: u128,
}

impl View for FtMessage {
    type V = FtMessageView;

    open spec fn view(&self) -> FtMessageView {
        FtMessageView { order_id: self.order_id@, order_amount: self.order_amount }
    }
}

/// The text that the JSON document `document` holds under `key`: `Some` where
/// `document` is well-formed JSON, its value is an object with a member
/// `key`, and that member is a string; `None` otherwise.
pub uninterp spec fn json_member_text(document: Seq<char>, key: Seq<char>) -> Option<Seq<char>>;

/// The view of a text that may be missing.
pub open spec fn text_view(text: Option<String>) -> Option<Seq<char>> {
    match text {
        Some(text) => Some(text@),
        None => None,
    }
}

/// The view of a message that may be missing.
pub open spec fn message_view(message: Option<FtMessage>) -> Option<FtMessageView> {
    match message {
        Some(message) => Some(message@),
        None => None,
    }
}

/// Reads `document` with `serde_json::from_str` as a `serde_json::Value`,
/// looks `key` up in it with `Value::get` and takes the text of what is found
/// with `Value::as_str`. Trusted: the result is the text that
/// `json_member_text` names, which depends on the two arguments alone.
/// Nothing is claimed of which documents hold which texts.
#[verifier::external_body]
fn member_text(document: &str, key: &str) -> (text: Option<String>)
    ensures
        text_view(text) == json_member_text(document@, key@),
{
    let value: serde_json::Value = serde_json::from_str(document).ok()?;
    value.get(key)?.as_str().map(String::from)
}

/// The message made of the two texts, where both are there and the second is
/// an amount.
pub open spec fn message_of(order_id: Option<Seq<char>>, order_amount: Option<Seq<char>>) -> Option<
    FtMessageView,
> {
    match (order_id, order_amount) {
        (Some(order_id), Some(numeral)) => match amount_of(numeral) {
            Some(order_amount) => Some(FtMessageView { order_id, order_amount }),
            None => None,
        },
        _ => None,
    }
}

/// The message that the document `msg` decodes to, if it decodes.
pub open spec fn decoded(msg: Seq<char>) -> Option<FtMessageView> {
    message_of(json_member_text(msg, ORDER_ID_KEY@), json_member_text(msg, ORDER_AMOUNT_KEY@))
}

/// Builds the message from the texts of its two members.
pub fn read_message(order_id: Option<String>, order_amount: Option<String>) -> (message: Option<
    FtMessage,
>)
    ensures
        message_view(message) == message_of(text_view(order_id), text_view(order_amount)),
{
    match (order_id, order_amount) {
        (Some(order_id), Some(numeral)) => match parse_amount(numeral.as_str()) {
            Some(order_amount) => Some(FtMessage { order_id, order_amount }),
            None => None,
        },
        _ => None,
    }
}

/// Decodes the message relayed with a token payment.
pub fn decode_message(msg: &str) -> (message: Option<FtMessage>)
    ensures
        message_view(message) == decoded(msg@),
{
    let order_id = member_text(msg, ORDER_ID_KEY);
    let order_amount = member_text(msg, ORDER_AMOUNT_KEY);
    read_message(order_id, order_amount)
}

} // verus!
