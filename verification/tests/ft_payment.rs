use ecommerce::{
    decode_message, read_message, CallContext, EcommerceContract, Error, ExtSelf, FtMessage,
    FungibleToken, FungibleTokenReceiver, PaymentMethod, Promise, PromiseOrValue, PromiseResult,
    Transfer, FT_TRANSFER_DEPOSIT, REFUND_MEMO, SET_REFUND_GAS,
};

const ONE_TOKEN: u128 = 1_000_000_000_000_000_000_000_000;

fn shop() -> String {
    String::from("ecommerce.test.near")
}

fn token() -> String {
    String::from("ft.test.near")
}

fn alice() -> String {
    String::from("alice.test.near")
}

fn call_from(predecessor: &str) -> CallContext {
    CallContext {
        predecessor_account_id: String::from(predecessor),
        current_account_id: shop(),
        attached_deposit: 0,
        block_timestamp: 42,
    }
}

fn order_info() -> String {
    String::from("{\"order_id\": \"order_1\", \"order_amount\": \"1000000000000000000000000\"}")
}

/// A token service kept in memory: balances by account.
struct TokenLedger {
    balances: Vec<(String, u128)>,
    memos: Vec<Option<String>>,
}

impl TokenLedger {
    fn balance_of(&self, account_id: &str) -> u128 {
        self.balances.iter().filter(|entry| entry.0 == account_id).map(|entry| entry.1).sum()
    }

    fn credit(&mut self, account_id: &str, amount: u128) {
        match self.balances.iter_mut().find(|entry| entry.0 == account_id) {
            Some(entry) => entry.1 += amount,
            None => self.balances.push((String::from(account_id), amount)),
        }
    }

    fn debit(&mut self, account_id: &str, amount: u128) {
        let entry = self.balances.iter_mut().find(|entry| entry.0 == account_id).unwrap();
        entry.1 -= amount;
    }

    /// Sends `amount` to the shop with `msg`, and gives back what the shop does not use.
    fn ft_transfer_call(
        &mut self,
        shop: &mut EcommerceContract,
        sender_id: &str,
        amount: u128,
        msg: &str,
    ) -> Result<u128, Error> {
        self.debit(sender_id, amount);
        self.credit(&shop_id(), amount);
        let reply =
            shop.ft_on_transfer(&call_from(&token()), String::from(sender_id), amount, String::from(msg));
        let unused = match reply {
            Ok(PromiseOrValue::Value(unused)) => unused,
            Ok(PromiseOrValue::Promise(_)) => unreachable!(),
            Err(error) => {
                self.debit(&shop_id(), amount);
                self.credit(sender_id, amount);
                return Err(error);
            }
        };
        self.debit(&shop_id(), unused);
        self.credit(sender_id, unused);
        Ok(amount - unused)
    }
}

fn shop_id() -> String {
    shop()
}

impl FungibleToken for TokenLedger {
    fn ft_transfer(
        &mut self,
        ctx: &CallContext,
        receiver_id: String,
        amount: u128,
        memo: Option<String>,
    ) {
        assert_eq!(ctx.attached_deposit, FT_TRANSFER_DEPOSIT);
        self.debit(&ctx.predecessor_account_id, amount);
        self.credit(&receiver_id, amount);
        self.memos.push(memo);
    }
}

#[test]
fn test_ft_payment() {
    let mut ft_contract = TokenLedger { balances: vec![(alice(), 10 * ONE_TOKEN)], memos: vec![] };
    let mut ecommerce_contract = EcommerceContract::new(shop(), token());

    // pay order with FT
    let used = ft_contract
        .ft_transfer_call(&mut ecommerce_contract, &alice(), 5 * ONE_TOKEN, &order_info())
        .unwrap();
    assert_eq!(used, ONE_TOKEN);

    let res = ecommerce_contract.get_order(String::from("order_1")).unwrap();
    assert_eq!(res.order_id, "order_1");
    assert_eq!(res.payment_method, PaymentMethod::FungibleToken);
    assert_eq!(res.amount, ONE_TOKEN);
    assert_eq!(res.payer_id, alice());
    assert_eq!(res.is_completed, true);
    assert_eq!(res.is_refund, false);
    assert_eq!(ft_contract.balance_of(&alice()), 9 * ONE_TOKEN);
    assert_eq!(ft_contract.balance_of(&shop()), ONE_TOKEN);

    // cancel order & refund FT
    let reply = ecommerce_contract.cancel_order(&call_from(&shop()), String::from("order_1"));
    let promise = match reply {
        Ok(PromiseOrValue::Promise(promise)) => promise,
        _ => unreachable!(),
    };
    assert_eq!(
        promise,
        Promise {
            transfer: Transfer::FungibleToken {
                token_id: token(),
                receiver_id: alice(),
                amount: ONE_TOKEN,
                memo: String::from("Refund order from FT contract"),
            },
            confirms: Some(String::from("order_1")),
        }
    );
    // Nothing is written before the outcome is known.
    assert_eq!(ecommerce_contract.get_order(String::from("order_1")).unwrap().is_refund, false);

    match promise.transfer {
        Transfer::FungibleToken { token_id, receiver_id, amount, memo } => {
            assert_eq!(token_id, token());
            let mut ctx = call_from(&shop());
            ctx.current_account_id = token_id;
            ctx.attached_deposit = FT_TRANSFER_DEPOSIT;
            ft_contract.ft_transfer(&ctx, receiver_id, amount, Some(memo));
        }
        Transfer::Near { .. } => unreachable!(),
    }
    let confirmed = ecommerce_contract.set_is_refunded(
        &call_from(&shop()),
        promise.confirms.unwrap(),
        &vec![PromiseResult::Successful],
    );
    assert_eq!(confirmed, Ok(PromiseOrValue::Value(ONE_TOKEN)));

    let res = ecommerce_contract.get_order(String::from("order_1")).unwrap();
    assert_eq!(res.order_id, "order_1");
    assert_eq!(res.payment_method, PaymentMethod::FungibleToken);
    assert_eq!(res.amount, ONE_TOKEN);
    assert_eq!(res.is_refund, true);
    assert_eq!(ft_contract.balance_of(&alice()), 10 * ONE_TOKEN);
    assert_eq!(ft_contract.balance_of(&shop()), 0);
    assert_eq!(ft_contract.memos, vec![Some(String::from(REFUND_MEMO))]);
}

#[test]
fn token_round_trip_with_short_identifier() {
    let mut contract = EcommerceContract::new(shop(), token());
    let msg = "{\"order_id\":\"o1\",\"order_amount\":\"1000000000000000000000000\"}";
    let reply =
        contract.ft_on_transfer(&call_from(&token()), alice(), 5 * ONE_TOKEN, String::from(msg));
    assert_eq!(reply, Ok(PromiseOrValue::Value(4 * ONE_TOKEN)));
    let order = contract.get_order(String::from("o1")).unwrap();
    assert_eq!(order.payment_method, PaymentMethod::FungibleToken);
    assert_eq!(order.amount, ONE_TOKEN);
    assert_eq!(order.received_amount, 5 * ONE_TOKEN);
    assert_eq!(order.created_at, 42);

    let reply = contract.cancel_order(&call_from(&shop()), String::from("o1"));
    assert_eq!(
        reply,
        Ok(PromiseOrValue::Promise(Promise {
            transfer: Transfer::FungibleToken {
                token_id: token(),
                receiver_id: alice(),
                amount: ONE_TOKEN,
                memo: String::from(REFUND_MEMO),
            },
            confirms: Some(String::from("o1")),
        }))
    );
    let reply = contract.set_is_refunded(
        &call_from(&shop()),
        String::from("o1"),
        &vec![PromiseResult::Successful],
    );
    assert_eq!(reply, Ok(PromiseOrValue::Value(ONE_TOKEN)));
    assert!(contract.get_order(String::from("o1")).unwrap().is_refund);
}

#[test]
fn ft_on_transfer_from_another_caller_writes_nothing() {
    let mut contract = EcommerceContract::new(shop(), token());
    let reply = contract.ft_on_transfer(&call_from(&alice()), alice(), 5 * ONE_TOKEN, order_info());
    assert_eq!(reply, Err(Error::Unauthorized));
    assert_eq!(contract.get_order(String::from("order_1")), Err(Error::NotFound));

    // Also where the message would not decode: the caller is looked at first.
    let reply =
        contract.ft_on_transfer(&call_from(&shop()), alice(), 5 * ONE_TOKEN, String::from("?"));
    assert_eq!(reply, Err(Error::Unauthorized));
}

#[test]
fn ft_on_transfer_with_a_malformed_message() {
    let mut contract = EcommerceContract::new(shop(), token());
    let malformed = [
        "",
        "order_1",
        "{\"order_id\": \"order_1\"}",
        "{\"order_amount\": \"10\"}",
        "{\"order_id\": \"order_1\", \"order_amount\": 10}",
        "{\"order_id\": 1, \"order_amount\": \"10\"}",
        "{\"order_id\": \"order_1\", \"order_amount\": \"ten\"}",
        "{\"order_id\": \"order_1\", \"order_amount\": \"-1\"}",
        "{\"order_id\": \"order_1\", \"order_amount\": \"\"}",
        "{\"order_id\": \"order_1\", \"order_amount\": \"340282366920938463463374607431768211456\"}",
        "{\"order_id\": \"order_1\", \"order_amount\": \"10\"",
        "[]",
        "null",
    ];
    for msg in malformed {
        let reply = contract.ft_on_transfer(&call_from(&token()), alice(), 100, String::from(msg));
        assert_eq!(reply, Err(Error::InvalidMessage), "{}", msg);
        assert_eq!(reply.unwrap_err().message(), "ERROR_NOT_INVALID_MESSAGE");
    }
    assert_eq!(contract.get_order(String::from("order_1")), Err(Error::NotFound));
}

#[test]
fn ft_on_transfer_with_too_little_forwarded() {
    let mut contract = EcommerceContract::new(shop(), token());
    let reply = contract.ft_on_transfer(&call_from(&token()), alice(), ONE_TOKEN - 1, order_info());
    assert_eq!(reply, Err(Error::InsufficientPayment));
    assert_eq!(contract.get_order(String::from("order_1")), Err(Error::NotFound));
}

#[test]
fn ft_on_transfer_of_the_exact_price_returns_nothing() {
    let mut contract = EcommerceContract::new(shop(), token());
    let reply = contract.ft_on_transfer(&call_from(&token()), alice(), ONE_TOKEN, order_info());
    assert_eq!(reply, Ok(PromiseOrValue::Value(0)));
}

#[test]
fn ft_on_transfer_for_a_paid_order_is_rejected() {
    let mut contract = EcommerceContract::new(shop(), token());
    contract.ft_on_transfer(&call_from(&token()), alice(), ONE_TOKEN, order_info()).unwrap();
    let first = contract.get_order(String::from("order_1")).unwrap();
    let reply = contract.ft_on_transfer(
        &call_from(&token()),
        String::from("bob.test.near"),
        2 * ONE_TOKEN,
        order_info(),
    );
    assert_eq!(reply, Err(Error::AlreadyCompleted));
    assert_eq!(contract.get_order(String::from("order_1")), Ok(first));
}

#[test]
fn ft_on_transfer_records_what_was_forwarded() {
    let mut contract = EcommerceContract::new(shop(), token());
    let mut ctx = call_from(&token());
    ctx.attached_deposit = 3;
    contract.ft_on_transfer(&ctx, alice(), 2 * ONE_TOKEN, order_info()).unwrap();
    let order = contract.get_order(String::from("order_1")).unwrap();
    assert_eq!(order.received_amount, 2 * ONE_TOKEN);
    assert_eq!(order.amount, ONE_TOKEN);
}

#[test]
fn accept_token_payment_takes_the_decoded_message() {
    let mut contract = EcommerceContract::new(shop(), token());
    let message = FtMessage { order_id: String::from("a"), order_amount: 7 };
    let reply = contract.accept_token_payment(&call_from(&token()), alice(), 10, Some(message));
    assert_eq!(reply, Ok(PromiseOrValue::Value(3)));
    let reply = contract.accept_token_payment(&call_from(&token()), alice(), 10, None);
    assert_eq!(reply, Err(Error::InvalidMessage));
    let order = contract.get_order(String::from("a")).unwrap();
    assert_eq!(order.amount, 7);
    assert_eq!(order.payer_id, alice());
}

#[test]
fn decode_message_reads_the_two_members() {
    assert_eq!(
        decode_message(&order_info()),
        Some(FtMessage { order_id: String::from("order_1"), order_amount: ONE_TOKEN })
    );
    // The members are found by name, in any order, among others.
    assert_eq!(
        decode_message("{\"note\": [1, 2], \"order_amount\": \"+007\", \"order_id\": \"x\"}"),
        Some(FtMessage { order_id: String::from("x"), order_amount: 7 })
    );
    // Escapes are resolved: the text is what the document denotes.
    assert_eq!(
        decode_message("{\"order_id\": \"a\\u0062\\n\", \"order_amount\": \"0\"}"),
        Some(FtMessage { order_id: String::from("ab\n"), order_amount: 0 })
    );
    // The name of a member is not its text.
    assert_eq!(decode_message("order_id"), None);
    assert_eq!(decode_message("\"order_id\""), None);
}

#[test]
fn read_message_needs_both_texts_and_an_amount() {
    assert_eq!(
        read_message(Some(String::from("o")), Some(String::from("12"))),
        Some(FtMessage { order_id: String::from("o"), order_amount: 12 })
    );
    assert_eq!(read_message(None, Some(String::from("12"))), None);
    assert_eq!(read_message(Some(String::from("o")), None), None);
    assert_eq!(read_message(Some(String::from("o")), Some(String::from("1.5"))), None);
    assert_eq!(read_message(None, None), None);
}

#[test]
fn constants_of_the_token_rail() {
    assert_eq!(SET_REFUND_GAS, 10_000_000_000_000);
    assert_eq!(FT_TRANSFER_DEPOSIT, 1);
    assert_eq!(REFUND_MEMO, "Refund order from FT contract");
}
