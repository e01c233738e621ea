//! Settlement core of a small order desk: orders are paid over one of two
//! rails, and a cancelled order is marked refunded only once the outbound
//! transfer has been confirmed.

pub mod amount;
pub mod context;
pub mod contract;
pub mod error;
pub mod ft_contract;
pub mod laws;
pub mod ledger;
pub mod message;
pub mod model;
pub mod order;
pub mod promise;

pub use amount::parse_amount;
pub use context::CallContext;
pub use contract::{EcommerceContract, ExtSelf};
pub use error::{
    Error, ERROR_ALREADY_COMPLETED, ERROR_ALREADY_REFUNDED, ERROR_DEPOSIT_NOT_ENOUGH,
    ERROR_NOT_COMPLETED, ERROR_NOT_FOUND_ORDER_ID, ERROR_NOT_INVALID_MESSAGE,
    ERROR_PAYMENT_NOT_ENOUGH, ERROR_TOO_MANY_RESULTS, ERROR_UNAUTHORIZED,
};
pub use ft_contract::{FungibleToken, FungibleTokenReceiver};
pub use ledger::Ledger;
pub use message::{decode_message, read_message, FtMessage};
pub use order::{Order, OrderId, PaymentMethod};
pub use promise::{
    Promise, PromiseOrValue, PromiseResult, Transfer, FT_TRANSFER_DEPOSIT, REFUND_MEMO,
    SET_REFUND_GAS,
};
