//! What the host tells an entry point about the request it serves.

use vstd::prelude::*;

verus! {

/// The circumstances of one request.
#[derive(Debug, Clone, PartialEq, Eq)]
pub struct CallContext {
    /// Who makes the request.
    pub predecessor_account_id: String,
    /// The identity under which the ledger itself acts.
    pub current_account_id: String,
    /// The value attached to the request.
    pub attached_deposit: u128,
    /// The time at which the request is served.
    pub block_timestamp: u64,
}

/// What a `CallContext` stands for.
pub struct CallContextView {
    pub predecessor_account_id: Seq<char>,
    pub current_account_id: Seq<char>,
    pub attached_deposit: u128,
    pub block_timestamp: u64,
}

impl View for CallContext {
    type V = CallContextView;

    open spec fn view(&self) -> CallContextView {
        CallContextView {
            predecessor_account_id: self.predecessor_account_id@,
            current_account_id: self.current_account_id@,
            attached_deposit: self.attached_deposit,
            block_timestamp: self.block_timestamp,
        }
    }
}

} // verus!
