//! Who is asked to do what, and the notification of what was done.

use vstd::prelude::*;

verus! {

/// Identifies an account: the party that supplies, borrows, repays and
/// withdraws. The ledger reads nothing in it but its identity.
pub type AccountId = u64;

/// Identifies an asset, and with it the pool that aggregates it.
pub type AssetId = u64;

/// The four ways in which a balance changes.
#[derive(Clone, Copy, Debug, PartialEq, Eq, Structural)]
pub enum Operation {
    Supply,
    Borrow,
    Repay,
    Withdraw,
}

impl Operation {
    /// The text of `topic`, as a sequence of characters.
    pub open spec fn topic_text(self) -> Seq<char> {
        match self {
            Operation::Supply => "supply"@,
            Operation::Borrow => "borrow"@,
            Operation::Repay => "repay"@,
            Operation::Withdraw => "withdraw"@,
        }
    }

    /// The name under which a notification of this operation is published.
    pub fn topic(&self) -> (name: &'static str)
        ensures
            name@ == self.topic_text(),
    {
        match self {
            Operation::Supply => "supply",
            Operation::Borrow => "borrow",
            Operation::Repay => "repay",
            Operation::Withdraw => "withdraw",
        }
    }
}

/// One operation of one account on one asset. It is what a caller asks
/// for, and, once the ledger has applied it, what the ledger hands back to
/// be published: the topic is the operation's name with the account and the
/// asset, the payload is the amount. The ledger never reads an event back.
#[derive(Clone, Copy, Debug, PartialEq, Eq, Structural)]
pub struct LedgerEvent {
    pub operation: Operation,
    pub account: AccountId,
    pub asset: AssetId,
    pub amount: i128,
}

} // verus!
