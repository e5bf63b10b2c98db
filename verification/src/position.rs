//! The per-account, per-asset record.

use vstd::prelude::*;

verus! {

/// What one account has supplied and borrowed of one asset, net of
/// withdrawals and repayments.
#[derive(Clone, Copy, Debug, PartialEq, Eq, Structural)]
pub struct Position {
    pub supplied: i128,
    pub borrowed: i128,
}

impl Position {
    /// The record of an account that has never touched the asset.
    pub open spec fn zero() -> Position {
        Position { supplied: 0, borrowed: 0 }
    }

    /// The region every position of a ledger stays in: debt is never
    /// negative and never exceeds the collateral supplied in the same asset.
    /// It follows that the supply is not negative either.
    pub open spec fn collateralized(self) -> bool {
        0 <= self.borrowed <= self.supplied
    }

    /// The part of the supply that backs no open borrow.
    pub open spec fn available(self) -> int {
        self.supplied - self.borrowed
    }

    /// A position with nothing supplied and nothing borrowed.
    pub fn new() -> (p: Position)
        ensures
            p == Position::zero(),
    {
        Position { supplied: 0, borrowed: 0 }
    }

    /// The position that a lookup in a key/value store stands for: the
    /// stored record, or the zero position where the store holds none.
    pub fn from_stored(stored: Option<Position>) -> (p: Position)
        ensures
            p == match stored {
                Some(record) => record,
                None => Position::zero(),
            },
    {
        match stored {
            Some(record) => record,
            None => Position::new(),
        }
    }
}

} // verus!
