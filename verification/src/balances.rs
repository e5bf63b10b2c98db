//! The four balance changes, as functions from the two records that an
//! operation reads to the two records that it writes.
//!
//! Nothing here knows where the records are kept. A caller looks up the
//! position of the account and the aggregate of the asset, asks for the
//! change, and writes both results back only when the answer is `Ok`.

use vstd::prelude::*;
use crate::error::LedgerError;
use crate::event::Operation;
use crate::pool::PoolStats;
use crate::position::Position;

verus! {

/// True when `value` can be held in a signed 128-bit integer.
pub open spec fn in_range(value: int) -> bool {
    i128::MIN <= value <= i128::MAX
}

/// The single collateral rule: a claim on collateral is covered when it
/// does not exceed that collateral, one to one and in the same asset.
pub open spec fn covers(collateral: int, claim: int) -> bool {
    claim <= collateral
}

/// The position of one account in one asset together with the aggregate of
/// that asset: what one operation reads, and rewrites as a whole.
#[derive(Clone, Copy, Debug, PartialEq, Eq, Structural)]
pub struct Balances {
    pub position: Position,
    pub pool: PoolStats,
}

impl Balances {
    /// Both records with `delta` added to the supplied amount and to the
    /// total supply.
    pub open spec fn with_supply_changed(self, delta: int) -> Balances {
        Balances {
            position: Position {
                supplied: (self.position.supplied + delta) as i128,
                ..self.position
            },
            pool: PoolStats {
                total_supply: (self.pool.total_supply + delta) as i128,
                ..self.pool
            },
        }
    }

    /// Both records with `delta` added to the borrowed amount and to the
    /// total borrow.
    pub open spec fn with_borrow_changed(self, delta: int) -> Balances {
        Balances {
            position: Position {
                borrowed: (self.position.borrowed + delta) as i128,
                ..self.position
            },
            pool: PoolStats {
                total_borrow: (self.pool.total_borrow + delta) as i128,
                ..self.pool
            },
        }
    }

    /// What supplying `amount` gives: the amount is added to the position
    /// and to the pool. No collateral rule applies, since a deposit cannot
    /// create a deficit.
    pub open spec fn after_supply(self, amount: i128) -> Result<Balances, LedgerError> {
        if amount <= 0 {
            Err(LedgerError::InvalidAmount)
        } else if !in_range(self.position.supplied + amount) || !in_range(
            self.pool.total_supply + amount,
        ) {
            Err(LedgerError::ArithmeticOverflow)
        } else {
            Ok(self.with_supply_changed(amount as int))
        }
    }

    /// What borrowing `amount` gives: the debt grows by the amount, provided
    /// that the collateral supplied so far covers the grown debt.
    pub open spec fn after_borrow(self, amount: i128) -> Result<Balances, LedgerError> {
        if amount <= 0 {
            Err(LedgerError::InvalidAmount)
        } else if !in_range(self.position.borrowed + amount) {
            Err(LedgerError::ArithmeticOverflow)
        } else if !covers(self.position.supplied as int, self.position.borrowed + amount) {
            Err(LedgerError::InsufficientCollateral)
        } else if !in_range(self.pool.total_borrow + amount) {
            Err(LedgerError::ArithmeticOverflow)
        } else {
            Ok(self.with_borrow_changed(amount as int))
        }
    }

    /// What repaying `amount` gives: the debt shrinks by the amount, which
    /// may not exceed it.
    pub open spec fn after_repay(self, amount: i128) -> Result<Balances, LedgerError> {
        if amount <= 0 {
            Err(LedgerError::InvalidAmount)
        } else if self.position.borrowed < amount {
            Err(LedgerError::ExcessRepayment)
        } else if !in_range(self.pool.total_borrow - amount) {
            Err(LedgerError::ArithmeticOverflow)
        } else {
            Ok(self.with_borrow_changed(-(amount as int)))
        }
    }

    /// What withdrawing `amount` gives: the supply shrinks by the amount,
    /// which may exceed neither the supply nor the part of it that backs no
    /// open borrow. The supply is the first of the two limits to apply.
    pub open spec fn after_withdraw(self, amount: i128) -> Result<Balances, LedgerError> {
        if amount <= 0 {
            Err(LedgerError::InvalidAmount)
        } else if self.position.supplied < amount {
            Err(LedgerError::InsufficientSupply)
        } else if !in_range(self.position.available()) {
            Err(LedgerError::ArithmeticOverflow)
        } else if !covers(self.position.available(), amount as int) {
            Err(LedgerError::UndercollateralizedWithdrawal)
        } else if !in_range(self.pool.total_supply - amount) {
            Err(LedgerError::ArithmeticOverflow)
        } else {
            Ok(self.with_supply_changed(-(amount as int)))
        }
    }

    /// What `operation` gives when asked for `amount`.
    pub open spec fn after(self, operation: Operation, amount: i128) -> Result<
        Balances,
        LedgerError,
    > {
        match operation {
            Operation::Supply => self.after_supply(amount),
            Operation::Borrow => self.after_borrow(amount),
            Operation::Repay => self.after_repay(amount),
            Operation::Withdraw => self.after_withdraw(amount),
        }
    }

    /// Pairs a position with the aggregate of its asset.
    pub fn new(position: Position, pool: PoolStats) -> (b: Balances)
        ensures
            b == (Balances { position, pool }),
    {
        Balances { position, pool }
    }

    /// The two records that a pair of lookups in a key/value store stands
    /// for: what the store holds, and zero for what it does not hold.
    pub fn from_stored(position: Option<Position>, pool: Option<PoolStats>) -> (b: Balances)
        ensures
            b.position == match position {
                Some(record) => record,
                None => Position::zero(),
            },
            b.pool == match pool {
                Some(record) => record,
                None => PoolStats::zero(),
            },
    {
        Balances { position: Position::from_stored(position), pool: PoolStats::from_stored(pool) }
    }

    /// Applies `operation` with `amount`.
    pub fn apply(self, operation: Operation, amount: i128) -> (r: Result<Balances, LedgerError>)
        ensures
            r == self.after(operation, amount),
    {
        match operation {
            Operation::Supply => self.supply(amount),
            Operation::Borrow => self.borrow(amount),
            Operation::Repay => self.repay(amount),
            Operation::Withdraw => self.withdraw(amount),
        }
    }

    /// Deposits `amount`.
    pub fn supply(self, amount: i128) -> (r: Result<Balances, LedgerError>)
        ensures
            r == self.after_supply(amount),
    {
        if amount <= 0 {
            return Err(LedgerError::InvalidAmount);
        }
        let supplied = match self.position.supplied.checked_add(amount) {
            Some(sum) => sum,
            None => { return Err(LedgerError::ArithmeticOverflow); },
        };
        let total_supply = match self.pool.total_supply.checked_add(amount) {
            Some(sum) => sum,
            None => { return Err(LedgerError::ArithmeticOverflow); },
        };
        Ok(
            Balances {
                position: Position { supplied, ..self.position },
                pool: PoolStats { total_supply, ..self.pool },
            },
        )
    }

    /// Borrows `amount` against the collateral supplied so far.
    pub fn borrow(self, amount: i128) -> (r: Result<Balances, LedgerError>)
        ensures
            r == self.after_borrow(amount),
    {
        if amount <= 0 {
            return Err(LedgerError::InvalidAmount);
        }
        let borrowed = match self.position.borrowed.checked_add(amount) {
            Some(sum) => sum,
            None => { return Err(LedgerError::ArithmeticOverflow); },
        };
        if !collateral_covers(self.position.supplied, borrowed) {
            return Err(LedgerError::InsufficientCollateral);
        }
        let total_borrow = match self.pool.total_borrow.checked_add(amount) {
            Some(sum) => sum,
            None => { return Err(LedgerError::ArithmeticOverflow); },
        };
        Ok(
            Balances {
                position: Position { borrowed, ..self.position },
                pool: PoolStats { total_borrow, ..self.pool },
            },
        )
    }

    /// Pays back `amount` of the debt.
    pub fn repay(self, amount: i128) -> (r: Result<Balances, LedgerError>)
        ensures
            r == self.after_repay(amount),
    {
        if amount <= 0 {
            return Err(LedgerError::InvalidAmount);
        }
        if self.position.borrowed < amount {
            return Err(LedgerError::ExcessRepayment);
        }
        let total_borrow = match self.pool.total_borrow.checked_sub(amount) {
            Some(difference) => difference,
            None => { return Err(LedgerError::ArithmeticOverflow); },
        };
        Ok(
            Balances {
                position: Position { borrowed: self.position.borrowed - amount, ..self.position },
                pool: PoolStats { total_borrow, ..self.pool },
            },
        )
    }

    /// Takes `amount` of the supply back.
    pub fn withdraw(self, amount: i128) -> (r: Result<Balances, LedgerError>)
        ensures
            r == self.after_withdraw(amount),
    {
        if amount <= 0 {
            return Err(LedgerError::InvalidAmount);
        }
        if self.position.supplied < amount {
            return Err(LedgerError::InsufficientSupply);
        }
        let available = match self.position.supplied.checked_sub(self.position.borrowed) {
            Some(difference) => difference,
            None => { return Err(LedgerError::ArithmeticOverflow); },
        };
        if !collateral_covers(available, amount) {
            return Err(LedgerError::UndercollateralizedWithdrawal);
        }
        let total_supply = match self.pool.total_supply.checked_sub(amount) {
            Some(difference) => difference,
            None => { return Err(LedgerError::ArithmeticOverflow); },
        };
        Ok(
            Balances {
                position: Position { supplied: self.position.supplied - amount, ..self.position },
                pool: PoolStats { total_supply, ..self.pool },
            },
        )
    }
}

/// Decides whether `collateral` covers `claim`. Borrowing asks this of the
/// whole supply and the debt as it would be after the borrow; withdrawing
/// asks it of the supply that backs no borrow and the amount to withdraw.
pub fn collateral_covers(collateral: i128, claim: i128) -> (covered: bool)
    ensures
        covered == covers(collateral as int, claim as int),
{
    claim <= collateral
}

/// An accepted change keeps a collateralized position collateralized, moves
/// the position and the aggregate by one and the same amount, and leaves the
/// other amount, the other total and the three rates as they were.
pub proof fn lemma_accepted_change(current: Balances, operation: Operation, amount: i128)
    requires
        current.after(operation, amount) is Ok,
    ensures
        ({
            let next = current.after(operation, amount)->Ok_0;
            &&& current.position.collateralized() ==> next.position.collateralized()
            &&& next.position.supplied - current.position.supplied == next.pool.total_supply
                - current.pool.total_supply
            &&& next.position.borrowed - current.position.borrowed == next.pool.total_borrow
                - current.pool.total_borrow
            &&& next.pool.same_rates(current.pool)
            &&& match operation {
                Operation::Supply => next.position.supplied == current.position.supplied + amount
                    && next.position.borrowed == current.position.borrowed,
                Operation::Borrow => next.position.borrowed == current.position.borrowed + amount
                    && next.position.supplied == current.position.supplied,
                Operation::Repay => next.position.borrowed == current.position.borrowed - amount
                    && next.position.supplied == current.position.supplied,
                Operation::Withdraw => next.position.supplied == current.position.supplied - amount
                    && next.position.borrowed == current.position.borrowed,
            }
        }),
{
}

/// When each rule is the one that a rejected change names. The amount comes
/// first, then the limits of the position; the 128-bit range applies to
/// every sum and difference on the way, at the place where it is formed.
pub proof fn lemma_error_conditions(current: Balances, operation: Operation, amount: i128)
    ensures
        current.after(operation, amount) == Err::<Balances, LedgerError>(
            LedgerError::InvalidAmount,
        ) <==> amount <= 0,
        current.after(operation, amount) == Err::<Balances, LedgerError>(
            LedgerError::InsufficientCollateral,
        ) <==> operation == Operation::Borrow && amount > 0 && in_range(
            current.position.borrowed + amount,
        ) && current.position.supplied < current.position.borrowed + amount,
        current.after(operation, amount) == Err::<Balances, LedgerError>(
            LedgerError::ExcessRepayment,
        ) <==> operation == Operation::Repay && 0 < amount && current.position.borrowed < amount,
        current.after(operation, amount) == Err::<Balances, LedgerError>(
            LedgerError::InsufficientSupply,
        ) <==> operation == Operation::Withdraw && 0 < amount && current.position.supplied
            < amount,
        current.after(operation, amount) == Err::<Balances, LedgerError>(
            LedgerError::UndercollateralizedWithdrawal,
        ) <==> operation == Operation::Withdraw && 0 < amount <= current.position.supplied
            && in_range(current.position.available()) && amount > current.position.available(),
        current.after(operation, amount) == Err::<Balances, LedgerError>(
            LedgerError::ArithmeticOverflow,
        ) <==> amount > 0 && match operation {
            Operation::Supply => !in_range(current.position.supplied + amount) || !in_range(
                current.pool.total_supply + amount,
            ),
            Operation::Borrow => !in_range(current.position.borrowed + amount) || (
            current.position.borrowed + amount <= current.position.supplied && !in_range(
                current.pool.total_borrow + amount,
            )),
            Operation::Repay => amount <= current.position.borrowed && !in_range(
                current.pool.total_borrow - amount,
            ),
            Operation::Withdraw => amount <= current.position.supplied && (!in_range(
                current.position.available(),
            ) || (amount <= current.position.available() && !in_range(
                current.pool.total_supply - amount,
            ))),
        },
{
}

} // verus!
