//! The ledger: the positions and the aggregates, and the four operations
//! that change them.

use std::collections::HashMap;
use vstd::prelude::*;
use crate::balances::Balances;
use crate::error::LedgerError;
use crate::event::{AccountId, AssetId, LedgerEvent, Operation};
use crate::invariants::{
    lemma_positions_collateralized, lemma_step_keeps_consistent, lemma_totals_are_sums,
    lemma_totals_bound_positions,
};
use crate::pool::PoolStats;
use crate::position::Position;
use crate::state::{Book, LedgerState};

verus! {

broadcast use vstd::std_specs::hash::group_hash_axioms;

/// The records of one asset.
struct AssetBook {
    pool: PoolStats,
    positions: HashMap<AccountId, Position>,
}

impl View for AssetBook {
    type V = Book;

    closed spec fn view(&self) -> Book {
        Book { pool: self.pool, positions: self.positions@ }
    }
}

impl AssetBook {
    /// The position written for `account`, if any.
    fn stored_position(&self, account: AccountId) -> (stored: Option<Position>)
        ensures
            stored == if self@.positions.contains_key(account) {
                Some(self@.positions[account])
            } else {
                None
            },
    {
        match self.positions.get(&account) {
            Some(position) => Some(*position),
            None => None,
        }
    }
}

/// A lending ledger held in memory. It owns every position and every
/// aggregate; a record that was never written reads as zero, and no record
/// is ever deleted.
///
/// The ledger does not authenticate anybody: whoever calls one of the four
/// operations has established before the call that the account asked for
/// it.
pub struct BlendLoanContract {
    books: HashMap<AssetId, AssetBook>,
}

impl View for BlendLoanContract {
    type V = LedgerState;

    closed spec fn view(&self) -> LedgerState {
        LedgerState { books: self.books@.map_values(|book: AssetBook| book@) }
    }
}

impl BlendLoanContract {
    /// A ledger without any record.
    pub fn new() -> (ledger: BlendLoanContract)
        ensures
            ledger@ == LedgerState::empty(),
            ledger@.consistent(),
    {
        BlendLoanContract { books: HashMap::new() }
    }

    /// Adds `amount` to what `supplier` has supplied of `asset` and to the
    /// total supply of the asset, and returns the event to publish. The
    /// amount must be positive, and the new total must fit in 128 bits. A
    /// rejected call changes nothing.
    pub fn supply(&mut self, supplier: AccountId, amount: i128, asset: AssetId) -> (answer: Result<
        LedgerEvent,
        LedgerError,
    >)
        ensures
            final(self)@ == old(self)@.step(
                LedgerEvent { operation: Operation::Supply, account: supplier, amount, asset },
            ),
            answer == old(self)@.answer(
                LedgerEvent { operation: Operation::Supply, account: supplier, amount, asset },
            ),
            answer is Err ==> final(self)@ == old(self)@,
            old(self)@.consistent() ==> final(self)@.consistent(),
    {
        self.execute(LedgerEvent { operation: Operation::Supply, account: supplier, amount, asset })
    }

    /// Adds `amount` to what `borrower` owes of `asset` and to the total
    /// borrow of the asset, and returns the event to publish. The amount
    /// must be positive, and what the borrower has supplied of the asset
    /// must cover the debt as it is after the borrow. A rejected call
    /// changes nothing.
    pub fn borrow(&mut self, borrower: AccountId, amount: i128, asset: AssetId) -> (answer: Result<
        LedgerEvent,
        LedgerError,
    >)
        ensures
            final(self)@ == old(self)@.step(
                LedgerEvent { operation: Operation::Borrow, account: borrower, amount, asset },
            ),
            answer == old(self)@.answer(
                LedgerEvent { operation: Operation::Borrow, account: borrower, amount, asset },
            ),
            answer is Err ==> final(self)@ == old(self)@,
            old(self)@.consistent() ==> final(self)@.consistent(),
    {
        self.execute(LedgerEvent { operation: Operation::Borrow, account: borrower, amount, asset })
    }

    /// Takes `amount` off what `borrower` owes of `asset` and off the total
    /// borrow of the asset, and returns the event to publish. The amount
    /// must be positive and may not exceed the debt. A rejected call
    /// changes nothing.
    pub fn repay(&mut self, borrower: AccountId, amount: i128, asset: AssetId) -> (answer: Result<
        LedgerEvent,
        LedgerError,
    >)
        ensures
            final(self)@ == old(self)@.step(
                LedgerEvent { operation: Operation::Repay, account: borrower, amount, asset },
            ),
            answer == old(self)@.answer(
                LedgerEvent { operation: Operation::Repay, account: borrower, amount, asset },
            ),
            answer is Err ==> final(self)@ == old(self)@,
            old(self)@.consistent() ==> final(self)@.consistent(),
    {
        self.execute(LedgerEvent { operation: Operation::Repay, account: borrower, amount, asset })
    }

    /// Takes `amount` off what `supplier` has supplied of `asset` and off
    /// the total supply of the asset, and returns the event to publish. The
    /// amount must be positive and may exceed neither the supply nor the
    /// part of it that backs no open borrow. A rejected call changes
    /// nothing.
    pub fn withdraw(&mut self, supplier: AccountId, amount: i128, asset: AssetId) -> (answer:
        Result<LedgerEvent, LedgerError>)
        ensures
            final(self)@ == old(self)@.step(
                LedgerEvent { operation: Operation::Withdraw, account: supplier, amount, asset },
            ),
            answer == old(self)@.answer(
                LedgerEvent { operation: Operation::Withdraw, account: supplier, amount, asset },
            ),
            answer is Err ==> final(self)@ == old(self)@,
            old(self)@.consistent() ==> final(self)@.consistent(),
    {
        self.execute(
            LedgerEvent { operation: Operation::Withdraw, account: supplier, amount, asset },
        )
    }

    /// The position of `user` in `asset`: zero before any activity. The
    /// ledger is not changed, so that the same question has the same answer
    /// until the next operation.
    pub fn get_position(&self, user: AccountId, asset: AssetId) -> (position: Position)
        ensures
            position == self@.position(user, asset),
            self@.consistent() ==> position.collateralized(),
    {
        proof {
            if self@.consistent() {
                lemma_positions_collateralized(self@, user, asset);
            }
        }
        match self.books.get(&asset) {
            Some(book) => Position::from_stored(book.stored_position(user)),
            None => Position::from_stored(None),
        }
    }

    /// The aggregate of `asset`: all zero before any activity. The ledger
    /// is not changed, so that the same question has the same answer until
    /// the next operation.
    pub fn get_pool_stats(&self, asset: AssetId) -> (stats: PoolStats)
        ensures
            stats == self@.pool(asset),
            self@.consistent() ==> stats.total_supply == self@.supplied_sum(asset)
                && stats.total_borrow == self@.borrowed_sum(asset),
            self@.consistent() ==> 0 <= stats.total_borrow <= stats.total_supply,
    {
        proof {
            if self@.consistent() {
                lemma_totals_are_sums(self@, asset);
                lemma_totals_bound_positions(self@, 0, asset);
            }
        }
        match self.books.get(&asset) {
            Some(book) => PoolStats::from_stored(Some(book.pool)),
            None => PoolStats::from_stored(None),
        }
    }

    /// Reads the two records that an operation of `account` on `asset`
    /// works on.
    fn balances(&self, account: AccountId, asset: AssetId) -> (current: Balances)
        ensures
            current == self@.balances(account, asset),
    {
        Balances::new(self.get_position(account, asset), self.get_pool_stats(asset))
    }

    /// Writes the two records that an operation of `account` on `asset`
    /// has produced.
    fn store(&mut self, account: AccountId, asset: AssetId, balances: Balances)
        ensures
            final(self)@ == old(self)@.store(account, asset, balances),
    {
        let mut book = match self.books.remove(&asset) {
            Some(book) => book,
            None => AssetBook { pool: PoolStats::new(), positions: HashMap::new() },
        };
        book.pool = balances.pool;
        book.positions.insert(account, balances.position);
        self.books.insert(asset, book);
    }

    /// Reads, decides and, where the request is accepted, writes.
    fn execute(&mut self, request: LedgerEvent) -> (answer: Result<LedgerEvent, LedgerError>)
        ensures
            final(self)@ == old(self)@.step(request),
            answer == old(self)@.answer(request),
            answer is Err ==> final(self)@ == old(self)@,
            old(self)@.consistent() ==> final(self)@.consistent(),
    {
        proof {
            if self@.consistent() {
                lemma_step_keeps_consistent(self@, request);
            }
        }
        let current = self.balances(request.account, request.asset);
        match current.apply(request.operation, request.amount) {
            Ok(next) => {
                self.store(request.account, request.asset, next);
                Ok(request)
            },
            Err(error) => Err(error),
        }
    }
}

} // verus!
