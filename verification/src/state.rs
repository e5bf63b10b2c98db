//! The ledger as a mathematical value: for each asset a book with the
//! aggregate of the asset and the positions of the accounts in it.

use vstd::prelude::*;
use crate::balances::Balances;
use crate::error::LedgerError;
use crate::event::{AccountId, AssetId, LedgerEvent};
use crate::pool::PoolStats;
use crate::position::Position;
use crate::totals::sum_values;

verus! {

/// Everything the ledger records of one asset.
#[verifier::ext_equal]
pub struct Book {
    /// The aggregate of the asset.
    pub pool: PoolStats,
    /// The positions written so far, by account. An account without an
    /// entry has the zero position.
    pub positions: Map<AccountId, Position>,
}

impl Book {
    /// The book of an asset that nothing has touched yet.
    pub open spec fn empty() -> Book {
        Book { pool: PoolStats::zero(), positions: Map::empty() }
    }

    /// The position of `account`, zero where none was written.
    pub open spec fn position(self, account: AccountId) -> Position {
        if self.positions.contains_key(account) {
            self.positions[account]
        } else {
            Position::zero()
        }
    }

    /// What an operation of `account` reads.
    pub open spec fn balances(self, account: AccountId) -> Balances {
        Balances { position: self.position(account), pool: self.pool }
    }

    /// The book after an operation of `account` has written `balances`.
    pub open spec fn store(self, account: AccountId, balances: Balances) -> Book {
        Book { pool: balances.pool, positions: self.positions.insert(account, balances.position) }
    }

    /// The supplied amount of each account with an entry.
    pub open spec fn supplied_amounts(self) -> Map<AccountId, int> {
        self.positions.map_values(|p: Position| p.supplied as int)
    }

    /// The borrowed amount of each account with an entry.
    pub open spec fn borrowed_amounts(self) -> Map<AccountId, int> {
        self.positions.map_values(|p: Position| p.borrowed as int)
    }

    /// The sum of what all accounts have supplied.
    pub open spec fn supplied_sum(self) -> int {
        sum_values(self.supplied_amounts())
    }

    /// The sum of what all accounts have borrowed.
    pub open spec fn borrowed_sum(self) -> int {
        sum_values(self.borrowed_amounts())
    }

    /// The invariant of a book: finitely many positions, each of them
    /// collateralized, and totals that equal the sums over the positions.
    pub open spec fn consistent(self) -> bool {
        &&& self.positions.dom().finite()
        &&& forall|account: AccountId| #[trigger]
            self.positions.contains_key(account) ==> self.positions[account].collateralized()
        &&& self.pool.total_supply == self.supplied_sum()
        &&& self.pool.total_borrow == self.borrowed_sum()
    }
}

/// The whole ledger: the books written so far, by asset. An asset without
/// an entry has the empty book.
#[verifier::ext_equal]
pub struct LedgerState {
    pub books: Map<AssetId, Book>,
}

impl LedgerState {
    /// The ledger before any operation.
    pub open spec fn empty() -> LedgerState {
        LedgerState { books: Map::empty() }
    }

    /// The book of `asset`, empty where none was written.
    pub open spec fn book(self, asset: AssetId) -> Book {
        if self.books.contains_key(asset) {
            self.books[asset]
        } else {
            Book::empty()
        }
    }

    /// The position of `account` in `asset`, zero before any activity.
    pub open spec fn position(self, account: AccountId, asset: AssetId) -> Position {
        self.book(asset).position(account)
    }

    /// The aggregate of `asset`, all zero before any activity.
    pub open spec fn pool(self, asset: AssetId) -> PoolStats {
        self.book(asset).pool
    }

    /// What an operation of `account` on `asset` reads.
    pub open spec fn balances(self, account: AccountId, asset: AssetId) -> Balances {
        self.book(asset).balances(account)
    }

    /// The ledger after an operation of `account` on `asset` has written
    /// `balances`: the position and the aggregate change together, and
    /// nothing else changes.
    pub open spec fn store(self, account: AccountId, asset: AssetId, balances: Balances)
        -> LedgerState {
        LedgerState { books: self.books.insert(asset, self.book(asset).store(account, balances)) }
    }

    /// The sum of what all accounts have supplied of `asset`.
    pub open spec fn supplied_sum(self, asset: AssetId) -> int {
        self.book(asset).supplied_sum()
    }

    /// The sum of what all accounts have borrowed of `asset`.
    pub open spec fn borrowed_sum(self, asset: AssetId) -> int {
        self.book(asset).borrowed_sum()
    }

    /// The invariant of the ledger: every book is consistent.
    pub open spec fn consistent(self) -> bool {
        forall|asset: AssetId| #[trigger]
            self.books.contains_key(asset) ==> self.books[asset].consistent()
    }

    /// What `request` would write, or the rule that it breaks.
    pub open spec fn outcome(self, request: LedgerEvent) -> Result<Balances, LedgerError> {
        self.balances(request.account, request.asset).after(request.operation, request.amount)
    }

    /// The ledger after `request`: both records written where the request
    /// is accepted, the ledger as it was where it is rejected.
    pub open spec fn step(self, request: LedgerEvent) -> LedgerState {
        match self.outcome(request) {
            Ok(next) => self.store(request.account, request.asset, next),
            Err(_) => self,
        }
    }

    /// What the caller of `request` is told: the event to publish where
    /// the request is accepted, the rule that it breaks where it is not.
    pub open spec fn answer(self, request: LedgerEvent) -> Result<LedgerEvent, LedgerError> {
        match self.outcome(request) {
            Ok(_) => Ok(request),
            Err(error) => Err(error),
        }
    }

    /// The ledger after each of `requests` in turn, the first one first.
    pub open spec fn run(self, requests: Seq<LedgerEvent>) -> LedgerState
        decreases requests.len(),
    {
        if requests.len() == 0 {
            self
        } else {
            self.run(requests.drop_last()).step(requests.last())
        }
    }
}

} // verus!
