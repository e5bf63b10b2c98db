//! A minimal collateralized lending ledger.
//!
//! For every (account, asset) pair the ledger tracks how much principal the
//! account has supplied and borrowed, and for every asset it keeps the pool
//! totals. Every balance change is validated first and applied to the
//! position and to the pool together, or not at all.
//!
//! * [`BlendLoanContract`] is the ledger, held in memory.
//! * [`Balances`] carries the four balance changes as plain functions, for
//!   a host that keeps the records in a store of its own.
//! * [`LedgerState`] is the ledger as a mathematical value; the contracts
//!   of the operations are stated over it, and `invariants` proves what
//!   holds of every ledger that the operations can reach.

#![allow(unused_imports)]

pub mod balances;
pub mod contract;
pub mod error;
pub mod event;
pub mod invariants;
pub mod pool;
pub mod position;
pub mod state;
pub mod totals;

pub use balances::Balances;
pub use contract::BlendLoanContract;
pub use error::LedgerError;
pub use event::{AccountId, AssetId, LedgerEvent, Operation};
pub use pool::PoolStats;
pub use position::Position;
pub use state::{Book, LedgerState};
