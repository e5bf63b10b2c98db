//! The per-asset aggregate.

use vstd::prelude::*;

verus! {

/// Totals of one asset over all accounts. The three rate fields are carried
/// through every operation unchanged; nothing in the ledger derives them.
#[derive(Clone, Copy, Debug, PartialEq, Eq, Structural)]
pub struct PoolStats {
    pub total_supply: i128,
    pub total_borrow: i128,
    pub utilization_rate: i128,
    pub supply_rate: i128,
    pub borrow_rate: i128,
}

impl PoolStats {
    /// The aggregate of an asset that no operation has touched yet.
    pub open spec fn zero() -> PoolStats {
        PoolStats {
            total_supply: 0,
            total_borrow: 0,
            utilization_rate: 0,
            supply_rate: 0,
            borrow_rate: 0,
        }
    }

    /// True when `other` carries the same three rate fields.
    pub open spec fn same_rates(self, other: PoolStats) -> bool {
        &&& self.utilization_rate == other.utilization_rate
        &&& self.supply_rate == other.supply_rate
        &&& self.borrow_rate == other.borrow_rate
    }

    /// An aggregate with every field at zero.
    pub fn new() -> (p: PoolStats)
        ensures
            p == PoolStats::zero(),
    {
        PoolStats {
            total_supply: 0,
            total_borrow: 0,
            utilization_rate: 0,
            supply_rate: 0,
            borrow_rate: 0,
        }
    }

    /// The aggregate that a lookup in a key/value store stands for: the
    /// stored record, or the all-zero aggregate where the store holds none.
    pub fn from_stored(stored: Option<PoolStats>) -> (p: PoolStats)
        ensures
            p == match stored {
                Some(record) => record,
                None => PoolStats::zero(),
            },
    {
        match stored {
            Some(record) => record,
            None => PoolStats::new(),
        }
    }
}

} // verus!
