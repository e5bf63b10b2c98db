use blend_loan::{BlendLoanContract, LedgerError, LedgerEvent, Operation, PoolStats, Position};

const ALICE: u64 = 1;
const BOB: u64 = 2;
const CAROL: u64 = 3;
const USDC: u64 = 10;
const XLM: u64 = 20;

const ZERO_POSITION: Position = Position { supplied: 0, borrowed: 0 };
const ZERO_POOL: PoolStats = PoolStats {
    total_supply: 0,
    total_borrow: 0,
    utilization_rate: 0,
    supply_rate: 0,
    borrow_rate: 0,
};

fn snapshot(ledger: &BlendLoanContract) -> Vec<(Position, PoolStats)> {
    let mut all = Vec::new();
    for account in [ALICE, BOB, CAROL] {
        for asset in [USDC, XLM] {
            all.push((ledger.get_position(account, asset), ledger.get_pool_stats(asset)));
        }
    }
    all
}

fn assert_invariants(ledger: &BlendLoanContract) {
    for asset in [USDC, XLM, 30] {
        let mut supplied: i128 = 0;
        let mut borrowed: i128 = 0;
        for account in [ALICE, BOB, CAROL, 4] {
            let position = ledger.get_position(account, asset);
            assert!(position.supplied >= 0);
            assert!(position.borrowed >= 0);
            assert!(position.borrowed <= position.supplied);
            supplied += position.supplied;
            borrowed += position.borrowed;
        }
        let pool = ledger.get_pool_stats(asset);
        assert_eq!(pool.total_supply, supplied);
        assert_eq!(pool.total_borrow, borrowed);
        assert!(pool.total_borrow >= 0);
        assert!(pool.total_borrow <= pool.total_supply);
        assert_eq!(pool.utilization_rate, 0);
        assert_eq!(pool.supply_rate, 0);
        assert_eq!(pool.borrow_rate, 0);
    }
}

fn busy_ledger() -> BlendLoanContract {
    let mut ledger = BlendLoanContract::new();
    ledger.supply(ALICE, 1_000, USDC).unwrap();
    ledger.supply(BOB, 250, USDC).unwrap();
    ledger.supply(ALICE, 40, XLM).unwrap();
    ledger.borrow(ALICE, 600, USDC).unwrap();
    ledger.borrow(BOB, 250, USDC).unwrap();
    ledger.repay(BOB, 100, USDC).unwrap();
    ledger.withdraw(ALICE, 400, USDC).unwrap();
    ledger
}

#[test]
fn new_ledger_reads_zero_everywhere() {
    let ledger = BlendLoanContract::new();
    assert_eq!(ledger.get_position(ALICE, USDC), ZERO_POSITION);
    assert_eq!(ledger.get_position(u64::MAX, 0), ZERO_POSITION);
    assert_eq!(ledger.get_pool_stats(USDC), ZERO_POOL);
    assert_eq!(ledger.get_pool_stats(u64::MAX), ZERO_POOL);
}

#[test]
fn untouched_records_of_a_used_ledger_read_zero() {
    let ledger = busy_ledger();
    assert_eq!(ledger.get_position(CAROL, USDC), ZERO_POSITION);
    assert_eq!(ledger.get_position(BOB, XLM), ZERO_POSITION);
    assert_eq!(ledger.get_position(ALICE, 30), ZERO_POSITION);
    assert_eq!(ledger.get_pool_stats(30), ZERO_POOL);
}

#[test]
fn reads_are_repeatable() {
    let ledger = busy_ledger();
    let first = snapshot(&ledger);
    let second = snapshot(&ledger);
    assert_eq!(first, second);
    assert_eq!(ledger.get_position(ALICE, USDC), ledger.get_position(ALICE, USDC));
    assert_eq!(ledger.get_pool_stats(USDC), ledger.get_pool_stats(USDC));
    assert_eq!(ledger.get_position(CAROL, 30), ledger.get_position(CAROL, 30));
}

#[test]
fn mixed_history_gives_exact_balances() {
    let ledger = busy_ledger();
    assert_eq!(ledger.get_position(ALICE, USDC), Position { supplied: 600, borrowed: 600 });
    assert_eq!(ledger.get_position(BOB, USDC), Position { supplied: 250, borrowed: 150 });
    assert_eq!(ledger.get_position(ALICE, XLM), Position { supplied: 40, borrowed: 0 });
    assert_eq!(
        ledger.get_pool_stats(USDC),
        PoolStats { total_supply: 850, total_borrow: 750, ..ZERO_POOL }
    );
    assert_eq!(ledger.get_pool_stats(XLM), PoolStats { total_supply: 40, ..ZERO_POOL });
}

#[test]
fn invariants_hold_after_every_operation() {
    let mut ledger = BlendLoanContract::new();
    assert_invariants(&ledger);
    let calls: [(Operation, u64, i128, u64); 16] = [
        (Operation::Supply, ALICE, 500, USDC),
        (Operation::Borrow, ALICE, 200, USDC),
        (Operation::Borrow, BOB, 1, USDC),
        (Operation::Supply, BOB, 70, XLM),
        (Operation::Withdraw, ALICE, 301, USDC),
        (Operation::Withdraw, ALICE, 300, USDC),
        (Operation::Repay, ALICE, 201, USDC),
        (Operation::Repay, ALICE, 200, USDC),
        (Operation::Withdraw, ALICE, 201, USDC),
        (Operation::Supply, CAROL, 0, USDC),
        (Operation::Supply, CAROL, i128::MAX, USDC),
        (Operation::Supply, CAROL, i128::MAX - 200, USDC),
        (Operation::Borrow, CAROL, i128::MAX - 200, USDC),
        (Operation::Borrow, CAROL, 1, USDC),
        (Operation::Borrow, BOB, 70, XLM),
        (Operation::Withdraw, ALICE, 200, USDC),
    ];
    for (operation, account, amount, asset) in calls {
        let before = snapshot(&ledger);
        let answer = match operation {
            Operation::Supply => ledger.supply(account, amount, asset),
            Operation::Borrow => ledger.borrow(account, amount, asset),
            Operation::Repay => ledger.repay(account, amount, asset),
            Operation::Withdraw => ledger.withdraw(account, amount, asset),
        };
        match answer {
            Ok(event) => assert_eq!(event, LedgerEvent { operation, account, amount, asset }),
            Err(_) => assert_eq!(snapshot(&ledger), before),
        }
        assert_invariants(&ledger);
    }
    assert_eq!(ledger.get_position(ALICE, USDC), ZERO_POSITION);
    assert_eq!(
        ledger.get_position(CAROL, USDC),
        Position { supplied: i128::MAX - 200, borrowed: i128::MAX - 200 }
    );
    assert_eq!(ledger.get_position(BOB, XLM), Position { supplied: 70, borrowed: 70 });
}

#[test]
fn every_rejection_leaves_the_ledger_unchanged() {
    let mut ledger = busy_ledger();
    let before = snapshot(&ledger);

    assert_eq!(ledger.supply(ALICE, 0, USDC), Err(LedgerError::InvalidAmount));
    assert_eq!(snapshot(&ledger), before);
    assert_eq!(ledger.borrow(ALICE, -1, USDC), Err(LedgerError::InvalidAmount));
    assert_eq!(snapshot(&ledger), before);
    assert_eq!(ledger.repay(ALICE, 0, USDC), Err(LedgerError::InvalidAmount));
    assert_eq!(snapshot(&ledger), before);
    assert_eq!(ledger.withdraw(ALICE, i128::MIN, USDC), Err(LedgerError::InvalidAmount));
    assert_eq!(snapshot(&ledger), before);

    assert_eq!(ledger.borrow(BOB, 101, USDC), Err(LedgerError::InsufficientCollateral));
    assert_eq!(snapshot(&ledger), before);
    assert_eq!(ledger.repay(BOB, 151, USDC), Err(LedgerError::ExcessRepayment));
    assert_eq!(snapshot(&ledger), before);
    assert_eq!(ledger.withdraw(BOB, 251, USDC), Err(LedgerError::InsufficientSupply));
    assert_eq!(snapshot(&ledger), before);
    assert_eq!(ledger.withdraw(BOB, 101, USDC), Err(LedgerError::UndercollateralizedWithdrawal));
    assert_eq!(snapshot(&ledger), before);
    assert_eq!(ledger.supply(CAROL, i128::MAX, USDC), Err(LedgerError::ArithmeticOverflow));
    assert_eq!(snapshot(&ledger), before);
}

#[test]
fn rejected_first_call_writes_no_record() {
    let mut ledger = BlendLoanContract::new();
    assert_eq!(ledger.borrow(ALICE, 1, USDC), Err(LedgerError::InsufficientCollateral));
    assert_eq!(ledger.repay(ALICE, 1, USDC), Err(LedgerError::ExcessRepayment));
    assert_eq!(ledger.withdraw(ALICE, 1, USDC), Err(LedgerError::InsufficientSupply));
    assert_eq!(ledger.get_position(ALICE, USDC), ZERO_POSITION);
    assert_eq!(ledger.get_pool_stats(USDC), ZERO_POOL);
}

#[test]
fn accepted_calls_return_the_event_to_publish() {
    let mut ledger = BlendLoanContract::new();
    assert_eq!(
        ledger.supply(BOB, 9, XLM),
        Ok(LedgerEvent { operation: Operation::Supply, account: BOB, amount: 9, asset: XLM })
    );
    assert_eq!(
        ledger.borrow(BOB, 4, XLM),
        Ok(LedgerEvent { operation: Operation::Borrow, account: BOB, amount: 4, asset: XLM })
    );
    assert_eq!(
        ledger.repay(BOB, 3, XLM),
        Ok(LedgerEvent { operation: Operation::Repay, account: BOB, amount: 3, asset: XLM })
    );
    assert_eq!(
        ledger.withdraw(BOB, 8, XLM),
        Ok(LedgerEvent { operation: Operation::Withdraw, account: BOB, amount: 8, asset: XLM })
    );
    assert_eq!(ledger.get_position(BOB, XLM), Position { supplied: 1, borrowed: 1 });
}

#[test]
fn accounts_do_not_share_collateral() {
    let mut ledger = BlendLoanContract::new();
    ledger.supply(ALICE, 100, USDC).unwrap();
    assert_eq!(ledger.borrow(BOB, 1, USDC), Err(LedgerError::InsufficientCollateral));
    assert_eq!(ledger.withdraw(BOB, 1, USDC), Err(LedgerError::InsufficientSupply));
    assert_eq!(ledger.get_position(BOB, USDC), ZERO_POSITION);
    assert_eq!(ledger.get_position(ALICE, USDC), Position { supplied: 100, borrowed: 0 });
}

#[test]
fn assets_do_not_share_collateral() {
    let mut ledger = BlendLoanContract::new();
    ledger.supply(ALICE, 100, USDC).unwrap();
    assert_eq!(ledger.borrow(ALICE, 1, XLM), Err(LedgerError::InsufficientCollateral));
    assert_eq!(ledger.get_pool_stats(XLM), ZERO_POOL);
    ledger.supply(ALICE, 5, XLM).unwrap();
    ledger.borrow(ALICE, 5, XLM).unwrap();
    assert_eq!(ledger.get_position(ALICE, USDC), Position { supplied: 100, borrowed: 0 });
    assert_eq!(ledger.get_position(ALICE, XLM), Position { supplied: 5, borrowed: 5 });
    assert_eq!(ledger.get_pool_stats(USDC), PoolStats { total_supply: 100, ..ZERO_POOL });
    assert_eq!(
        ledger.get_pool_stats(XLM),
        PoolStats { total_supply: 5, total_borrow: 5, ..ZERO_POOL }
    );
}

#[test]
fn same_number_names_an_account_and_an_asset_independently() {
    let mut ledger = BlendLoanContract::new();
    ledger.supply(7, 3, 7).unwrap();
    ledger.supply(7, 4, 8).unwrap();
    ledger.supply(8, 5, 7).unwrap();
    assert_eq!(ledger.get_position(7, 7).supplied, 3);
    assert_eq!(ledger.get_position(7, 8).supplied, 4);
    assert_eq!(ledger.get_position(8, 7).supplied, 5);
    assert_eq!(ledger.get_position(8, 8), ZERO_POSITION);
    assert_eq!(ledger.get_pool_stats(7).total_supply, 8);
    assert_eq!(ledger.get_pool_stats(8).total_supply, 4);
}

#[test]
fn withdraw_tests_the_supply_before_the_collateral() {
    let mut ledger = BlendLoanContract::new();
    ledger.supply(ALICE, 10, USDC).unwrap();
    ledger.borrow(ALICE, 4, USDC).unwrap();
    assert_eq!(ledger.withdraw(ALICE, 11, USDC), Err(LedgerError::InsufficientSupply));
    assert_eq!(ledger.withdraw(ALICE, 10, USDC), Err(LedgerError::UndercollateralizedWithdrawal));
    assert_eq!(ledger.withdraw(ALICE, 7, USDC), Err(LedgerError::UndercollateralizedWithdrawal));
    assert!(ledger.withdraw(ALICE, 6, USDC).is_ok());
    assert_eq!(ledger.get_position(ALICE, USDC), Position { supplied: 4, borrowed: 4 });
}

#[test]
fn position_returns_to_zero_and_stays_readable() {
    let mut ledger = BlendLoanContract::new();
    ledger.supply(ALICE, 10, USDC).unwrap();
    ledger.borrow(ALICE, 10, USDC).unwrap();
    ledger.repay(ALICE, 10, USDC).unwrap();
    ledger.withdraw(ALICE, 10, USDC).unwrap();
    assert_eq!(ledger.get_position(ALICE, USDC), ZERO_POSITION);
    assert_eq!(ledger.get_pool_stats(USDC), ZERO_POOL);
    assert!(ledger.supply(ALICE, 1, USDC).is_ok());
    assert_eq!(ledger.get_position(ALICE, USDC), Position { supplied: 1, borrowed: 0 });
}

#[test]
fn total_supply_overflow_is_detected_across_accounts() {
    let mut ledger = BlendLoanContract::new();
    ledger.supply(ALICE, i128::MAX - 5, USDC).unwrap();
    assert_eq!(ledger.supply(BOB, 6, USDC), Err(LedgerError::ArithmeticOverflow));
    assert_eq!(ledger.get_position(BOB, USDC), ZERO_POSITION);
    assert_eq!(ledger.get_pool_stats(USDC).total_supply, i128::MAX - 5);
    assert!(ledger.supply(BOB, 5, USDC).is_ok());
    assert_eq!(ledger.get_pool_stats(USDC).total_supply, i128::MAX);
    assert_eq!(ledger.supply(ALICE, 1, USDC), Err(LedgerError::ArithmeticOverflow));
    assert_eq!(ledger.supply(ALICE, 1, XLM).map(|event| event.amount), Ok(1));
}

#[test]
fn debt_overflow_is_detected_before_the_collateral_rule() {
    let mut ledger = BlendLoanContract::new();
    ledger.supply(ALICE, i128::MAX, USDC).unwrap();
    ledger.borrow(ALICE, i128::MAX, USDC).unwrap();
    assert_eq!(ledger.borrow(ALICE, 1, USDC), Err(LedgerError::ArithmeticOverflow));
    assert_eq!(
        ledger.get_position(ALICE, USDC),
        Position { supplied: i128::MAX, borrowed: i128::MAX }
    );
    ledger.repay(ALICE, 1, USDC).unwrap();
    assert_eq!(ledger.borrow(ALICE, 2, USDC), Err(LedgerError::ArithmeticOverflow));
    assert!(ledger.borrow(ALICE, 1, USDC).is_ok());
}
