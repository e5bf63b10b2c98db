use blend_loan::{BlendLoanContract, LedgerError, LedgerEvent, Operation, PoolStats, Position};

const ALICE: u64 = 1;
const USDC: u64 = 10;

fn after_supply() -> BlendLoanContract {
    let mut ledger = BlendLoanContract::new();
    ledger.supply(ALICE, 100, USDC).unwrap();
    ledger
}

fn after_supply_and_borrow() -> BlendLoanContract {
    let mut ledger = after_supply();
    ledger.borrow(ALICE, 100, USDC).unwrap();
    ledger
}

#[test]
fn supply_records_position_and_total() {
    let ledger = after_supply();
    assert_eq!(ledger.get_position(ALICE, USDC), Position { supplied: 100, borrowed: 0 });
    assert_eq!(ledger.get_pool_stats(USDC).total_supply, 100);
    assert_eq!(ledger.get_pool_stats(USDC).total_borrow, 0);
}

#[test]
fn borrow_up_to_the_collateral_succeeds() {
    let mut ledger = after_supply();
    let answer = ledger.borrow(ALICE, 100, USDC);
    assert_eq!(
        answer,
        Ok(LedgerEvent { operation: Operation::Borrow, account: ALICE, amount: 100, asset: USDC })
    );
    assert_eq!(ledger.get_position(ALICE, USDC), Position { supplied: 100, borrowed: 100 });
    assert_eq!(ledger.get_pool_stats(USDC).total_borrow, 100);
}

#[test]
fn borrow_beyond_the_collateral_is_rejected() {
    let mut ledger = after_supply_and_borrow();
    let position = ledger.get_position(ALICE, USDC);
    let pool = ledger.get_pool_stats(USDC);
    assert_eq!(ledger.borrow(ALICE, 1, USDC), Err(LedgerError::InsufficientCollateral));
    assert_eq!(ledger.get_position(ALICE, USDC), position);
    assert_eq!(ledger.get_pool_stats(USDC), pool);
}

#[test]
fn withdraw_of_backing_collateral_is_rejected_until_repaid() {
    let mut ledger = after_supply_and_borrow();
    assert_eq!(ledger.withdraw(ALICE, 1, USDC), Err(LedgerError::UndercollateralizedWithdrawal));
    assert_eq!(ledger.get_position(ALICE, USDC), Position { supplied: 100, borrowed: 100 });

    assert_eq!(
        ledger.repay(ALICE, 50, USDC),
        Ok(LedgerEvent { operation: Operation::Repay, account: ALICE, amount: 50, asset: USDC })
    );
    assert_eq!(
        ledger.withdraw(ALICE, 50, USDC),
        Ok(LedgerEvent { operation: Operation::Withdraw, account: ALICE, amount: 50, asset: USDC })
    );
    assert_eq!(ledger.get_position(ALICE, USDC), Position { supplied: 50, borrowed: 50 });
    assert_eq!(
        ledger.get_pool_stats(USDC),
        PoolStats {
            total_supply: 50,
            total_borrow: 50,
            utilization_rate: 0,
            supply_rate: 0,
            borrow_rate: 0,
        }
    );
}

#[test]
fn repay_beyond_the_debt_is_rejected() {
    let mut ledger = after_supply_and_borrow();
    ledger.repay(ALICE, 50, USDC).unwrap();
    assert_eq!(ledger.get_position(ALICE, USDC).borrowed, 50);
    assert_eq!(ledger.repay(ALICE, 51, USDC), Err(LedgerError::ExcessRepayment));
    assert_eq!(ledger.get_position(ALICE, USDC), Position { supplied: 100, borrowed: 50 });
    assert_eq!(ledger.get_pool_stats(USDC).total_borrow, 50);
}

#[test]
fn negative_supply_is_rejected() {
    let mut ledger = BlendLoanContract::new();
    assert_eq!(ledger.supply(ALICE, -5, USDC), Err(LedgerError::InvalidAmount));
    assert_eq!(ledger.get_position(ALICE, USDC), Position { supplied: 0, borrowed: 0 });
    assert_eq!(ledger.get_pool_stats(USDC).total_supply, 0);

    let mut funded = after_supply();
    assert_eq!(funded.supply(ALICE, -5, USDC), Err(LedgerError::InvalidAmount));
    assert_eq!(funded.get_position(ALICE, USDC), Position { supplied: 100, borrowed: 0 });
    assert_eq!(funded.get_pool_stats(USDC).total_supply, 100);
}
