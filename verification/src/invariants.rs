//! What holds of every ledger that the four operations can reach.

use vstd::prelude::*;
use crate::balances::{in_range, lemma_accepted_change, Balances};
use crate::error::LedgerError;
use crate::event::{AccountId, AssetId, LedgerEvent, Operation};
use crate::pool::PoolStats;
use crate::position::Position;
use crate::state::{Book, LedgerState};
use crate::totals::{
    lemma_sum_values_bounds, lemma_sum_values_insert, lemma_sum_values_monotonic,
    lemma_sum_values_split,
};

verus! {

/// Before any operation every position is zero, every aggregate is all
/// zero, and the ledger is consistent.
pub proof fn lemma_empty_ledger()
    ensures
        LedgerState::empty().consistent(),
        forall|account: AccountId, asset: AssetId|
            #[trigger] LedgerState::empty().position(account, asset) == Position::zero(),
        forall|asset: AssetId| #[trigger] LedgerState::empty().pool(asset) == PoolStats::zero(),
{
}

/// A consistent book stays consistent when an account's records are
/// replaced by records with a collateralized position whose two amounts
/// moved as far as the two totals did.
pub proof fn lemma_store_keeps_book_consistent(book: Book, account: AccountId, next: Balances)
    requires
        book.consistent(),
        next.position.collateralized(),
        next.position.supplied - book.position(account).supplied == next.pool.total_supply
            - book.pool.total_supply,
        next.position.borrowed - book.position(account).borrowed == next.pool.total_borrow
            - book.pool.total_borrow,
    ensures
        book.store(account, next).consistent(),
{
    let after = book.store(account, next);
    assert(book.supplied_amounts().dom() =~= book.positions.dom());
    assert(book.borrowed_amounts().dom() =~= book.positions.dom());
    assert(after.supplied_amounts() =~= book.supplied_amounts().insert(
        account,
        next.position.supplied as int,
    ));
    assert(after.borrowed_amounts() =~= book.borrowed_amounts().insert(
        account,
        next.position.borrowed as int,
    ));
    lemma_sum_values_insert(book.supplied_amounts(), account, next.position.supplied as int);
    lemma_sum_values_insert(book.borrowed_amounts(), account, next.position.borrowed as int);
}

/// Every operation, accepted or rejected, takes a consistent ledger to a
/// consistent ledger.
pub proof fn lemma_step_keeps_consistent(state: LedgerState, request: LedgerEvent)
    requires
        state.consistent(),
    ensures
        state.step(request).consistent(),
{
    if state.outcome(request) is Ok {
        let book = state.book(request.asset);
        let current = book.balances(request.account);
        let next = state.outcome(request)->Ok_0;
        lemma_accepted_change(current, request.operation, request.amount);
        lemma_store_keeps_book_consistent(book, request.account, next);
    }
}

/// Every ledger that a sequence of operations reaches from a consistent
/// ledger is consistent.
pub proof fn lemma_run_keeps_consistent(state: LedgerState, requests: Seq<LedgerEvent>)
    requires
        state.consistent(),
    ensures
        state.run(requests).consistent(),
    decreases requests.len(),
{
    if requests.len() > 0 {
        lemma_run_keeps_consistent(state, requests.drop_last());
        lemma_step_keeps_consistent(state.run(requests.drop_last()), requests.last());
    }
}

/// Whatever sequence of operations was asked of a new ledger, every
/// position in it has a supply and a debt that are not negative, and a
/// debt that does not exceed the supply.
pub proof fn lemma_reachable_positions_collateralized(
    requests: Seq<LedgerEvent>,
    account: AccountId,
    asset: AssetId,
)
    ensures
        ({
            let position = LedgerState::empty().run(requests).position(account, asset);
            &&& position.supplied >= 0
            &&& position.borrowed >= 0
            &&& position.borrowed <= position.supplied
        }),
{
    lemma_run_keeps_consistent(LedgerState::empty(), requests);
    lemma_positions_collateralized(LedgerState::empty().run(requests), account, asset);
}

/// Whatever sequence of operations was asked of a new ledger, the totals of
/// every asset equal the sums of the supplied and of the borrowed amounts
/// over all positions in that asset.
pub proof fn lemma_reachable_totals_are_sums(requests: Seq<LedgerEvent>, asset: AssetId)
    ensures
        ({
            let state = LedgerState::empty().run(requests);
            &&& state.pool(asset).total_supply == state.supplied_sum(asset)
            &&& state.pool(asset).total_borrow == state.borrowed_sum(asset)
        }),
{
    lemma_run_keeps_consistent(LedgerState::empty(), requests);
    lemma_totals_are_sums(LedgerState::empty().run(requests), asset);
}

/// In a consistent ledger every position, written or not, has a supply and
/// a debt that are not negative, and a debt that does not exceed the
/// supply.
pub proof fn lemma_positions_collateralized(
    state: LedgerState,
    account: AccountId,
    asset: AssetId,
)
    requires
        state.consistent(),
    ensures
        state.position(account, asset).supplied >= 0,
        state.position(account, asset).borrowed >= 0,
        state.position(account, asset).borrowed <= state.position(account, asset).supplied,
{
}

/// In a consistent ledger the totals of every asset, touched or not, equal
/// the sums of the supplied and of the borrowed amounts over all positions
/// in that asset.
pub proof fn lemma_totals_are_sums(state: LedgerState, asset: AssetId)
    requires
        state.consistent(),
    ensures
        state.pool(asset).total_supply == state.supplied_sum(asset),
        state.pool(asset).total_borrow == state.borrowed_sum(asset),
{
}

/// In a consistent ledger no total is negative, the total borrow of an
/// asset does not exceed its total supply, and no position holds more
/// than the totals of its asset.
pub proof fn lemma_totals_bound_positions(state: LedgerState, account: AccountId, asset: AssetId)
    requires
        state.consistent(),
    ensures
        0 <= state.pool(asset).total_borrow <= state.pool(asset).total_supply,
        state.position(account, asset).supplied <= state.pool(asset).total_supply,
        state.position(account, asset).borrowed <= state.pool(asset).total_borrow,
        state.pool(asset).total_borrow - state.position(account, asset).borrowed
            <= state.pool(asset).total_supply - state.position(account, asset).supplied,
{
    if state.books.contains_key(asset) {
        let book = state.books[asset];
        let supplied = book.supplied_amounts();
        let borrowed = book.borrowed_amounts();
        assert(supplied.dom() =~= book.positions.dom());
        assert(borrowed.dom() =~= book.positions.dom());
        assert forall|k: AccountId| supplied.contains_key(k) implies 0 <= borrowed[k]
            <= supplied[k] by {
            assert(book.positions[k].collateralized());
        }
        lemma_sum_values_bounds(supplied);
        lemma_sum_values_bounds(borrowed);
        lemma_sum_values_monotonic(borrowed, supplied);
        if book.positions.contains_key(account) {
            lemma_sum_values_split(supplied, account);
            lemma_sum_values_split(borrowed, account);
            lemma_sum_values_monotonic(borrowed.remove(account), supplied.remove(account));
        }
    } else {
        lemma_totals_are_sums(state, asset);
    }
}

/// A rejected operation leaves the whole ledger, the position and the
/// aggregate included, exactly as it was.
pub proof fn lemma_rejection_changes_nothing(state: LedgerState, request: LedgerEvent)
    requires
        state.answer(request) is Err,
    ensures
        state.step(request) == state,
{
}

/// An accepted operation is answered with the request itself, and changes
/// one position and one aggregate: the positions of other accounts and of
/// other assets, and the aggregates of other assets, stay as they were, and
/// so do the three rates of the asset in question.
pub proof fn lemma_acceptance_changes_one_pair(
    state: LedgerState,
    request: LedgerEvent,
    account: AccountId,
    asset: AssetId,
)
    requires
        state.answer(request) is Ok,
    ensures
        state.answer(request) == Ok::<LedgerEvent, LedgerError>(request),
        state.step(request).balances(request.account, request.asset) == state.outcome(
            request,
        )->Ok_0,
        account != request.account || asset != request.asset ==> state.step(request).position(
            account,
            asset,
        ) == state.position(account, asset),
        asset != request.asset ==> state.step(request).pool(asset) == state.pool(asset),
        state.step(request).pool(asset).same_rates(state.pool(asset)),
{
    lemma_accepted_change(
        state.balances(request.account, request.asset),
        request.operation,
        request.amount,
    );
}

/// No operation deletes a record: an account or an asset that the ledger has
/// an entry for keeps its entry, whatever is asked next. A position that
/// has come back to zero is a record like any other.
pub proof fn lemma_records_are_kept(
    state: LedgerState,
    request: LedgerEvent,
    account: AccountId,
    asset: AssetId,
)
    ensures
        state.books.contains_key(asset) ==> state.step(request).books.contains_key(asset),
        state.books.contains_key(asset) && state.books[asset].positions.contains_key(account)
            ==> state.step(request).books[asset].positions.contains_key(account),
{
}

/// In a consistent ledger the 128-bit range is left in two ways only: by
/// a deposit that would take the total supply of its asset above the
/// largest amount, and by a borrow that would take the debt itself above
/// it. No repayment and no withdrawal overflows, and neither does the total
/// borrow.
pub proof fn lemma_overflow_cases(state: LedgerState, request: LedgerEvent)
    requires
        state.consistent(),
    ensures
        state.answer(request) == Err::<LedgerEvent, LedgerError>(LedgerError::ArithmeticOverflow)
            <==> request.amount > 0 && {
            ||| request.operation == Operation::Supply && !in_range(
                state.pool(request.asset).total_supply + request.amount,
            )
            ||| request.operation == Operation::Borrow && !in_range(
                state.position(request.account, request.asset).borrowed + request.amount,
            )
        },
{
    lemma_positions_collateralized(state, request.account, request.asset);
    lemma_totals_bound_positions(state, request.account, request.asset);
}

} // verus!
