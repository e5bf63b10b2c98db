//! Why an operation was rejected.

use vstd::prelude::*;

verus! {

/// The rule that a rejected operation broke. A rejected operation has
/// changed nothing.
#[derive(Clone, Copy, Debug, PartialEq, Eq, Structural)]
pub enum LedgerError {
    /// The amount is zero or negative.
    InvalidAmount,
    /// The borrow would push the debt above the supplied collateral.
    InsufficientCollateral,
    /// The repayment exceeds the current debt.
    ExcessRepayment,
    /// The withdrawal exceeds the supplied balance.
    InsufficientSupply,
    /// The withdrawal exceeds the part of the supply that backs no borrow.
    UndercollateralizedWithdrawal,
    /// A sum or difference would leave the signed 128-bit range.
    ArithmeticOverflow,
}

impl LedgerError {
    /// The text of `message`, as a sequence of characters.
    pub open spec fn message_text(self) -> Seq<char> {
        match self {
            LedgerError::InvalidAmount => "Amount must be positive"@,
            LedgerError::InsufficientCollateral => "Insufficient collateral"@,
            LedgerError::ExcessRepayment => "Repay amount exceeds debt"@,
            LedgerError::InsufficientSupply => "Insufficient supply"@,
            LedgerError::UndercollateralizedWithdrawal =>
                "Withdrawal would create undercollateralized position"@,
            LedgerError::ArithmeticOverflow => "Arithmetic overflow"@,
        }
    }

    /// A short description for the caller who has to abort with a message.
    pub fn message(&self) -> (text: &'static str)
        ensures
            text@ == self.message_text(),
    {
        match self {
            LedgerError::InvalidAmount => "Amount must be positive",
            LedgerError::InsufficientCollateral => "Insufficient collateral",
            LedgerError::ExcessRepayment => "Repay amount exceeds debt",
            LedgerError::InsufficientSupply => "Insufficient supply",
            LedgerError::UndercollateralizedWithdrawal =>
                "Withdrawal would create undercollateralized position",
            LedgerError::ArithmeticOverflow => "Arithmetic overflow",
        }
    }
}

} // verus!
