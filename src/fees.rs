//! The three-way split of a monetary amount between the platform, the
//! investor and the startup.
use vstd::prelude::*;

use crate::error::{ArithmeticFault, ContractError};

verus! {

/// The platform keeps one part in this many (0.5%).
pub const FEE_DIVISOR: u64 = 200;

/// Percentages are taken out of this base.
pub const PERCENT_BASE: u64 = 100;

/// The platform's fee on `amount`, truncated.
pub open spec fn platform_fee_of(amount: int) -> int {
    amount / (FEE_DIVISOR as int)
}

/// The investor's share of `amount` at `percent` percent, truncated.
pub open spec fn investor_share_of(amount: int, percent: int) -> int {
    (amount * percent) / (PERCENT_BASE as int)
}

/// How a principal is divided when the investment is executed.
#[derive(Debug, Clone, Copy, PartialEq, Eq, Structural)]
pub struct InvestmentSplit {
    /// Goes to the platform.
    pub platform_fee: u64,
    /// Goes to the startup's vault.
    pub counterparty_amount: u64,
}

/// How one revenue event is divided.
#[derive(Debug, Clone, Copy, PartialEq, Eq, Structural)]
pub struct RevenueSplit {
    /// Goes to the platform.
    pub platform_fee: u64,
    /// Goes to the investor.
    pub investor_share: u64,
    /// Goes back to the startup.
    pub remainder_share: u64,
}

/// The split of a principal: the fee, and everything else to the startup.
pub open spec fn investment_split_of(amount: u64) -> InvestmentSplit {
    InvestmentSplit {
        platform_fee: platform_fee_of(amount as int) as u64,
        counterparty_amount: (amount - platform_fee_of(amount as int)) as u64,
    }
}

/// The split of a revenue amount at `percent` percent for the investor, or
/// the arithmetic fault that prevents it.
pub open spec fn revenue_split_of(amount: u64, percent: u8) -> Result<RevenueSplit, ContractError> {
    let fee = platform_fee_of(amount as int);
    let share = investor_share_of(amount as int, percent as int);
    if share > u64::MAX {
        Err(ContractError::ArithmeticError(ArithmeticFault::Overflow))
    } else if fee + share > amount {
        Err(ContractError::ArithmeticError(ArithmeticFault::Underflow))
    } else {
        Ok(
            RevenueSplit {
                platform_fee: fee as u64,
                investor_share: share as u64,
                remainder_share: (amount - fee - share) as u64,
            },
        )
    }
}

/// Splits a principal into the platform fee and the amount for the startup.
/// This split never fails: the fee is never more than the amount.
pub fn split_investment(amount: u64) -> (r: InvestmentSplit)
    ensures
        r == investment_split_of(amount),
        r.platform_fee + r.counterparty_amount == amount,
{
    let platform_fee = amount / FEE_DIVISOR;
    InvestmentSplit { platform_fee, counterparty_amount: amount - platform_fee }
}

/// Splits a revenue amount three ways. The investor's share is computed in a
/// 128-bit accumulator; the call fails with an overflow when that share does
/// not fit in a `u64`, and with an underflow when fee and share together
/// exceed the amount.
pub fn split_revenue(amount: u64, investor_return_percent: u8) -> (r: Result<
    RevenueSplit,
    ContractError,
>)
    ensures
        r == revenue_split_of(amount, investor_return_percent),
        r matches Ok(s) ==> s.platform_fee + s.investor_share + s.remainder_share == amount,
{
    let platform_fee = amount / FEE_DIVISOR;
    proof {
        assert((amount as int) * (investor_return_percent as int) <= (u64::MAX as int) * 255)
            by (nonlinear_arith)
            requires
                amount <= u64::MAX,
                investor_return_percent <= 255,
        ;
    }
    let product: u128 = (amount as u128) * (investor_return_percent as u128);
    let share: u128 = product / (PERCENT_BASE as u128);
    if share > u64::MAX as u128 {
        return Err(ContractError::ArithmeticError(ArithmeticFault::Overflow));
    }
    let investor_share = share as u64;
    if investor_share > amount - platform_fee {
        return Err(ContractError::ArithmeticError(ArithmeticFault::Underflow));
    }
    Ok(
        RevenueSplit {
            platform_fee,
            investor_share,
            remainder_share: amount - platform_fee - investor_share,
        },
    )
}

/// No value is created or destroyed: whenever a revenue split succeeds, the
/// platform fee, the investor's share and the remainder add up to the
/// amount. With a return below 100 percent, or a return of 100 percent on an
/// amount too small to carry a fee, the split always succeeds.
pub proof fn lemma_revenue_split_conserves(amount: u64, investor_return_percent: u8)
    ensures
        revenue_split_of(amount, investor_return_percent) matches Ok(s) ==> s.platform_fee
            + s.investor_share + s.remainder_share == amount,
        investor_return_percent < 100 || (investor_return_percent == 100 && platform_fee_of(
            amount as int,
        ) == 0) ==> revenue_split_of(amount, investor_return_percent) is Ok,
{
    let a = amount as int;
    let p = investor_return_percent as int;
    if p < 100 {
        assert(a / 200 + (a * p) / 100 <= a) by (nonlinear_arith)
            requires
                0 <= a,
                0 <= p < 100,
        ;
    }
    if p <= 100 {
        assert((a * p) / 100 <= a) by (nonlinear_arith)
            requires
                0 <= a,
                0 <= p <= 100,
        ;
    }
}

/// A full return to the investor leaves nothing for a nonzero platform fee:
/// such a split fails with an underflow instead of wrapping around.
pub proof fn lemma_full_return_with_fee_fails(amount: u64)
    requires
        platform_fee_of(amount as int) > 0,
    ensures
        revenue_split_of(amount, 100) == Err::<RevenueSplit, ContractError>(
            ContractError::ArithmeticError(ArithmeticFault::Underflow),
        ),
{
    assert((amount as int * 100) / 100 == amount as int) by (nonlinear_arith);
}

} // verus!
