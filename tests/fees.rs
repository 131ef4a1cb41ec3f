use meraki_contract::error::{ArithmeticFault, ContractError};
use meraki_contract::fees::{split_investment, split_revenue, RevenueSplit};

#[test]
fn investment_of_one_thousand_pays_five_in_fees() {
    let s = split_investment(1000);
    assert_eq!(s.platform_fee, 5);
    assert_eq!(s.counterparty_amount, 995);
}

#[test]
fn investment_below_fee_threshold_pays_no_fee() {
    let s = split_investment(199);
    assert_eq!(s.platform_fee, 0);
    assert_eq!(s.counterparty_amount, 199);
}

#[test]
fn investment_of_max_amount_is_split() {
    let s = split_investment(u64::MAX);
    assert_eq!(s.platform_fee, u64::MAX / 200);
    assert_eq!(s.platform_fee + s.counterparty_amount, u64::MAX);
}

#[test]
fn revenue_of_one_thousand_at_twenty_percent() {
    let s = split_revenue(1000, 20).unwrap();
    assert_eq!(
        s,
        RevenueSplit { platform_fee: 5, investor_share: 200, remainder_share: 795 }
    );
    assert_eq!(s.platform_fee + s.investor_share + s.remainder_share, 1000);
}

#[test]
fn revenue_split_truncates() {
    let s = split_revenue(999, 33).unwrap();
    assert_eq!(s.platform_fee, 4);
    assert_eq!(s.investor_share, 329);
    assert_eq!(s.remainder_share, 666);
}

#[test]
fn revenue_split_conserves_on_many_inputs() {
    for amount in [0u64, 1, 199, 200, 201, 12345, 1_000_000_007, u64::MAX] {
        for pct in [0u8, 1, 50, 99] {
            let s = split_revenue(amount, pct).unwrap();
            assert_eq!(
                s.platform_fee as u128 + s.investor_share as u128 + s.remainder_share as u128,
                amount as u128
            );
        }
    }
}

#[test]
fn full_return_with_nonzero_fee_underflows() {
    for amount in [200u64, 1000, u64::MAX] {
        assert_eq!(
            split_revenue(amount, 100),
            Err(ContractError::ArithmeticError(ArithmeticFault::Underflow))
        );
    }
}

#[test]
fn full_return_without_fee_succeeds() {
    let s = split_revenue(199, 100).unwrap();
    assert_eq!(
        s,
        RevenueSplit { platform_fee: 0, investor_share: 199, remainder_share: 0 }
    );
}

#[test]
fn oversized_share_overflows() {
    assert_eq!(
        split_revenue(u64::MAX, 255),
        Err(ContractError::ArithmeticError(ArithmeticFault::Overflow))
    );
}

#[test]
fn max_amount_at_ninety_nine_percent_uses_wide_product() {
    let s = split_revenue(u64::MAX, 99).unwrap();
    let expected = (u64::MAX as u128 * 99 / 100) as u64;
    assert_eq!(s.investor_share, expected);
    assert_eq!(s.platform_fee, u64::MAX / 200);
    assert_eq!(s.remainder_share, u64::MAX - u64::MAX / 200 - expected);
}
