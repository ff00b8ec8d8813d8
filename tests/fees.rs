use thrust_app::address::Address;
use thrust_app::constants::NATIVE_MINT_STR;
use thrust_app::error::ThrustAppError;
use thrust_app::pool::state::{ReductionTier, TaxType, TaxDuration};
use thrust_app::user::UserState;
use thrust_app::utils::{
    calculate_tax_rate, calculate_trading_fee, check_balance_on_pool_creator,
    creator_balance_covers, native_sync_amount,
};

fn tier(days_held: u64, tax_rate: u64) -> Option<ReductionTier> {
    Some(ReductionTier { days_held, tax_rate })
}

fn rate_of(tax_type: &TaxType, seller_balance: u64, now: u64, last_received: u64) -> Result<u64, ThrustAppError> {
    let user = UserState::new(Address::new([4; 32]));
    calculate_tax_rate(tax_type, &user, 1000, 0, now, seller_balance, 1000, last_received)
}

const DAY: u64 = 86_400;

#[test]
fn trading_fee_exact_values() {
    assert_eq!(calculate_trading_fee(1000, 50), Ok(0));
    assert_eq!(calculate_trading_fee(1000, 100), Ok(1));
    assert_eq!(calculate_trading_fee(1000, 1_000_000_000), Ok(10_000_000));
    assert_eq!(calculate_trading_fee(10_000, 55), Ok(5));
    assert_eq!(calculate_trading_fee(100_000, u64::MAX), Ok(u64::MAX));
}

#[test]
fn trading_fee_zero_rate_is_zero() {
    for amount in [0u64, 1, 99_999, 100_000, u64::MAX] {
        assert_eq!(calculate_trading_fee(0, amount), Ok(0));
    }
}

#[test]
fn trading_fee_is_monotonic_in_amount() {
    let mut last = 0;
    for amount in (0u64..2_000).chain([1u64 << 40, (1u64 << 40) + 1, u64::MAX]) {
        let fee = calculate_trading_fee(1_234, amount).unwrap();
        assert!(fee >= last);
        last = fee;
    }
}

#[test]
fn trading_fee_overflow_is_an_error() {
    assert_eq!(calculate_trading_fee(u64::MAX, u64::MAX), Err(ThrustAppError::MathOverflow));
}

#[test]
fn scenario_decay_tax_at_ten_days() {
    let tax = TaxType::DecayTax {
        initial_tax_rate: 20_000,
        reduction_tiers: [tier(0, 20_000), tier(7, 10_000), tier(30, 2_000), None],
        min_tax_rate: 1_000,
        duration: TaxDuration::Lifetime,
    };
    // the 0-day and 7-day tiers qualify; the 7-day tier is the latest reached
    assert_eq!(rate_of(&tax, 0, 10 * DAY, 0), Ok(10_000));
    assert_eq!(rate_of(&tax, 0, 6 * DAY, 0), Ok(20_000));
    assert_eq!(rate_of(&tax, 0, 30 * DAY, 0), Ok(2_000));
}

#[test]
fn decay_tax_without_zero_day_tier() {
    let tax = TaxType::DecayTax {
        initial_tax_rate: 20_000,
        reduction_tiers: [None, tier(7, 10_000), tier(30, 2_000), None],
        min_tax_rate: 1_000,
        duration: TaxDuration::Lifetime,
    };
    assert_eq!(rate_of(&tax, 0, 3 * DAY, 0), Ok(1_000));
    assert_eq!(rate_of(&tax, 0, 10 * DAY + 5, 5), Ok(10_000));
    assert_eq!(rate_of(&tax, 0, 40 * DAY, 0), Ok(2_000));
}

#[test]
fn decay_tax_tiers_in_any_order_and_ties() {
    let tax = TaxType::DecayTax {
        initial_tax_rate: 20_000,
        reduction_tiers: [tier(30, 2_000), tier(7, 10_000), tier(7, 8_000), tier(0, 20_000)],
        min_tax_rate: 1_000,
        duration: TaxDuration::Lifetime,
    };
    // equal thresholds: the later tier in the list applies
    assert_eq!(rate_of(&tax, 0, 10 * DAY, 0), Ok(8_000));
    assert_eq!(rate_of(&tax, 0, 31 * DAY, 0), Ok(2_000));
    assert_eq!(rate_of(&tax, 0, DAY, 0), Ok(20_000));
}

#[test]
fn decay_tax_with_minimum_above_initial_fails() {
    let tax = TaxType::DecayTax {
        initial_tax_rate: 1_000,
        reduction_tiers: [None, None, None, None],
        min_tax_rate: 5_000,
        duration: TaxDuration::Lifetime,
    };
    assert_eq!(rate_of(&tax, 0, 0, 0), Err(ThrustAppError::InvalidTaxPolicy));
}

#[test]
fn decay_tax_clamps_to_bounds() {
    let high = TaxType::DecayTax {
        initial_tax_rate: 5_000,
        reduction_tiers: [tier(0, 9_000), None, None, None],
        min_tax_rate: 1_000,
        duration: TaxDuration::Lifetime,
    };
    assert_eq!(rate_of(&high, 0, 0, 0), Ok(5_000));
    let low = TaxType::DecayTax {
        initial_tax_rate: 5_000,
        reduction_tiers: [tier(0, 100), None, None, None],
        min_tax_rate: 1_000,
        duration: TaxDuration::Lifetime,
    };
    assert_eq!(rate_of(&low, 0, 0, 0), Ok(1_000));
}

#[test]
fn decay_tax_with_future_receipt_fails() {
    let tax = TaxType::DecayTax {
        initial_tax_rate: 5_000,
        reduction_tiers: [None, None, None, None],
        min_tax_rate: 1_000,
        duration: TaxDuration::Lifetime,
    };
    assert_eq!(rate_of(&tax, 0, 10, 11), Err(ThrustAppError::MathOverflow));
}

#[test]
fn higher_sell_tax_by_balance() {
    let tax = TaxType::HigherSellTax {
        threshold_percentage: 5_000,
        higher_tax_rate: 8_000,
        standard_tax_rate: 2_000,
        duration: TaxDuration::Lifetime,
    };
    // 5% of a supply of 1000 is 50
    assert_eq!(rate_of(&tax, 50, 0, 0), Ok(8_000));
    assert_eq!(rate_of(&tax, 49, 0, 0), Ok(2_000));
}

#[test]
fn fixed_and_disabled_tax_rates() {
    let fixed = TaxType::FixedTax { rate: 7_000, duration: TaxDuration::FixedDuration(3) };
    assert_eq!(rate_of(&fixed, 0, 0, 0), Ok(7_000));
    assert_eq!(rate_of(&TaxType::Disabled, 0, 0, 0), Ok(1_000));
}

#[test]
fn native_mint_creator_always_covered() {
    let native = Address::new(spl_token::native_mint::id().to_bytes());
    assert_eq!(spl_token::native_mint::id().to_string(), NATIVE_MINT_STR);
    assert!(check_balance_on_pool_creator(&native, 0, 1_000));
    let other = Address::new([7; 32]);
    assert!(!check_balance_on_pool_creator(&other, 999, 1_000));
    assert!(check_balance_on_pool_creator(&other, 1_000, 1_000));
}

#[test]
fn native_sync_amounts() {
    assert_eq!(native_sync_amount(500, 0, 500), Ok(0));
    assert_eq!(native_sync_amount(500, 1_000, 800), Ok(300));
    assert_eq!(native_sync_amount(500, 700, 800), Err(ThrustAppError::InsufficientFunds));
}

#[test]
fn creator_balance_by_mint_text() {
    assert!(creator_balance_covers(&NATIVE_MINT_STR.to_string(), 0, 5));
    let other = "11111111111111111111111111111111".to_string();
    assert!(!creator_balance_covers(&other, 4, 5));
    assert!(creator_balance_covers(&other, 5, 5));
}
