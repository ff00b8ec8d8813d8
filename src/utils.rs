use vstd::prelude::*;
use vstd::string::StringExecFns;

use crate::address::{address_text, base58_of, Address};
use crate::constants::{FEE_DIVISOR, NATIVE_MINT_STR, SECONDS_PER_DAY};
use crate::error::ThrustAppError;
use crate::pool::state::{ReductionTier, TaxType};
use crate::user::UserState;

verus! {

/// The fee at `rate` (over `FEE_DIVISOR`) on `amount`, rounded down.
pub open spec fn trading_fee(rate: int, amount: int) -> int {
    amount * rate / FEE_DIVISOR as int
}

/// The fee at `rate` on `amount`, or `MathOverflow` where it does not fit
/// in 64 bits (only possible for rates above 100%).
pub open spec fn fee_result(rate: u64, amount: u64) -> Result<u64, ThrustAppError> {
    if trading_fee(rate as int, amount as int) <= u64::MAX {
        Ok(trading_fee(rate as int, amount as int) as u64)
    } else {
        Err(ThrustAppError::MathOverflow)
    }
}

/// For a fixed rate the fee never falls as the amount grows; a zero rate
/// charges nothing; and a rate of at most 100% never charges more than the
/// amount, so it is always computed without overflow.
pub proof fn lemma_trading_fee_monotonic(rate: u64, amount: u64, larger: u64)
    requires
        amount <= larger,
    ensures
        trading_fee(rate as int, amount as int) <= trading_fee(rate as int, larger as int),
        trading_fee(0, amount as int) == 0,
        rate <= FEE_DIVISOR ==> trading_fee(rate as int, amount as int) <= amount,
        rate <= FEE_DIVISOR ==> fee_result(rate, amount) == Ok::<u64, ThrustAppError>(
            trading_fee(rate as int, amount as int) as u64,
        ),
{
    let d = FEE_DIVISOR as int;
    assert((amount as int) * (rate as int) <= (larger as int) * (rate as int)) by (nonlinear_arith)
        requires
            0 <= amount <= larger,
            rate >= 0,
    ;
    vstd::arithmetic::div_mod::lemma_div_is_ordered(
        (amount as int) * (rate as int),
        (larger as int) * (rate as int),
        d,
    );
    assert((amount as int) * 0 == 0);
    if rate <= FEE_DIVISOR {
        assert((amount as int) * (rate as int) <= (amount as int) * d) by (nonlinear_arith)
            requires
                0 <= rate <= d,
                amount >= 0,
        ;
        vstd::arithmetic::div_mod::lemma_div_is_ordered(
            (amount as int) * (rate as int),
            (amount as int) * d,
            d,
        );
        vstd::arithmetic::div_mod::lemma_div_by_multiple(amount as int, d);
    }
}

/// The tier that applies to a holding of `days` whole days: among the
/// tiers that qualify (`days_held <= days`), the one with the largest
/// `days_held`; between qualifying tiers with equal `days_held`, the one
/// that comes later in the list. None if no tier qualifies.
pub open spec fn latest_tier(tiers: Seq<Option<ReductionTier>>, days: int) -> Option<ReductionTier>
    decreases tiers.len(),
{
    if tiers.len() == 0 {
        None
    } else {
        let rest = latest_tier(tiers.drop_last(), days);
        match tiers.last() {
            Some(t) => if t.days_held <= days {
                match rest {
                    Some(r) => if t.days_held >= r.days_held {
                        Some(t)
                    } else {
                        rest
                    },
                    None => Some(t),
                }
            } else {
                rest
            },
            None => rest,
        }
    }
}

/// `rate` brought into `[min, max]`, the lower bound checked first.
pub open spec fn clamp_rate(rate: u64, min: u64, max: u64) -> u64 {
    if rate < min {
        min
    } else if rate > max {
        max
    } else {
        rate
    }
}

/// The sell fee rate that a tax policy gives. A decaying tax fails with
/// `MathOverflow` where the attested receipt time lies after `now`, then
/// with `InvalidTaxPolicy` where its minimum rate exceeds its initial rate.
pub open spec fn tax_rate(
    tax_type: TaxType,
    total_supply: u64,
    now: u64,
    seller_balance: u64,
    base_rate: u64,
    last_received_time: u64,
) -> Result<u64, ThrustAppError> {
    match tax_type {
        TaxType::HigherSellTax {
            threshold_percentage,
            higher_tax_rate,
            standard_tax_rate,
            ..
        } => if seller_balance >= trading_fee(threshold_percentage as int, total_supply as int) {
            Ok(higher_tax_rate)
        } else {
            Ok(standard_tax_rate)
        },
        TaxType::DecayTax { initial_tax_rate, reduction_tiers, min_tax_rate, .. } => {
            if now < last_received_time {
                Err(ThrustAppError::MathOverflow)
            } else if min_tax_rate > initial_tax_rate {
                Err(ThrustAppError::InvalidTaxPolicy)
            } else {
                let days = (now - last_received_time) / SECONDS_PER_DAY as int;
                let rate = match latest_tier(reduction_tiers@, days) {
                    Some(t) => t.tax_rate,
                    None => min_tax_rate,
                };
                Ok(clamp_rate(rate, min_tax_rate, initial_tax_rate))
            }
        },
        TaxType::FixedTax { rate, .. } => Ok(rate),
        TaxType::Disabled => Ok(base_rate),
    }
}

/// The trading fee at rate `fee` on `amount`, computed with a 128-bit
/// product.
pub fn calculate_trading_fee(fee: u64, amount: u64) -> (r: Result<u64, ThrustAppError>)
    ensures
        r == fee_result(fee, amount),
{
    proof {
        assert((amount as int) * (fee as int) <= u128::MAX) by (nonlinear_arith)
            requires
                amount <= u64::MAX,
                fee <= u64::MAX,
        ;
    }
    let product = (amount as u128) * (fee as u128);
    let result = product / (FEE_DIVISOR as u128);
    if result > u64::MAX as u128 {
        return Err(ThrustAppError::MathOverflow);
    }
    Ok(result as u64)
}

/// The tier of a decaying tax that applies to a holding of
/// `holding_time_days` days; see `latest_tier`.
fn applicable_reduction_tier(tiers: &[Option<ReductionTier>; 4], holding_time_days: u64) -> (r:
    Option<ReductionTier>)
    ensures
        r == latest_tier(tiers@, holding_time_days as int),
{
    let mut best: Option<ReductionTier> = None;
    let mut i: usize = 0;
    while i < 4
        invariant
            0 <= i <= 4,
            best == latest_tier(tiers@.subrange(0, i as int), holding_time_days as int),
        decreases 4 - i,
    {
        assert(tiers@.subrange(0, i + 1).drop_last() =~= tiers@.subrange(0, i as int));
        match &tiers[i] {
            Some(tier) => {
                if tier.days_held <= holding_time_days {
                    best = match best {
                        Some(b) => if tier.days_held >= b.days_held {
                            Some(*tier)
                        } else {
                            Some(b)
                        },
                        None => Some(*tier),
                    };
                }
            },
            None => {},
        }
        i = i + 1;
    }
    assert(tiers@.subrange(0, 4) =~= tiers@);
    best
}

/// The sell fee rate under `tax_type`:
/// - a higher sell tax charges its higher rate to sellers whose balance
///   before the sale is at least its percentage of `total_supply`, else its
///   standard rate;
/// - a decaying tax takes the rate of the latest tier that the holding time
///   in whole days has reached (its minimum if none has), clamped to
///   `[min_tax_rate, initial_tax_rate]`; a policy whose minimum exceeds its
///   initial rate fails with `InvalidTaxPolicy`;
/// - a fixed tax charges its rate, and a disabled one the base trading fee.
pub fn calculate_tax_rate(
    tax_type: &TaxType,
    user_state: &UserState,
    total_supply: u64,
    sell_amount: u64,
    current_timestamp: u64,
    seller_balance: u64,
    main_trading_fee_rate: u64,
    last_received_time: u64,
) -> (r: Result<u64, ThrustAppError>)
    ensures
        r == tax_rate(
            *tax_type,
            total_supply,
            current_timestamp,
            seller_balance,
            main_trading_fee_rate,
            last_received_time,
        ),
{
    match tax_type {
        TaxType::HigherSellTax {
            threshold_percentage,
            higher_tax_rate,
            standard_tax_rate,
            ..
        } => {
            proof {
                assert((total_supply as int) * (*threshold_percentage as int) <= u128::MAX)
                    by (nonlinear_arith)
                    requires
                        total_supply <= u64::MAX,
                        *threshold_percentage <= u64::MAX,
                ;
            }
            let threshold = (total_supply as u128) * (*threshold_percentage as u128) / (
            FEE_DIVISOR as u128);
            if seller_balance as u128 >= threshold {
                Ok(*higher_tax_rate)
            } else {
                Ok(*standard_tax_rate)
            }
        },
        TaxType::DecayTax { initial_tax_rate, reduction_tiers, min_tax_rate, .. } => {
            if current_timestamp < last_received_time {
                return Err(ThrustAppError::MathOverflow);
            }
            if *min_tax_rate > *initial_tax_rate {
                return Err(ThrustAppError::InvalidTaxPolicy);
            }
            let holding_time_days = (current_timestamp - last_received_time) / SECONDS_PER_DAY;
            let applicable_rate = match applicable_reduction_tier(
                reduction_tiers,
                holding_time_days,
            ) {
                Some(tier) => tier.tax_rate,
                None => *min_tax_rate,
            };
            if applicable_rate < *min_tax_rate {
                Ok(*min_tax_rate)
            } else if applicable_rate > *initial_tax_rate {
                Ok(*initial_tax_rate)
            } else {
                Ok(applicable_rate)
            }
        },
        TaxType::FixedTax { rate, .. } => Ok(*rate),
        TaxType::Disabled => Ok(main_trading_fee_rate),
    }
}

/// Whether a token account whose mint reads `mint_text` in base58 and which
/// holds `amount` covers `require_amount`: an account of the wrapped native
/// mint always does (it is topped up from its owner's native balance); any
/// other must hold at least that much.
pub fn creator_balance_covers(mint_text: &String, amount: u64, require_amount: u64) -> (r: bool)
    ensures
        r == (mint_text@ == NATIVE_MINT_STR@ || amount >= require_amount),
{
    if *mint_text == <String as StringExecFns>::from_str(NATIVE_MINT_STR) {
        return true;
    }
    amount >= require_amount
}

/// Whether a pool creator's token account of `mint`, holding `amount`,
/// covers `require_amount`; see `creator_balance_covers`.
pub fn check_balance_on_pool_creator(mint: &Address, amount: u64, require_amount: u64) -> (r: bool)
    ensures
        r == (base58_of(mint.bytes@) == NATIVE_MINT_STR@ || amount >= require_amount),
{
    creator_balance_covers(&address_text(mint), amount, require_amount)
}

/// The native currency to move into a wrapped-native token account holding
/// `ata_balance` so that it holds `require_amount`: nothing where it already
/// does; otherwise the shortfall, which fails with `InsufficientFunds` where
/// the owner holds less than `require_amount`.
pub fn native_sync_amount(ata_balance: u64, owner_lamports: u64, require_amount: u64) -> (r: Result<
    u64,
    ThrustAppError,
>)
    ensures
        require_amount <= ata_balance ==> r == Ok::<u64, ThrustAppError>(0),
        require_amount > ata_balance && owner_lamports < require_amount ==> r == Err::<
            u64,
            ThrustAppError,
        >(ThrustAppError::InsufficientFunds),
        require_amount > ata_balance && owner_lamports >= require_amount ==> r == Ok::<
            u64,
            ThrustAppError,
        >((require_amount - ata_balance) as u64),
{
    let mut sync_amount: u64 = 0;
    if require_amount > ata_balance {
        sync_amount = require_amount - ata_balance;
    }
    if sync_amount != 0 && owner_lamports < require_amount {
        return Err(ThrustAppError::InsufficientFunds);
    }
    Ok(sync_amount)
}

} // verus!
