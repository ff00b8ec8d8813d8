use vstd::prelude::*;

use crate::address::Address;
use crate::constants::SECONDS_PER_DAY;
use crate::error::ThrustAppError;

verus! {

/// How long a sell tax applies after the pool is created.
#[derive(Clone, Copy, Debug, PartialEq, Eq)]
pub enum TaxDuration {
    /// The tax applies for this many whole days.
    FixedDuration(u64),
    Lifetime,
}

/// A step of a decaying tax: once a seller has held for `days_held` days,
/// `tax_rate` applies.
#[derive(Clone, Copy, Debug, PartialEq, Eq)]
pub struct ReductionTier {
    pub days_held: u64,
    pub tax_rate: u64,
}

/// The sell-side tax policy of a pool. Rates share the trading fee's divisor.
#[derive(Clone, Copy, Debug, PartialEq, Eq)]
pub enum TaxType {
    Disabled,
    /// Sellers holding at least `threshold_percentage` of the supply pay
    /// `higher_tax_rate`; the others pay `standard_tax_rate`.
    HigherSellTax {
        threshold_percentage: u64,
        higher_tax_rate: u64,
        standard_tax_rate: u64,
        duration: TaxDuration,
    },
    /// The rate falls with the seller's holding time, along the tiers.
    DecayTax {
        initial_tax_rate: u64,
        reduction_tiers: [Option<ReductionTier>; 4],
        min_tax_rate: u64,
        duration: TaxDuration,
    },
    FixedTax { rate: u64, duration: TaxDuration },
}

/// The parameters of a waiting room, as its creator gives them.
#[derive(Clone, Copy, Debug, PartialEq, Eq)]
pub struct WaitingRoomConfig {
    pub min_trades: u32,
    pub max_participants: u32,
    pub wallet_limit_percent: u8,
    pub closure_condition: ClosureCondition,
}

/// An optional early-access gate on buys, with its live counters.
#[derive(Clone, Copy, Debug, PartialEq, Eq)]
pub enum WaitingRoomState {
    Disabled,
    Enabled {
        min_trades: u32,
        max_participants: u32,
        wallet_limit_percent: u8,
        closure_condition: ClosureCondition,
        participants: u32,
        total_buy_volume: u64,
        closed: bool,
    },
}

/// When a waiting room stops gating buys.
#[derive(Clone, Copy, Debug, PartialEq, Eq)]
pub enum ClosureCondition {
    /// At this unix time.
    TimeBased(i64),
    /// Once this many participants have bought.
    ParticipantCount(u32),
    /// Once this much quote has been bought with.
    BuyVolume(u64),
}

/// The ledger of one token's pool.
#[derive(Clone, Copy, Debug, PartialEq, Eq)]
pub struct PoolState {
    pub owner: Address,
    /// Real base reserve times total quote liquidity at creation; kept for
    /// inspection only.
    pub konst: u128,
    pub mint: Address,
    pub start_trade_timestamp: u64,
    pub virt_base_reserves: u64,
    pub real_base_reserves: u64,
    pub virt_quote_reserves: u64,
    pub real_quote_reserves: u64,
    /// Real quote reserve at which the pool graduates.
    pub graduation_threshold: u64,
    pub complete: bool,
    pub withdrawn: bool,
    pub tax_type: TaxType,
    pub tax_start_timestamp: u64,
    pub waiting_room_state: WaitingRoomState,
}

/// The constant-product output for `input_amount` put into a pool side
/// holding `input_reserve`, taken from a side holding `output_reserve`,
/// rounded down. Nothing put in gives nothing out.
pub open spec fn output_amount(input_amount: int, input_reserve: int, output_reserve: int) -> int {
    if input_amount == 0 {
        0
    } else {
        output_reserve * input_amount / (input_reserve + input_amount)
    }
}

/// The duration of a tax policy; none for a disabled one.
pub open spec fn tax_duration(tax_type: TaxType) -> Option<TaxDuration> {
    match tax_type {
        TaxType::Disabled => None,
        TaxType::HigherSellTax { duration, .. } => Some(duration),
        TaxType::DecayTax { duration, .. } => Some(duration),
        TaxType::FixedTax { duration, .. } => Some(duration),
    }
}

/// Whole days from `start` to `now`; none before `start`.
pub open spec fn elapsed_days(start: u64, now: u64) -> int {
    if now >= start {
        (now - start) / SECONDS_PER_DAY as int
    } else {
        0
    }
}

impl PoolState {
    /// What every reachable pool satisfies: the real quote reserve never
    /// passes the threshold, and only a completed pool is withdrawn.
    pub open spec fn wf(self) -> bool {
        &&& self.real_quote_reserves <= self.graduation_threshold
        &&& self.withdrawn ==> self.complete
    }

    pub open spec fn total_base(self) -> int {
        self.real_base_reserves + self.virt_base_reserves
    }

    pub open spec fn total_quote(self) -> int {
        self.virt_quote_reserves + self.real_quote_reserves
    }

    /// Whether the sell tax applies at `now`.
    pub open spec fn tax_active(self, now: u64) -> bool {
        match tax_duration(self.tax_type) {
            None => false,
            Some(TaxDuration::Lifetime) => true,
            Some(TaxDuration::FixedDuration(days)) => elapsed_days(
                self.tax_start_timestamp,
                now,
            ) <= days,
        }
    }

    /// The quote a buy of `quote_amount` puts into the pool: the request,
    /// cut down so that the real quote reserve lands exactly on the threshold.
    pub open spec fn applied_quote(self, quote_amount: int) -> int {
        if quote_amount + self.real_quote_reserves > self.graduation_threshold {
            self.graduation_threshold - self.real_quote_reserves
        } else {
            quote_amount
        }
    }

    /// The pool after buying with `quote_amount`, and the base tokens that
    /// come out; none where an amount would leave its range.
    pub open spec fn curve_buy(self, quote_amount: u64) -> Option<(PoolState, u64)> {
        let applied = self.applied_quote(quote_amount as int);
        let base_out = output_amount(applied, self.total_quote(), self.total_base());
        if self.real_quote_reserves > self.graduation_threshold || self.total_quote() > u64::MAX
            || self.total_base() > u64::MAX || base_out > self.real_base_reserves {
            None
        } else {
            Some(
                (
                    PoolState {
                        real_base_reserves: (self.real_base_reserves - base_out) as u64,
                        real_quote_reserves: (self.real_quote_reserves + applied) as u64,
                        ..self
                    },
                    base_out as u64,
                ),
            )
        }
    }

    /// The pool after selling `base_amount` tokens into it, and the quote
    /// that comes out; none where an amount would leave its range.
    pub open spec fn curve_sell(self, base_amount: u64) -> Option<(PoolState, u64)> {
        let quote_out = output_amount(base_amount as int, self.total_base(), self.total_quote());
        if self.total_quote() > u64::MAX || self.total_base() > u64::MAX
            || self.real_base_reserves + base_amount > u64::MAX
            || quote_out > self.real_quote_reserves {
            None
        } else {
            Some(
                (
                    PoolState {
                        real_base_reserves: (self.real_base_reserves + base_amount) as u64,
                        real_quote_reserves: (self.real_quote_reserves - quote_out) as u64,
                        ..self
                    },
                    quote_out as u64,
                ),
            )
        }
    }

    /// Whether the pool's sell tax applies at `now`: a policy other than
    /// `Disabled` applies for its whole lifetime, or for its fixed number of
    /// whole days counted from the tax start (a time before the start counts
    /// as day zero).
    pub fn is_tax_active(&self, current_timestamp: u64) -> (r: bool)
        ensures
            r == self.tax_active(current_timestamp),
    {
        let duration = match &self.tax_type {
            TaxType::Disabled => {
                return false;
            },
            TaxType::HigherSellTax { duration, .. } => duration,
            TaxType::DecayTax { duration, .. } => duration,
            TaxType::FixedTax { duration, .. } => duration,
        };
        match duration {
            TaxDuration::Lifetime => true,
            TaxDuration::FixedDuration(days) => {
                let elapsed_days = if current_timestamp >= self.tax_start_timestamp {
                    (current_timestamp - self.tax_start_timestamp) / SECONDS_PER_DAY
                } else {
                    0
                };
                elapsed_days <= *days
            },
        }
    }

    /// Buys base tokens with `quote_amount`, clamped so that the real quote
    /// reserve does not pass the threshold, and returns the base tokens that
    /// come out. Fails, changing nothing, where a reserve would leave its range.
    pub fn compute_receivable_amount_on_buy(&mut self, quote_amount: u64) -> (r: Result<
        u64,
        ThrustAppError,
    >)
        ensures
            match r {
                Ok(base_out) => old(self).curve_buy(quote_amount) == Some((*final(self), base_out)),
                Err(e) => {
                    &&& old(self).curve_buy(quote_amount) is None
                    &&& e == ThrustAppError::MathOverflow
                    &&& *final(self) == *old(self)
                },
            },
    {
        if self.real_quote_reserves > self.graduation_threshold {
            return Err(ThrustAppError::MathOverflow);
        }
        let mut amount = quote_amount;
        if amount as u128 + self.real_quote_reserves as u128 > self.graduation_threshold as u128 {
            amount = self.graduation_threshold - self.real_quote_reserves;
        }
        let input_reserve = match self.virt_quote_reserves.checked_add(self.real_quote_reserves) {
            Some(v) => v,
            None => {
                return Err(ThrustAppError::MathOverflow);
            },
        };
        let output_reserve = match self.real_base_reserves.checked_add(self.virt_base_reserves) {
            Some(v) => v,
            None => {
                return Err(ThrustAppError::MathOverflow);
            },
        };
        let base_amount = calculate_output_amount(amount, input_reserve, output_reserve);
        if base_amount > self.real_base_reserves {
            return Err(ThrustAppError::MathOverflow);
        }
        self.real_base_reserves = self.real_base_reserves - base_amount;
        self.real_quote_reserves = self.real_quote_reserves + amount;
        Ok(base_amount)
    }

    /// Sells `base_amount` tokens into the pool and returns the quote that
    /// comes out. Fails, changing nothing, where a reserve would leave its
    /// range, in particular where the quote out exceeds the real quote reserve.
    pub fn compute_receivable_amount_on_sell(&mut self, base_amount: u64) -> (r: Result<
        u64,
        ThrustAppError,
    >)
        ensures
            match r {
                Ok(quote_out) => old(self).curve_sell(base_amount) == Some((*final(self), quote_out)),
                Err(e) => {
                    &&& old(self).curve_sell(base_amount) is None
                    &&& e == ThrustAppError::MathOverflow
                    &&& *final(self) == *old(self)
                },
            },
    {
        let input_reserve = match self.real_base_reserves.checked_add(self.virt_base_reserves) {
            Some(v) => v,
            None => {
                return Err(ThrustAppError::MathOverflow);
            },
        };
        let output_reserve = match self.virt_quote_reserves.checked_add(self.real_quote_reserves) {
            Some(v) => v,
            None => {
                return Err(ThrustAppError::MathOverflow);
            },
        };
        let new_real_base = match self.real_base_reserves.checked_add(base_amount) {
            Some(v) => v,
            None => {
                return Err(ThrustAppError::MathOverflow);
            },
        };
        let quote_amount = calculate_output_amount(base_amount, input_reserve, output_reserve);
        if quote_amount > self.real_quote_reserves {
            return Err(ThrustAppError::MathOverflow);
        }
        self.real_base_reserves = new_real_base;
        self.real_quote_reserves = self.real_quote_reserves - quote_amount;
        Ok(quote_amount)
    }
}

/// The product `output_reserve * input_amount` fits in 128 bits, and the
/// quotient never exceeds `output_reserve`.
proof fn lemma_output_bounded(input_amount: u64, input_reserve: u64, output_reserve: u64)
    ensures
        (output_reserve as int) * (input_amount as int) <= u128::MAX,
        output_amount(input_amount as int, input_reserve as int, output_reserve as int)
            <= output_reserve,
{
    assert((output_reserve as int) * (input_amount as int) <= u128::MAX) by (nonlinear_arith)
        requires
            output_reserve <= u64::MAX,
            input_amount <= u64::MAX,
    ;
    if input_amount != 0 {
        let d = input_reserve as int + input_amount as int;
        let p = (output_reserve as int) * (input_amount as int);
        assert(p <= (output_reserve as int) * d) by (nonlinear_arith)
            requires
                input_amount as int <= d,
                output_reserve >= 0,
                p == (output_reserve as int) * (input_amount as int),
        ;
        assert(p / d <= output_reserve) by (nonlinear_arith)
            requires
                0 <= p <= (output_reserve as int) * d,
                d > 0,
                output_reserve >= 0,
        ;
    }
}

/// The constant-product output, computed with a 128-bit product and
/// rounded down.
fn calculate_output_amount(input_amount: u64, input_reserve: u64, output_reserve: u64) -> (r: u64)
    ensures
        r == output_amount(input_amount as int, input_reserve as int, output_reserve as int),
{
    proof {
        lemma_output_bounded(input_amount, input_reserve, output_reserve);
    }
    if input_amount == 0 {
        return 0;
    }
    let output_amount = (output_reserve as u128) * (input_amount as u128) / ((input_reserve as u128)
        + (input_amount as u128));
    output_amount as u64
}

} // verus!
