use vstd::prelude::*;

use crate::address::Address;
use crate::constants::LAMPORTS_PER_SOL;

verus! {

/// A trader's record: trade statistics and the referrer it is bound to.
#[derive(Clone, Copy, Debug, PartialEq, Eq)]
pub struct UserState {
    pub user: Address,
    pub trade_count: u64,
    /// Cumulative quote volume, in the native currency's smallest unit.
    pub trading_volume_sol: u64,
    /// Cumulative quote volume, in the reference unit.
    pub trading_volume_usd: u64,
    /// The referrer bound on the first trade that named one; the default
    /// address while none is bound.
    pub referrer: Address,
    /// Trades for which this trader's referrer was rewarded.
    pub refer_trade_num: u64,
}

/// Quote volume in the reference unit, at `sol_price` reference units per
/// whole unit of the native currency, rounded down.
pub open spec fn reference_volume(quote: int, sol_price: int) -> int {
    quote * sol_price / LAMPORTS_PER_SOL as int
}

impl UserState {
    /// The referrer bound after a trade that names `referrer`: the first
    /// non-default referrer named is kept for good.
    pub open spec fn bound_referrer(self, referrer: Address) -> Address {
        if self.referrer.is_zero() && !referrer.is_zero() {
            referrer
        } else {
            self.referrer
        }
    }

    /// Whether a trade that names `referrer` pays it a reward: it must be the
    /// bound referrer, and the trader's rewarded trades must not have passed
    /// `limit`.
    pub open spec fn earns_referral(self, referrer: Address, limit: u64) -> bool {
        let bound = self.bound_referrer(referrer);
        &&& !bound.is_zero()
        &&& bound == referrer
        &&& self.refer_trade_num <= limit
    }

    /// The record after one trade of quote volume `volume` that names
    /// `referrer`; none where a counter would overflow.
    pub open spec fn after_trade(self, volume: u64, sol_price: u64, referrer: Address, limit: u64) -> Option<UserState> {
        let usd = reference_volume(volume as int, sol_price as int);
        let refer_trade_num = if self.earns_referral(referrer, limit) {
            self.refer_trade_num + 1
        } else {
            self.refer_trade_num as int
        };
        if self.trade_count + 1 > u64::MAX || self.trading_volume_sol + volume > u64::MAX
            || self.trading_volume_usd + usd > u64::MAX || refer_trade_num > u64::MAX {
            None
        } else {
            Some(
                UserState {
                    trade_count: (self.trade_count + 1) as u64,
                    trading_volume_sol: (self.trading_volume_sol + volume) as u64,
                    trading_volume_usd: (self.trading_volume_usd + usd) as u64,
                    referrer: self.bound_referrer(referrer),
                    refer_trade_num: refer_trade_num as u64,
                    ..self
                },
            )
        }
    }

    /// A fresh record for `user`: no trades, no referrer.
    pub fn new(user: Address) -> (r: UserState)
        ensures
            r.user == user,
            r.trade_count == 0,
            r.trading_volume_sol == 0,
            r.trading_volume_usd == 0,
            r.referrer.is_zero(),
            r.refer_trade_num == 0,
    {
        UserState {
            user,
            trade_count: 0,
            trading_volume_sol: 0,
            trading_volume_usd: 0,
            referrer: Address::zero(),
            refer_trade_num: 0,
        }
    }

    /// Whether a trade that names `referrer` pays it a reward.
    pub fn is_referral_rewarded(&self, referrer: &Address, limit: u64) -> (r: bool)
        ensures
            r == self.earns_referral(*referrer, limit),
    {
        let bound = if self.referrer.is_default() && !referrer.is_default() {
            *referrer
        } else {
            self.referrer
        };
        !bound.is_default() && bound.equals(referrer) && self.refer_trade_num <= limit
    }

    /// The record after one trade of quote volume `volume` that names
    /// `referrer`: one more trade, the volumes added (the reference volume
    /// computed in 128 bits), the referrer bound if none was, and one more
    /// rewarded trade where the trade earns a reward. None where a counter
    /// would overflow.
    pub fn record_trade(&self, volume: u64, sol_price: u64, referrer: &Address, limit: u64) -> (r:
        Option<UserState>)
        ensures
            r == self.after_trade(volume, sol_price, *referrer, limit),
    {
        proof {
            assert((volume as int) * (sol_price as int) <= u128::MAX) by (nonlinear_arith)
                requires
                    volume <= u64::MAX,
                    sol_price <= u64::MAX,
            ;
        }
        let usd128 = (volume as u128) * (sol_price as u128) / (LAMPORTS_PER_SOL as u128);
        if usd128 > u64::MAX as u128 {
            return None;
        }
        let usd = usd128 as u64;
        let trade_count = match self.trade_count.checked_add(1) {
            Some(v) => v,
            None => {
                return None;
            },
        };
        let trading_volume_sol = match self.trading_volume_sol.checked_add(volume) {
            Some(v) => v,
            None => {
                return None;
            },
        };
        let trading_volume_usd = match self.trading_volume_usd.checked_add(usd) {
            Some(v) => v,
            None => {
                return None;
            },
        };
        let rewarded = self.is_referral_rewarded(referrer, limit);
        let refer_trade_num = if rewarded {
            match self.refer_trade_num.checked_add(1) {
                Some(v) => v,
                None => {
                    return None;
                },
            }
        } else {
            self.refer_trade_num
        };
        let bound = if self.referrer.is_default() && !referrer.is_default() {
            *referrer
        } else {
            self.referrer
        };
        Some(
            UserState {
                user: self.user,
                trade_count,
                trading_volume_sol,
                trading_volume_usd,
                referrer: bound,
                refer_trade_num,
            },
        )
    }
}

} // verus!
