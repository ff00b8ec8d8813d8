use vstd::prelude::*;

use crate::address::Address;
use crate::error::ThrustAppError;
use crate::main_state::MainState;
use crate::pool::event::{follows, CompleteEvent, TradeEvent};
use crate::pool::state::PoolState;
use crate::pool::waiting_room::{admit_buy, room_after_buy};
use crate::user::UserState;
use crate::utils::{calculate_trading_fee, fee_result, trading_fee};

verus! {

/// What a buy asks the caller to transfer, and its records.
///
/// The buyer pays `fee - referral_reward` to the fee recipient,
/// `referral_reward` to its referrer and `input_amount` to the pool's
/// reserve; the pool's reserve pays `output_amount` tokens to the buyer and,
/// at graduation, `graduation_fee` to the fee recipient.
#[derive(Clone, Copy, Debug, PartialEq, Eq)]
pub struct BuyReceipt {
    pub fee: u64,
    pub referral_reward: u64,
    pub input_amount: u64,
    pub output_amount: u64,
    pub graduation_fee: u64,
    pub trade_event: TradeEvent,
    /// Present exactly when this buy graduated the pool.
    pub complete_event: Option<CompleteEvent>,
}

/// The quote that a buy of `amount` puts into the pool, and the fee on it.
/// The fee at `rate` comes off `amount`; where the rest would carry the real
/// quote reserve past the threshold, it is cut to land exactly on it and the
/// fee is charged on the cut amount instead.
pub open spec fn buy_split(rate: u64, pool: PoolState, amount: u64) -> Result<(u64, u64), ThrustAppError> {
    match fee_result(rate, amount) {
        Err(e) => Err(e),
        Ok(fee) => if fee > amount || pool.real_quote_reserves > pool.graduation_threshold {
            Err(ThrustAppError::MathOverflow)
        } else if (amount - fee) + pool.real_quote_reserves > pool.graduation_threshold {
            let input = (pool.graduation_threshold - pool.real_quote_reserves) as u64;
            match fee_result(rate, input) {
                Err(e) => Err(e),
                Ok(clamped_fee) => Ok((input, clamped_fee)),
            }
        } else {
            Ok(((amount - fee) as u64, fee))
        },
    }
}

/// The part of `fee` paid to the referrer named by a trade of `user`.
pub open spec fn referral_reward(user: UserState, referrer: Address, main: MainState, fee: u64) -> int {
    if user.earns_referral(referrer, main.referral_trade_limit) {
        trading_fee(main.referral_reward_fee as int, fee as int)
    } else {
        0
    }
}

/// The buy of `amount` quote by `buyer`, who held `buyer_balance` tokens,
/// naming `referrer`, at `now`: the pool and trader records after it and its
/// receipt, or the error.
///
/// It fails with `Uninitialized`, `TradeWindowNotOpen` (before the trade
/// start) and `BondingCurveComplete`, in that order; then with the waiting
/// room's errors, and with `MathOverflow` where an amount leaves its range or
/// the referral reward would exceed the fee. The pool graduates when its real
/// quote reserve reaches the threshold.
pub open spec fn buy_result(
    main: MainState,
    pool: PoolState,
    user: UserState,
    buyer: Address,
    referrer: Address,
    amount: u64,
    buyer_balance: u64,
    now: u64,
) -> Result<(PoolState, UserState, BuyReceipt), ThrustAppError> {
    if !main.initialized {
        Err(ThrustAppError::Uninitialized)
    } else if now < pool.start_trade_timestamp {
        Err(ThrustAppError::TradeWindowNotOpen)
    } else if pool.complete {
        Err(ThrustAppError::BondingCurveComplete)
    } else {
        match buy_split(main.trading_fee, pool, amount) {
            Err(e) => Err(e),
            Ok((input, fee)) => match pool.curve_buy(input) {
                None => Err(ThrustAppError::MathOverflow),
                Some((priced, base_out)) => match room_after_buy(
                    pool.waiting_room_state,
                    user.trade_count,
                    buyer_balance,
                    base_out,
                    input,
                    main.total_token_supply,
                    now,
                ) {
                    Err(e) => Err(e),
                    Ok(room) => {
                        let reward = referral_reward(user, referrer, main, fee);
                        if reward > fee {
                            Err(ThrustAppError::MathOverflow)
                        } else {
                            match user.after_trade(
                                input,
                                main.sol_price,
                                referrer,
                                main.referral_trade_limit,
                            ) {
                                None => Err(ThrustAppError::MathOverflow),
                                Some(new_user) => if priced.total_base() > u64::MAX
                                    || priced.total_quote() > u64::MAX {
                                    Err(ThrustAppError::MathOverflow)
                                } else {
                                    let graduated = priced.real_quote_reserves
                                        >= priced.graduation_threshold;
                                    Ok(
                                        (
                                            PoolState {
                                                complete: graduated,
                                                waiting_room_state: room,
                                                ..priced
                                            },
                                            new_user,
                                            BuyReceipt {
                                                fee,
                                                referral_reward: reward as u64,
                                                input_amount: input,
                                                output_amount: base_out,
                                                graduation_fee: if graduated {
                                                    main.graduation_fee
                                                } else {
                                                    0
                                                },
                                                trade_event: TradeEvent {
                                                    user: buyer,
                                                    mint: pool.mint,
                                                    sol_amount: amount,
                                                    token_amount: base_out,
                                                    base_reserves: priced.total_base() as u64,
                                                    quote_reserves: priced.total_quote() as u64,
                                                    is_buy: true,
                                                    timestamp: now,
                                                },
                                                complete_event: if graduated {
                                                    Some(
                                                        CompleteEvent {
                                                            user: buyer,
                                                            mint: pool.mint,
                                                            timestamp: now,
                                                        },
                                                    )
                                                } else {
                                                    None
                                                },
                                            },
                                        ),
                                    )
                                },
                            }
                        }
                    },
                },
            },
        }
    }
}

/// Splits a buy of `amount` into the quote applied to the pool and its fee;
/// see `buy_split`.
fn split_buy_amount(rate: u64, pool: &PoolState, amount: u64) -> (r: Result<(u64, u64), ThrustAppError>)
    ensures
        r == buy_split(rate, *pool, amount),
{
    let fee = match calculate_trading_fee(rate, amount) {
        Ok(f) => f,
        Err(e) => {
            return Err(e);
        },
    };
    if fee > amount || pool.real_quote_reserves > pool.graduation_threshold {
        return Err(ThrustAppError::MathOverflow);
    }
    let input_amount = amount - fee;
    if input_amount as u128 + pool.real_quote_reserves as u128 > pool.graduation_threshold as u128 {
        let clamped = pool.graduation_threshold - pool.real_quote_reserves;
        match calculate_trading_fee(rate, clamped) {
            Ok(clamped_fee) => Ok((clamped, clamped_fee)),
            Err(e) => Err(e),
        }
    } else {
        Ok((input_amount, fee))
    }
}

/// The part of `fee` paid to `referrer`; see `referral_reward`.
pub(crate) fn compute_referral_reward(
    main_state: &MainState,
    user_state: &UserState,
    referrer: &Address,
    fee: u64,
) -> (r: Result<u64, ThrustAppError>)
    ensures
        referral_reward(*user_state, *referrer, *main_state, fee) > fee ==> r == Err::<
            u64,
            ThrustAppError,
        >(ThrustAppError::MathOverflow),
        referral_reward(*user_state, *referrer, *main_state, fee) <= fee ==> r == Ok::<
            u64,
            ThrustAppError,
        >(referral_reward(*user_state, *referrer, *main_state, fee) as u64),
{
    if !user_state.is_referral_rewarded(referrer, main_state.referral_trade_limit) {
        return Ok(0);
    }
    match calculate_trading_fee(main_state.referral_reward_fee, fee) {
        Ok(reward) => if reward > fee {
            Err(ThrustAppError::MathOverflow)
        } else {
            Ok(reward)
        },
        Err(e) => Err(e),
    }
}

/// Buys tokens from the pool with `amount` of quote, for `buyer`, who held
/// `buyer_balance` tokens, naming `referrer`, at `current_timestamp`.
/// The records change, and the receipt comes back, exactly as `buy_result`
/// says; on failure nothing changes.
pub fn buy(
    main_state: &MainState,
    pool_state: &mut PoolState,
    user_state: &mut UserState,
    buyer: &Address,
    referrer: &Address,
    amount: u64,
    buyer_balance: u64,
    current_timestamp: u64,
) -> (r: Result<BuyReceipt, ThrustAppError>)
    ensures
        follows(
            buy_result(
                *main_state,
                *old(pool_state),
                *old(user_state),
                *buyer,
                *referrer,
                amount,
                buyer_balance,
                current_timestamp,
            ),
            r,
            *old(pool_state),
            *final(pool_state),
            *old(user_state),
            *final(user_state),
        ),
{
    if !main_state.initialized {
        return Err(ThrustAppError::Uninitialized);
    }
    if current_timestamp < pool_state.start_trade_timestamp {
        return Err(ThrustAppError::TradeWindowNotOpen);
    }
    if pool_state.complete {
        return Err(ThrustAppError::BondingCurveComplete);
    }
    let (input_amount, fee) = match split_buy_amount(main_state.trading_fee, pool_state, amount) {
        Ok(split) => split,
        Err(e) => {
            return Err(e);
        },
    };
    let mut priced = *pool_state;
    let output_amount = match priced.compute_receivable_amount_on_buy(input_amount) {
        Ok(out) => out,
        Err(e) => {
            return Err(e);
        },
    };
    let room = match admit_buy(
        &pool_state.waiting_room_state,
        user_state.trade_count,
        buyer_balance,
        output_amount,
        input_amount,
        main_state.total_token_supply,
        current_timestamp,
    ) {
        Ok(room) => room,
        Err(e) => {
            return Err(e);
        },
    };
    let referral_reward = match compute_referral_reward(main_state, user_state, referrer, fee) {
        Ok(reward) => reward,
        Err(e) => {
            return Err(e);
        },
    };
    let new_user = match user_state.record_trade(
        input_amount,
        main_state.sol_price,
        referrer,
        main_state.referral_trade_limit,
    ) {
        Some(u) => u,
        None => {
            return Err(ThrustAppError::MathOverflow);
        },
    };
    let base_reserves = match priced.real_base_reserves.checked_add(priced.virt_base_reserves) {
        Some(v) => v,
        None => {
            return Err(ThrustAppError::MathOverflow);
        },
    };
    let quote_reserves = match priced.virt_quote_reserves.checked_add(priced.real_quote_reserves) {
        Some(v) => v,
        None => {
            return Err(ThrustAppError::MathOverflow);
        },
    };
    let graduated = priced.real_quote_reserves >= priced.graduation_threshold;
    priced.complete = graduated;
    priced.waiting_room_state = room;
    let trade_event = TradeEvent {
        user: *buyer,
        mint: pool_state.mint,
        sol_amount: amount,
        token_amount: output_amount,
        base_reserves,
        quote_reserves,
        is_buy: true,
        timestamp: current_timestamp,
    };
    let complete_event = if graduated {
        Some(CompleteEvent { user: *buyer, mint: pool_state.mint, timestamp: current_timestamp })
    } else {
        None
    };
    let graduation_fee = if graduated {
        main_state.graduation_fee
    } else {
        0
    };
    *pool_state = priced;
    *user_state = new_user;
    Ok(
        BuyReceipt {
            fee,
            referral_reward,
            input_amount,
            output_amount,
            graduation_fee,
            trade_event,
            complete_event,
        },
    )
}

} // verus!
