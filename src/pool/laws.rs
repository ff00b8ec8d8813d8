//! Properties of the pool operations that hold across all inputs.

use vstd::prelude::*;

use crate::address::Address;
use crate::error::ThrustAppError;
use crate::main_state::MainState;
use crate::pool::buy::{buy_result, buy_split};
use crate::pool::sell::sell_result;
use crate::pool::create_pool::created_pool;
use crate::pool::state::{output_amount, PoolState, TaxType, WaitingRoomConfig};
use crate::pool::withdraw::withdraw_result;
use crate::user::UserState;
use crate::utils::fee_result;

verus! {

/// A successful buy prices on the constant-product curve over the reserves
/// before it: the tokens out are the total base reserve times the input,
/// divided by the total quote reserve plus the input, rounded down. The real
/// base reserve falls by the tokens out, the real quote reserve rises by the
/// input, and it does not pass the graduation threshold.
pub proof fn lemma_buy_on_curve(
    main: MainState,
    pool: PoolState,
    user: UserState,
    buyer: Address,
    referrer: Address,
    amount: u64,
    buyer_balance: u64,
    now: u64,
)
    requires
        buy_result(main, pool, user, buyer, referrer, amount, buyer_balance, now) is Ok,
    ensures
        ({
            let (after, _, receipt) = buy_result(
                main,
                pool,
                user,
                buyer,
                referrer,
                amount,
                buyer_balance,
                now,
            )->Ok_0;
            &&& receipt.output_amount == output_amount(
                receipt.input_amount as int,
                pool.total_quote(),
                pool.total_base(),
            )
            &&& receipt.output_amount == pool.total_base() * receipt.input_amount / (
            pool.total_quote() + receipt.input_amount) || receipt.input_amount == 0
            &&& after.real_base_reserves == pool.real_base_reserves - receipt.output_amount
            &&& after.real_quote_reserves == pool.real_quote_reserves + receipt.input_amount
            &&& after.real_quote_reserves <= after.graduation_threshold
        }),
{
}

/// A buy whose input after the fee would carry the real quote reserve past
/// the threshold is cut to land exactly on it, charged the fee on the cut
/// input only, and graduates the pool in the same operation.
pub proof fn lemma_buy_clamps_and_graduates(
    main: MainState,
    pool: PoolState,
    user: UserState,
    buyer: Address,
    referrer: Address,
    amount: u64,
    buyer_balance: u64,
    now: u64,
)
    requires
        buy_result(main, pool, user, buyer, referrer, amount, buyer_balance, now) is Ok,
        fee_result(main.trading_fee, amount) is Ok,
        (amount - fee_result(main.trading_fee, amount)->Ok_0) + pool.real_quote_reserves
            > pool.graduation_threshold,
    ensures
        ({
            let (after, _, receipt) = buy_result(
                main,
                pool,
                user,
                buyer,
                referrer,
                amount,
                buyer_balance,
                now,
            )->Ok_0;
            &&& receipt.input_amount == pool.graduation_threshold - pool.real_quote_reserves
            &&& fee_result(main.trading_fee, receipt.input_amount) == Ok::<u64, ThrustAppError>(
                receipt.fee,
            )
            &&& after.real_quote_reserves == after.graduation_threshold
            &&& after.complete
            &&& receipt.complete_event is Some
        }),
{
}

/// A successful sale adds the tokens sold to the real base reserve and pays
/// out the symmetric curve's quote, which never exceeds the real quote
/// reserve, so that reserve never goes negative.
pub proof fn lemma_sell_on_curve(
    main: MainState,
    pool: PoolState,
    user: UserState,
    seller: Address,
    referrer: Address,
    amount: u64,
    seller_balance: u64,
    now: u64,
    last_received_time: u64,
)
    requires
        sell_result(
            main,
            pool,
            user,
            seller,
            referrer,
            amount,
            seller_balance,
            now,
            last_received_time,
        ) is Ok,
    ensures
        ({
            let (after, _, receipt) = sell_result(
                main,
                pool,
                user,
                seller,
                referrer,
                amount,
                seller_balance,
                now,
                last_received_time,
            )->Ok_0;
            &&& after.real_base_reserves == pool.real_base_reserves + amount
            &&& receipt.gross_output_amount == output_amount(
                amount as int,
                pool.total_base(),
                pool.total_quote(),
            )
            &&& receipt.gross_output_amount <= pool.real_quote_reserves
            &&& after.real_quote_reserves == pool.real_quote_reserves
                - receipt.gross_output_amount
            &&& receipt.output_amount == receipt.gross_output_amount - receipt.fee
        }),
{
}

/// A referral reward is carved from the fee and never exceeds it, on buys
/// and on sales; a trader's bound referrer never changes once set, whatever
/// referrer a later trade names, and a different one earns nothing.
pub proof fn lemma_referral_within_fee_and_bound_for_good(
    main: MainState,
    pool: PoolState,
    user: UserState,
    trader: Address,
    referrer: Address,
    amount: u64,
    balance: u64,
    now: u64,
    last_received_time: u64,
)
    ensures
        buy_result(main, pool, user, trader, referrer, amount, balance, now) matches Ok(
            (_, after, receipt),
        ) ==> {
            &&& receipt.referral_reward <= receipt.fee
            &&& !user.referrer.is_zero() ==> after.referrer == user.referrer
            &&& referrer != user.referrer && !user.referrer.is_zero() ==> receipt.referral_reward
                == 0
        },
        sell_result(
            main,
            pool,
            user,
            trader,
            referrer,
            amount,
            balance,
            now,
            last_received_time,
        ) matches Ok((_, after, receipt)) ==> {
            &&& receipt.referral_reward <= receipt.fee
            &&& !user.referrer.is_zero() ==> after.referrer == user.referrer
            &&& referrer != user.referrer && !user.referrer.is_zero() ==> receipt.referral_reward
                == 0
        },
{
}

/// Completion is final: a completed pool rejects every buy and sale, with
/// `BondingCurveComplete` once the platform is initialised and trading has
/// opened; and no successful operation leaves a completed pool incomplete.
pub proof fn lemma_completed_pool_rejects_trades(
    main: MainState,
    pool: PoolState,
    user: UserState,
    trader: Address,
    referrer: Address,
    amount: u64,
    balance: u64,
    now: u64,
    last_received_time: u64,
    caller: Address,
)
    requires
        pool.complete,
    ensures
        buy_result(main, pool, user, trader, referrer, amount, balance, now) is Err,
        sell_result(main, pool, user, trader, referrer, amount, balance, now, last_received_time)
            is Err,
        main.initialized && now >= pool.start_trade_timestamp ==> buy_result(
            main,
            pool,
            user,
            trader,
            referrer,
            amount,
            balance,
            now,
        ) == Err::<(PoolState, UserState, crate::pool::buy::BuyReceipt), ThrustAppError>(
            ThrustAppError::BondingCurveComplete,
        ),
        main.initialized && now > pool.start_trade_timestamp ==> sell_result(
            main,
            pool,
            user,
            trader,
            referrer,
            amount,
            balance,
            now,
            last_received_time,
        ) == Err::<(PoolState, UserState, crate::pool::sell::SellReceipt), ThrustAppError>(
            ThrustAppError::BondingCurveComplete,
        ),
        withdraw_result(main, pool, caller) matches Ok((after, _)) ==> after.complete,
{
}

/// Withdrawal needs graduation: while the pool is not complete, the owner's
/// withdrawal from an initialised platform fails with
/// `BondingCurveIncomplete`, and any withdrawal fails.
pub proof fn lemma_withdraw_needs_completion(main: MainState, pool: PoolState, caller: Address)
    requires
        !pool.complete,
    ensures
        withdraw_result(main, pool, caller) is Err,
        caller == main.owner && main.initialized ==> withdraw_result(main, pool, caller) == Err::<
            (PoolState, u64),
            ThrustAppError,
        >(ThrustAppError::BondingCurveIncomplete),
{
}

/// Withdrawal happens once: after a successful withdrawal, a second one for
/// the same pool fails with `AlreadyWithdrawn`.
pub proof fn lemma_withdraw_once(main: MainState, pool: PoolState, caller: Address)
    requires
        withdraw_result(main, pool, caller) is Ok,
    ensures
        withdraw_result(main, withdraw_result(main, pool, caller)->Ok_0.0, caller) == Err::<
            (PoolState, u64),
            ThrustAppError,
        >(ThrustAppError::AlreadyWithdrawn),
{
}

/// Every operation keeps a well-formed pool well-formed: the real quote
/// reserve stays within the threshold and only a completed pool is withdrawn.
/// A newly created pool is well-formed.
pub proof fn lemma_operations_keep_pool_wf(
    main: MainState,
    pool: PoolState,
    user: UserState,
    trader: Address,
    referrer: Address,
    amount: u64,
    balance: u64,
    now: u64,
    last_received_time: u64,
    caller: Address,
    tax_type: TaxType,
    waiting_room: Option<WaitingRoomConfig>,
)
    requires
        pool.wf(),
    ensures
        buy_result(main, pool, user, trader, referrer, amount, balance, now) matches Ok(
            (after, _, _),
        ) ==> after.wf(),
        sell_result(main, pool, user, trader, referrer, amount, balance, now, last_received_time)
            matches Ok((after, _, _)) ==> after.wf(),
        withdraw_result(main, pool, caller) matches Ok((after, _)) ==> after.wf(),
        created_pool(main, caller, trader, amount, tax_type, waiting_room, now).wf(),
{
}

} // verus!
