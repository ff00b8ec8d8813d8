use vstd::prelude::*;

use crate::address::Address;
use crate::attestation::{attested_time, verify_signed_message};
use crate::error::ThrustAppError;
use crate::main_state::MainState;
use crate::pool::buy::{compute_referral_reward, referral_reward};
use crate::pool::event::{follows, TradeEvent};
use crate::pool::state::PoolState;
use crate::user::UserState;
use crate::utils::{calculate_tax_rate, calculate_trading_fee, fee_result, tax_rate};

verus! {

/// A sale request: the tokens to sell, and an attestation of the time the
/// seller last received tokens with its 65-byte secp256k1 signature
/// (64 bytes and a recovery id).
#[derive(Clone, Debug)]
pub struct SellInput {
    pub amount: u64,
    pub signed_message: Vec<u8>,
    pub signature: [u8; 65],
}

/// What a sale asks the caller to transfer, and its record.
///
/// The seller pays `input_amount` tokens to the pool's reserve; the pool's
/// reserve pays `fee - referral_reward` to the fee recipient,
/// `referral_reward` to the referrer and `output_amount` to the seller.
#[derive(Clone, Copy, Debug, PartialEq, Eq)]
pub struct SellReceipt {
    pub fee: u64,
    pub referral_reward: u64,
    pub input_amount: u64,
    /// The quote that the curve gives before the fee.
    pub gross_output_amount: u64,
    pub output_amount: u64,
    pub trade_event: TradeEvent,
}

/// The fee rate of a sale at `now`: the pool's tax while it applies, else the
/// base trading fee.
pub open spec fn sell_fee_rate(
    main: MainState,
    pool: PoolState,
    now: u64,
    seller_balance: u64,
    last_received_time: u64,
) -> Result<u64, ThrustAppError> {
    if pool.tax_active(now) {
        tax_rate(
            pool.tax_type,
            main.total_token_supply,
            now,
            seller_balance,
            main.trading_fee,
            last_received_time,
        )
    } else {
        Ok(main.trading_fee)
    }
}

/// The sale of `amount` tokens by `seller`, who held `seller_balance` tokens
/// and last received tokens at `last_received_time`, naming `referrer`, at
/// `now`: the pool and trader records after it and its receipt, or the error.
///
/// It fails with `Uninitialized`, `TradeWindowNotOpen` (unless `now` is
/// strictly after the trade start) and `BondingCurveComplete`, in that
/// order; then with `MathOverflow` where an amount leaves its range, in
/// particular where the quote out exceeds the real quote reserve, the fee
/// exceeds the quote out, or the referral reward exceeds the fee. Volumes are
/// counted before the fee.
pub open spec fn sell_result(
    main: MainState,
    pool: PoolState,
    user: UserState,
    seller: Address,
    referrer: Address,
    amount: u64,
    seller_balance: u64,
    now: u64,
    last_received_time: u64,
) -> Result<(PoolState, UserState, SellReceipt), ThrustAppError> {
    if !main.initialized {
        Err(ThrustAppError::Uninitialized)
    } else if now <= pool.start_trade_timestamp {
        Err(ThrustAppError::TradeWindowNotOpen)
    } else if pool.complete {
        Err(ThrustAppError::BondingCurveComplete)
    } else {
        match pool.curve_sell(amount) {
            None => Err(ThrustAppError::MathOverflow),
            Some((priced, gross)) => match sell_fee_rate(
                main,
                pool,
                now,
                seller_balance,
                last_received_time,
            ) {
                Err(e) => Err(e),
                Ok(rate) => match fee_result(rate, gross) {
                    Err(e) => Err(e),
                    Ok(fee) => {
                        let reward = referral_reward(user, referrer, main, fee);
                        if fee > gross || reward > fee {
                            Err(ThrustAppError::MathOverflow)
                        } else {
                            match user.after_trade(
                                gross,
                                main.sol_price,
                                referrer,
                                main.referral_trade_limit,
                            ) {
                                None => Err(ThrustAppError::MathOverflow),
                                Some(new_user) => if priced.total_base() > u64::MAX
                                    || priced.total_quote() > u64::MAX {
                                    Err(ThrustAppError::MathOverflow)
                                } else {
                                    Ok(
                                        (
                                            priced,
                                            new_user,
                                            SellReceipt {
                                                fee,
                                                referral_reward: reward as u64,
                                                input_amount: amount,
                                                gross_output_amount: gross,
                                                output_amount: (gross - fee) as u64,
                                                trade_event: TradeEvent {
                                                    user: seller,
                                                    mint: pool.mint,
                                                    sol_amount: (gross - fee) as u64,
                                                    token_amount: amount,
                                                    base_reserves: priced.total_base() as u64,
                                                    quote_reserves: priced.total_quote() as u64,
                                                    is_buy: false,
                                                    timestamp: now,
                                                },
                                            },
                                        ),
                                    )
                                },
                            }
                        }
                    },
                },
            },
        }
    }
}

/// Sells `amount` tokens into the pool for `seller`, who held
/// `seller_balance` tokens and last received tokens at `last_received_time`
/// (as an attestation established), naming `referrer`, at
/// `current_timestamp`. The records change, and the receipt comes back,
/// exactly as `sell_result` says; on failure nothing changes.
pub fn sell_attested(
    main_state: &MainState,
    pool_state: &mut PoolState,
    user_state: &mut UserState,
    seller: &Address,
    referrer: &Address,
    amount: u64,
    seller_balance: u64,
    current_timestamp: u64,
    last_received_time: u64,
) -> (r: Result<SellReceipt, ThrustAppError>)
    ensures
        follows(
            sell_result(
                *main_state,
                *old(pool_state),
                *old(user_state),
                *seller,
                *referrer,
                amount,
                seller_balance,
                current_timestamp,
                last_received_time,
            ),
            r,
            *old(pool_state),
            *final(pool_state),
            *old(user_state),
            *final(user_state),
        ),
{
    if !main_state.initialized {
        return Err(ThrustAppError::Uninitialized);
    }
    if current_timestamp <= pool_state.start_trade_timestamp {
        return Err(ThrustAppError::TradeWindowNotOpen);
    }
    if pool_state.complete {
        return Err(ThrustAppError::BondingCurveComplete);
    }
    let mut priced = *pool_state;
    let gross_output_amount = match priced.compute_receivable_amount_on_sell(amount) {
        Ok(out) => out,
        Err(e) => {
            return Err(e);
        },
    };
    let fee_rate = if pool_state.is_tax_active(current_timestamp) {
        match calculate_tax_rate(
            &pool_state.tax_type,
            user_state,
            main_state.total_token_supply,
            gross_output_amount,
            current_timestamp,
            seller_balance,
            main_state.trading_fee,
            last_received_time,
        ) {
            Ok(rate) => rate,
            Err(e) => {
                return Err(e);
            },
        }
    } else {
        main_state.trading_fee
    };
    let fee = match calculate_trading_fee(fee_rate, gross_output_amount) {
        Ok(f) => f,
        Err(e) => {
            return Err(e);
        },
    };
    if fee > gross_output_amount {
        return Err(ThrustAppError::MathOverflow);
    }
    let output_amount = gross_output_amount - fee;
    let referral_reward = match compute_referral_reward(main_state, user_state, referrer, fee) {
        Ok(reward) => reward,
        Err(e) => {
            return Err(e);
        },
    };
    let new_user = match user_state.record_trade(
        gross_output_amount,
        main_state.sol_price,
        referrer,
        main_state.referral_trade_limit,
    ) {
        Some(u) => u,
        None => {
            return Err(ThrustAppError::MathOverflow);
        },
    };
    let base_reserves = match priced.real_base_reserves.checked_add(priced.virt_base_reserves) {
        Some(v) => v,
        None => {
            return Err(ThrustAppError::MathOverflow);
        },
    };
    let quote_reserves = match priced.virt_quote_reserves.checked_add(priced.real_quote_reserves) {
        Some(v) => v,
        None => {
            return Err(ThrustAppError::MathOverflow);
        },
    };
    let trade_event = TradeEvent {
        user: *seller,
        mint: pool_state.mint,
        sol_amount: output_amount,
        token_amount: amount,
        base_reserves,
        quote_reserves,
        is_buy: false,
        timestamp: current_timestamp,
    };
    *pool_state = priced;
    *user_state = new_user;
    Ok(
        SellReceipt {
            fee,
            referral_reward,
            input_amount: amount,
            gross_output_amount,
            output_amount,
            trade_event,
        },
    )
}

/// Verifies the sale's attestation against the configured signer, then sells
/// as `sell_attested` does with the attested time. A failed verification
/// fails the sale first, with its error, and changes nothing.
pub fn sell(
    main_state: &MainState,
    pool_state: &mut PoolState,
    user_state: &mut UserState,
    seller: &Address,
    referrer: &Address,
    input: &SellInput,
    seller_balance: u64,
    current_timestamp: u64,
) -> (r: Result<SellReceipt, ThrustAppError>)
    ensures
        match attested_time(
            input.signed_message@,
            input.signature@,
            main_state.verify_signer_pubkey,
        ) {
            Err(e) => {
                &&& r == Err::<SellReceipt, ThrustAppError>(e)
                &&& *final(pool_state) == *old(pool_state)
                &&& *final(user_state) == *old(user_state)
            },
            Ok(last_received_time) => follows(
                sell_result(
                    *main_state,
                    *old(pool_state),
                    *old(user_state),
                    *seller,
                    *referrer,
                    input.amount,
                    seller_balance,
                    current_timestamp,
                    last_received_time,
                ),
                r,
                *old(pool_state),
                *final(pool_state),
                *old(user_state),
                *final(user_state),
            ),
        },
{
    let last_received_time = match verify_signed_message(
        input.signed_message.as_slice(),
        &input.signature,
        &main_state.verify_signer_pubkey,
    ) {
        Ok(t) => t,
        Err(e) => {
            return Err(e);
        },
    };
    sell_attested(
        main_state,
        pool_state,
        user_state,
        seller,
        referrer,
        input.amount,
        seller_balance,
        current_timestamp,
        last_received_time,
    )
}

} // verus!
