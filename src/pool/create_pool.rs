use vstd::prelude::*;

use crate::address::Address;
use crate::error::ThrustAppError;
use crate::main_state::MainState;
use crate::pool::event::CreateEvent;
use crate::pool::state::{
    PoolState, TaxType, WaitingRoomConfig, WaitingRoomState,
};
use crate::user::UserState;

verus! {

/// A new token and its pool: the token's metadata, when trading opens, the
/// sell-tax policy and an optional waiting room.
#[derive(Clone, Debug)]
pub struct CreatePoolInput {
    pub mint_name: String,
    pub mint_symbol: String,
    pub mint_uri: String,
    pub trade_start_time: u64,
    pub tax_type: TaxType,
    pub waiting_room: Option<WaitingRoomConfig>,
}

/// A created pool, the tokens to mint into its reserve, and its record.
#[derive(Clone, Copy, Debug, PartialEq, Eq)]
pub struct PoolCreation {
    pub pool: PoolState,
    pub mint_amount: u64,
    pub event: CreateEvent,
}

/// The waiting room that a configuration opens: no participants, no volume,
/// not closed.
pub open spec fn opened_room(config: Option<WaitingRoomConfig>) -> WaitingRoomState {
    match config {
        None => WaitingRoomState::Disabled,
        Some(c) => WaitingRoomState::Enabled {
            min_trades: c.min_trades,
            max_participants: c.max_participants,
            wallet_limit_percent: c.wallet_limit_percent,
            closure_condition: c.closure_condition,
            participants: 0,
            total_buy_volume: 0,
            closed: false,
        },
    }
}

/// The pool that `creator` creates for `mint` at `now`: the configured real
/// base reserve, the rest of the supply as virtual base, the configured
/// virtual quote and no real quote.
pub open spec fn created_pool(
    main: MainState,
    creator: Address,
    mint: Address,
    trade_start_time: u64,
    tax_type: TaxType,
    waiting_room: Option<WaitingRoomConfig>,
    now: u64,
) -> PoolState {
    PoolState {
        owner: creator,
        konst: (main.init_real_base_reserves * main.init_virt_quote_reserves) as u128,
        mint,
        start_trade_timestamp: trade_start_time,
        virt_base_reserves: (main.total_token_supply - main.init_real_base_reserves) as u64,
        real_base_reserves: main.init_real_base_reserves,
        virt_quote_reserves: main.init_virt_quote_reserves,
        real_quote_reserves: 0,
        graduation_threshold: main.graduation_threshold,
        complete: false,
        withdrawn: false,
        tax_type,
        tax_start_timestamp: now,
        waiting_room_state: opened_room(waiting_room),
    }
}

/// The creator's referrer after creating a pool: the one named, where none
/// was bound.
pub open spec fn creator_after(user: UserState, referrer: Option<Address>) -> UserState {
    match referrer {
        Some(r) => if user.referrer.is_zero() {
            UserState { referrer: r, ..user }
        } else {
            user
        },
        None => user,
    }
}

/// Creates the pool of `mint` for `creator` at `current_timestamp`, binding
/// `referrer` to the creator where none is bound. Fails with `Uninitialized`
/// before the platform is initialised, and with `MathOverflow` where the
/// configured real base reserve exceeds the supply; on failure nothing
/// changes. The caller mints `mint_amount`, the whole supply, into the
/// pool's reserve.
pub fn create_pool(
    main_state: &MainState,
    user_state: &mut UserState,
    creator: &Address,
    mint: &Address,
    referrer: Option<Address>,
    input: &CreatePoolInput,
    current_timestamp: u64,
) -> (r: Result<PoolCreation, ThrustAppError>)
    ensures
        !main_state.initialized ==> r == Err::<PoolCreation, ThrustAppError>(
            ThrustAppError::Uninitialized,
        ) && *final(user_state) == *old(user_state),
        main_state.initialized && main_state.init_real_base_reserves
            > main_state.total_token_supply ==> r == Err::<PoolCreation, ThrustAppError>(
            ThrustAppError::MathOverflow,
        ) && *final(user_state) == *old(user_state),
        main_state.initialized && main_state.init_real_base_reserves
            <= main_state.total_token_supply ==> {
            &&& r is Ok
            &&& r->Ok_0.pool == created_pool(
                *main_state,
                *creator,
                *mint,
                input.trade_start_time,
                input.tax_type,
                input.waiting_room,
                current_timestamp,
            )
            &&& r->Ok_0.mint_amount == main_state.total_token_supply
            &&& r->Ok_0.event == (CreateEvent {
                creator: *creator,
                mint: *mint,
                base_reserves: main_state.total_token_supply,
                quote_reserves: main_state.init_virt_quote_reserves,
                timestamp: current_timestamp,
            })
            &&& *final(user_state) == creator_after(*old(user_state), referrer)
        },
{
    if !main_state.initialized {
        return Err(ThrustAppError::Uninitialized);
    }
    if main_state.init_real_base_reserves > main_state.total_token_supply {
        return Err(ThrustAppError::MathOverflow);
    }
    if user_state.referrer.is_default() {
        if let Some(r) = referrer {
            user_state.referrer = r;
        }
    }
    let waiting_room_state = match &input.waiting_room {
        None => WaitingRoomState::Disabled,
        Some(c) => WaitingRoomState::Enabled {
            min_trades: c.min_trades,
            max_participants: c.max_participants,
            wallet_limit_percent: c.wallet_limit_percent,
            closure_condition: c.closure_condition,
            participants: 0,
            total_buy_volume: 0,
            closed: false,
        },
    };
    proof {
        assert((main_state.init_real_base_reserves as int) * (
        main_state.init_virt_quote_reserves as int) <= u128::MAX) by (nonlinear_arith)
            requires
                main_state.init_real_base_reserves <= u64::MAX,
                main_state.init_virt_quote_reserves <= u64::MAX,
        ;
    }
    let pool = PoolState {
        owner: *creator,
        konst: (main_state.init_real_base_reserves as u128) * (
        main_state.init_virt_quote_reserves as u128),
        mint: *mint,
        start_trade_timestamp: input.trade_start_time,
        virt_base_reserves: main_state.total_token_supply - main_state.init_real_base_reserves,
        real_base_reserves: main_state.init_real_base_reserves,
        virt_quote_reserves: main_state.init_virt_quote_reserves,
        real_quote_reserves: 0,
        graduation_threshold: main_state.graduation_threshold,
        complete: false,
        withdrawn: false,
        tax_type: input.tax_type,
        tax_start_timestamp: current_timestamp,
        waiting_room_state,
    };
    let event = CreateEvent {
        creator: *creator,
        mint: *mint,
        base_reserves: main_state.total_token_supply,
        quote_reserves: main_state.init_virt_quote_reserves,
        timestamp: current_timestamp,
    };
    Ok(PoolCreation { pool, mint_amount: main_state.total_token_supply, event })
}

} // verus!
