use vstd::prelude::*;

use crate::address::Address;
use crate::error::ThrustAppError;
use crate::pool::state::PoolState;
use crate::user::UserState;

verus! {

/// Record of a pool's creation.
#[derive(Clone, Copy, Debug, PartialEq, Eq)]
pub struct CreateEvent {
    pub creator: Address,
    pub mint: Address,
    pub base_reserves: u64,
    pub quote_reserves: u64,
    pub timestamp: u64,
}

/// Record of a trade, with the pool's total reserves after it.
#[derive(Clone, Copy, Debug, PartialEq, Eq)]
pub struct TradeEvent {
    pub user: Address,
    pub mint: Address,
    pub sol_amount: u64,
    pub token_amount: u64,
    pub base_reserves: u64,
    pub quote_reserves: u64,
    pub is_buy: bool,
    pub timestamp: u64,
}

/// Record of a pool's graduation.
#[derive(Clone, Copy, Debug, PartialEq, Eq)]
pub struct CompleteEvent {
    pub user: Address,
    pub mint: Address,
    pub timestamp: u64,
}

/// How a trade's outcome `r`, and the pool and trader records after it,
/// follow from the `expected` transition: on success the new records and the
/// receipt, on failure the error with both records unchanged.
pub open spec fn follows<R>(
    expected: Result<(PoolState, UserState, R), ThrustAppError>,
    r: Result<R, ThrustAppError>,
    pool_before: PoolState,
    pool_after: PoolState,
    user_before: UserState,
    user_after: UserState,
) -> bool {
    match expected {
        Ok((pool, user, receipt)) => {
            &&& r == Ok::<R, ThrustAppError>(receipt)
            &&& pool_after == pool
            &&& user_after == user
        },
        Err(e) => {
            &&& r == Err::<R, ThrustAppError>(e)
            &&& pool_after == pool_before
            &&& user_after == user_before
        },
    }
}

} // verus!
