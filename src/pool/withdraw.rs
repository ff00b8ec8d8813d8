use vstd::prelude::*;

use crate::address::Address;
use crate::error::ThrustAppError;
use crate::main_state::MainState;
use crate::pool::state::PoolState;

verus! {

/// The owner's withdrawal from a graduated pool: the pool after it and the
/// tokens to hand over (all of its base reserves, real and virtual), or the
/// error. It fails with `Unauthorised` unless `caller` owns the platform,
/// then `Uninitialized`, `BondingCurveIncomplete` before graduation and
/// `AlreadyWithdrawn` the second time.
pub open spec fn withdraw_result(main: MainState, pool: PoolState, caller: Address) -> Result<(PoolState, u64), ThrustAppError> {
    if caller != main.owner {
        Err(ThrustAppError::Unauthorised)
    } else if !main.initialized {
        Err(ThrustAppError::Uninitialized)
    } else if !pool.complete {
        Err(ThrustAppError::BondingCurveIncomplete)
    } else if pool.withdrawn {
        Err(ThrustAppError::AlreadyWithdrawn)
    } else if pool.total_base() > u64::MAX {
        Err(ThrustAppError::MathOverflow)
    } else {
        Ok((PoolState { withdrawn: true, ..pool }, pool.total_base() as u64))
    }
}

/// Marks a graduated pool withdrawn and returns the tokens to transfer to
/// the owner; the caller also drains the pool's native balance to the owner.
/// On failure nothing changes.
pub fn withdraw(main_state: &MainState, pool_state: &mut PoolState, caller: &Address) -> (r: Result<
    u64,
    ThrustAppError,
>)
    ensures
        match withdraw_result(*main_state, *old(pool_state), *caller) {
            Ok((pool, tokens)) => r == Ok::<u64, ThrustAppError>(tokens) && *final(pool_state)
                == pool,
            Err(e) => r == Err::<u64, ThrustAppError>(e) && *final(pool_state) == *old(pool_state),
        },
{
    if !caller.equals(&main_state.owner) {
        return Err(ThrustAppError::Unauthorised);
    }
    if !main_state.initialized {
        return Err(ThrustAppError::Uninitialized);
    }
    if !pool_state.complete {
        return Err(ThrustAppError::BondingCurveIncomplete);
    }
    if pool_state.withdrawn {
        return Err(ThrustAppError::AlreadyWithdrawn);
    }
    let tokens = match pool_state.virt_base_reserves.checked_add(pool_state.real_base_reserves) {
        Some(v) => v,
        None => {
            return Err(ThrustAppError::MathOverflow);
        },
    };
    pool_state.withdrawn = true;
    Ok(tokens)
}

} // verus!
