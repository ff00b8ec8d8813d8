use vstd::prelude::*;

use crate::error::ThrustAppError;
use crate::pool::state::{ClosureCondition, WaitingRoomState};

verus! {

/// Whether a waiting room's closure condition holds at `now`.
pub open spec fn closure_reached(
    condition: ClosureCondition,
    participants: u32,
    total_buy_volume: u64,
    now: u64,
) -> bool {
    match condition {
        ClosureCondition::TimeBased(t) => now as int >= t as int,
        ClosureCondition::ParticipantCount(n) => participants >= n,
        ClosureCondition::BuyVolume(v) => total_buy_volume >= v,
    }
}

/// The waiting room after admitting a buy of `base_out` tokens for
/// `quote_in`, by a trader with `trade_count` trades who held
/// `buyer_balance` tokens before it.
///
/// A disabled room admits everyone. An enabled room that is closed, or whose
/// closure condition holds now, admits everyone and is marked closed. An open
/// room asks, in this order, for at least `min_trades` trades
/// (`InsufficientTrades`); for room for a newcomer, a trader holding no
/// tokens, while the participants number `max_participants`
/// (`WaitingRoomFull`); and for a holding after the buy of at most
/// `wallet_limit_percent` percent of `total_supply` (`WalletLimitExceeded`).
/// It then counts the newcomer and adds `quote_in` to its volume.
pub open spec fn room_after_buy(
    room: WaitingRoomState,
    trade_count: u64,
    buyer_balance: u64,
    base_out: u64,
    quote_in: u64,
    total_supply: u64,
    now: u64,
) -> Result<WaitingRoomState, ThrustAppError> {
    match room {
        WaitingRoomState::Disabled => Ok(room),
        WaitingRoomState::Enabled {
            min_trades,
            max_participants,
            wallet_limit_percent,
            closure_condition,
            participants,
            total_buy_volume,
            closed,
        } => {
            if closed || closure_reached(closure_condition, participants, total_buy_volume, now) {
                Ok(
                    WaitingRoomState::Enabled {
                        min_trades,
                        max_participants,
                        wallet_limit_percent,
                        closure_condition,
                        participants,
                        total_buy_volume,
                        closed: true,
                    },
                )
            } else if trade_count < min_trades {
                Err(ThrustAppError::InsufficientTrades)
            } else if buyer_balance == 0 && participants >= max_participants {
                Err(ThrustAppError::WaitingRoomFull)
            } else if buyer_balance + base_out > total_supply * wallet_limit_percent / 100 {
                Err(ThrustAppError::WalletLimitExceeded)
            } else if total_buy_volume + quote_in > u64::MAX {
                Err(ThrustAppError::MathOverflow)
            } else {
                Ok(
                    WaitingRoomState::Enabled {
                        min_trades,
                        max_participants,
                        wallet_limit_percent,
                        closure_condition,
                        participants: if buyer_balance == 0 {
                            (participants + 1) as u32
                        } else {
                            participants
                        },
                        total_buy_volume: (total_buy_volume + quote_in) as u64,
                        closed: false,
                    },
                )
            }
        },
    }
}

/// Applies the waiting room's rules to a buy; see `room_after_buy`.
pub fn admit_buy(
    room: &WaitingRoomState,
    trade_count: u64,
    buyer_balance: u64,
    base_out: u64,
    quote_in: u64,
    total_supply: u64,
    now: u64,
) -> (r: Result<WaitingRoomState, ThrustAppError>)
    ensures
        r == room_after_buy(*room, trade_count, buyer_balance, base_out, quote_in, total_supply, now),
{
    match room {
        WaitingRoomState::Disabled => Ok(WaitingRoomState::Disabled),
        WaitingRoomState::Enabled {
            min_trades,
            max_participants,
            wallet_limit_percent,
            closure_condition,
            participants,
            total_buy_volume,
            closed,
        } => {
            let reached = match closure_condition {
                ClosureCondition::TimeBased(t) => *t < 0 || now >= *t as u64,
                ClosureCondition::ParticipantCount(n) => *participants >= *n,
                ClosureCondition::BuyVolume(v) => *total_buy_volume >= *v,
            };
            if *closed || reached {
                return Ok(
                    WaitingRoomState::Enabled {
                        min_trades: *min_trades,
                        max_participants: *max_participants,
                        wallet_limit_percent: *wallet_limit_percent,
                        closure_condition: *closure_condition,
                        participants: *participants,
                        total_buy_volume: *total_buy_volume,
                        closed: true,
                    },
                );
            }
            if trade_count < *min_trades as u64 {
                return Err(ThrustAppError::InsufficientTrades);
            }
            if buyer_balance == 0 && *participants >= *max_participants {
                return Err(ThrustAppError::WaitingRoomFull);
            }
            proof {
                assert((total_supply as int) * (*wallet_limit_percent as int) <= u128::MAX)
                    by (nonlinear_arith)
                    requires
                        total_supply <= u64::MAX,
                        *wallet_limit_percent <= u8::MAX,
                ;
            }
            let limit = (total_supply as u128) * (*wallet_limit_percent as u128) / 100;
            if buyer_balance as u128 + base_out as u128 > limit {
                return Err(ThrustAppError::WalletLimitExceeded);
            }
            let volume = match total_buy_volume.checked_add(quote_in) {
                Some(v) => v,
                None => {
                    return Err(ThrustAppError::MathOverflow);
                },
            };
            let participants = if buyer_balance == 0 {
                *participants + 1
            } else {
                *participants
            };
            Ok(
                WaitingRoomState::Enabled {
                    min_trades: *min_trades,
                    max_participants: *max_participants,
                    wallet_limit_percent: *wallet_limit_percent,
                    closure_condition: *closure_condition,
                    participants,
                    total_buy_volume: volume,
                    closed: false,
                },
            )
        },
    }
}

} // verus!
