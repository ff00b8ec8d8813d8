use vstd::prelude::*;

use crate::address::Address;
use crate::constants::{
    DEFAULT_REFERRAL_REWARD_FEE, DEFAULT_REFERRAL_TRADE_LIMIT, DEFAULT_TRADING_FEE, GRADUATE_FEE,
    REAL_SOL_THRESHOLD, TOTAL_SUPPLY, VIRT_SOL_RESERVE,
};
use crate::error::ThrustAppError;

verus! {

/// The platform configuration: one instance, created once, administered by
/// its owner.
#[derive(Clone, Copy, Debug, PartialEq, Eq)]
pub struct MainState {
    pub initialized: bool,
    pub owner: Address,
    pub fee_recipient: Address,
    pub total_token_supply: u64,
    pub init_virt_base_reserves: u64,
    pub init_real_base_reserves: u64,
    pub init_virt_quote_reserves: u64,
    /// Trading fee rate, over `FEE_DIVISOR`.
    pub trading_fee: u64,
    /// Share of a trading fee paid to the referrer, over `FEE_DIVISOR`.
    pub referral_reward_fee: u64,
    pub referral_trade_limit: u64,
    /// Reference units per whole unit of the native currency; used for
    /// volume statistics only.
    pub sol_price: u64,
    /// Key whose attestations of receipt times the sell tax trusts.
    pub verify_signer_pubkey: Address,
    /// Real quote reserve at which new pools graduate.
    pub graduation_threshold: u64,
    /// Native currency paid from a pool to the fee recipient at graduation.
    pub graduation_fee: u64,
}

/// The owner's changes to the configuration. The supply and seeding fields
/// are kept as they are where left out.
#[derive(Clone, Copy, Debug, PartialEq, Eq)]
pub struct UpdateMainStateInput {
    pub owner: Address,
    pub fee_recipient: Address,
    pub trading_fee: u64,
    /// Carried for the caller's records; the price is set by `update_sol_price`.
    pub sol_price: u64,
    pub referral_reward_fee: u64,
    pub referral_trade_limit: u64,
    pub total_token_supply: Option<u64>,
    pub init_virt_base_reserves: Option<u64>,
    pub init_real_base_reserves: Option<u64>,
    pub init_virt_quote_reserves: Option<u64>,
}

pub open spec fn or_keep(v: Option<u64>, old: u64) -> u64 {
    match v {
        Some(x) => x,
        None => old,
    }
}

impl MainState {
    /// The configuration that `init_main_state` makes of `self`: 80% of the
    /// default supply as real base, the rest virtual, the default fees, and
    /// `owner` as both owner and fee recipient.
    pub open spec fn initialized_by(self, owner: Address, signer: Address) -> MainState {
        MainState {
            initialized: true,
            owner,
            fee_recipient: owner,
            total_token_supply: TOTAL_SUPPLY,
            init_real_base_reserves: (TOTAL_SUPPLY * 8 / 10) as u64,
            init_virt_base_reserves: (TOTAL_SUPPLY - TOTAL_SUPPLY * 8 / 10) as u64,
            init_virt_quote_reserves: VIRT_SOL_RESERVE,
            trading_fee: DEFAULT_TRADING_FEE,
            referral_reward_fee: DEFAULT_REFERRAL_REWARD_FEE,
            referral_trade_limit: DEFAULT_REFERRAL_TRADE_LIMIT,
            verify_signer_pubkey: signer,
            graduation_threshold: REAL_SOL_THRESHOLD,
            graduation_fee: GRADUATE_FEE,
            ..self
        }
    }

    /// The configuration after the owner's update `input`.
    pub open spec fn updated_by(self, input: UpdateMainStateInput, signer: Address) -> MainState {
        MainState {
            owner: input.owner,
            fee_recipient: input.fee_recipient,
            trading_fee: input.trading_fee,
            referral_reward_fee: input.referral_reward_fee,
            referral_trade_limit: input.referral_trade_limit,
            total_token_supply: or_keep(input.total_token_supply, self.total_token_supply),
            init_virt_base_reserves: or_keep(
                input.init_virt_base_reserves,
                self.init_virt_base_reserves,
            ),
            init_real_base_reserves: or_keep(
                input.init_real_base_reserves,
                self.init_real_base_reserves,
            ),
            init_virt_quote_reserves: or_keep(
                input.init_virt_quote_reserves,
                self.init_virt_quote_reserves,
            ),
            verify_signer_pubkey: signer,
            ..self
        }
    }

    /// A configuration that has not been initialised: every field zero.
    pub fn uninitialized() -> (r: MainState)
        ensures
            !r.initialized,
            r.owner.is_zero(),
            r.fee_recipient.is_zero(),
            r.verify_signer_pubkey.is_zero(),
            r.total_token_supply == 0 && r.init_virt_base_reserves == 0
                && r.init_real_base_reserves == 0 && r.init_virt_quote_reserves == 0,
            r.trading_fee == 0 && r.referral_reward_fee == 0 && r.referral_trade_limit == 0,
            r.sol_price == 0 && r.graduation_threshold == 0 && r.graduation_fee == 0,
    {
        MainState {
            initialized: false,
            owner: Address::zero(),
            fee_recipient: Address::zero(),
            total_token_supply: 0,
            init_virt_base_reserves: 0,
            init_real_base_reserves: 0,
            init_virt_quote_reserves: 0,
            trading_fee: 0,
            referral_reward_fee: 0,
            referral_trade_limit: 0,
            sol_price: 0,
            verify_signer_pubkey: Address::zero(),
            graduation_threshold: 0,
            graduation_fee: 0,
        }
    }
}

/// Initialises the configuration with its defaults, `owner` as owner and fee
/// recipient and `verify_signer_pubkey` as attestation signer. Fails with
/// `AlreadyInitialized`, changing nothing, on a second call.
pub fn init_main_state(state: &mut MainState, owner: &Address, verify_signer_pubkey: &Address) -> (r:
    Result<(), ThrustAppError>)
    ensures
        old(state).initialized ==> r == Err::<(), ThrustAppError>(
            ThrustAppError::AlreadyInitialized,
        ) && *final(state) == *old(state),
        !old(state).initialized ==> r is Ok && *final(state) == old(state).initialized_by(
            *owner,
            *verify_signer_pubkey,
        ),
{
    if state.initialized {
        return Err(ThrustAppError::AlreadyInitialized);
    }
    state.initialized = true;
    state.owner = *owner;
    state.fee_recipient = *owner;
    state.total_token_supply = TOTAL_SUPPLY;
    state.init_real_base_reserves = state.total_token_supply / 10 * 8;
    state.init_virt_base_reserves = state.total_token_supply - state.init_real_base_reserves;
    state.init_virt_quote_reserves = VIRT_SOL_RESERVE;
    state.trading_fee = DEFAULT_TRADING_FEE;
    state.referral_reward_fee = DEFAULT_REFERRAL_REWARD_FEE;
    state.referral_trade_limit = DEFAULT_REFERRAL_TRADE_LIMIT;
    state.verify_signer_pubkey = *verify_signer_pubkey;
    state.graduation_threshold = REAL_SOL_THRESHOLD;
    state.graduation_fee = GRADUATE_FEE;
    Ok(())
}

/// Fails with `Unauthorised` unless `caller` is the owner, then with
/// `Uninitialized` before initialisation.
pub open spec fn admin_error(state: MainState, caller: Address) -> Option<ThrustAppError> {
    if caller != state.owner {
        Some(ThrustAppError::Unauthorised)
    } else if !state.initialized {
        Some(ThrustAppError::Uninitialized)
    } else {
        None
    }
}

fn check_admin(state: &MainState, caller: &Address) -> (r: Result<(), ThrustAppError>)
    ensures
        match admin_error(*state, *caller) {
            Some(e) => r == Err::<(), ThrustAppError>(e),
            None => r is Ok,
        },
{
    if !caller.equals(&state.owner) {
        return Err(ThrustAppError::Unauthorised);
    }
    if !state.initialized {
        return Err(ThrustAppError::Uninitialized);
    }
    Ok(())
}

/// The owner's update of the configuration; `verify_signer_pubkey` becomes
/// the attestation signer. Fails, changing nothing, as `admin_error` says.
pub fn update_main_state(
    state: &mut MainState,
    caller: &Address,
    input: &UpdateMainStateInput,
    verify_signer_pubkey: &Address,
) -> (r: Result<(), ThrustAppError>)
    ensures
        match admin_error(*old(state), *caller) {
            Some(e) => r == Err::<(), ThrustAppError>(e) && *final(state) == *old(state),
            None => r is Ok && *final(state) == old(state).updated_by(
                *input,
                *verify_signer_pubkey,
            ),
        },
{
    check_admin(state, caller)?;
    state.owner = input.owner;
    state.fee_recipient = input.fee_recipient;
    state.trading_fee = input.trading_fee;
    state.referral_reward_fee = input.referral_reward_fee;
    state.referral_trade_limit = input.referral_trade_limit;
    state.total_token_supply = input.total_token_supply.unwrap_or(state.total_token_supply);
    state.init_virt_base_reserves = input.init_virt_base_reserves.unwrap_or(
        state.init_virt_base_reserves,
    );
    state.init_real_base_reserves = input.init_real_base_reserves.unwrap_or(
        state.init_real_base_reserves,
    );
    state.init_virt_quote_reserves = input.init_virt_quote_reserves.unwrap_or(
        state.init_virt_quote_reserves,
    );
    state.verify_signer_pubkey = *verify_signer_pubkey;
    Ok(())
}

/// The owner's update of the reference price. Fails, changing nothing, as
/// `admin_error` says.
pub fn update_sol_price(state: &mut MainState, caller: &Address, price: u64) -> (r: Result<
    (),
    ThrustAppError,
>)
    ensures
        match admin_error(*old(state), *caller) {
            Some(e) => r == Err::<(), ThrustAppError>(e) && *final(state) == *old(state),
            None => r is Ok && *final(state) == MainState { sol_price: price, ..*old(state) },
        },
{
    check_admin(state, caller)?;
    state.sol_price = price;
    Ok(())
}

} // verus!
