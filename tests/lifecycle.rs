use thrust_app::address::Address;
use thrust_app::constants::{GRADUATE_FEE, REAL_SOL_THRESHOLD, TOTAL_SUPPLY, VIRT_SOL_RESERVE};
use thrust_app::error::ThrustAppError;
use thrust_app::main_state::{
    init_main_state, update_main_state, update_sol_price, MainState, UpdateMainStateInput,
};
use thrust_app::pool::buy::buy;
use thrust_app::pool::create_pool::{create_pool, CreatePoolInput};
use thrust_app::pool::sell::sell_attested;
use thrust_app::pool::state::{
    ClosureCondition, PoolState, TaxType, WaitingRoomConfig, WaitingRoomState,
};
use thrust_app::pool::withdraw::withdraw;
use thrust_app::user::UserState;

fn addr(b: u8) -> Address {
    Address::new([b; 32])
}

fn toy_config() -> MainState {
    MainState {
        initialized: true,
        owner: addr(1),
        fee_recipient: addr(1),
        total_token_supply: 10_000,
        init_virt_base_reserves: 1_000,
        init_real_base_reserves: 9_000,
        init_virt_quote_reserves: 24,
        trading_fee: 1_000,
        referral_reward_fee: 10_000,
        referral_trade_limit: 100,
        sol_price: 0,
        verify_signer_pubkey: addr(9),
        graduation_threshold: 100,
        graduation_fee: 5,
    }
}

fn input(start: u64, waiting_room: Option<WaitingRoomConfig>) -> CreatePoolInput {
    CreatePoolInput {
        mint_name: "Toy".to_string(),
        mint_symbol: "TOY".to_string(),
        mint_uri: "https://example.com/toy.json".to_string(),
        trade_start_time: start,
        tax_type: TaxType::Disabled,
        waiting_room,
    }
}

fn new_pool(m: &MainState, start: u64, waiting_room: Option<WaitingRoomConfig>) -> PoolState {
    let mut creator = UserState::new(addr(2));
    create_pool(m, &mut creator, &addr(2), &addr(3), None, &input(start, waiting_room), 0)
        .unwrap()
        .pool
}

fn graduated_pool(m: &MainState) -> PoolState {
    let mut pool = new_pool(m, 0, None);
    let mut user = UserState::new(addr(4));
    let r = buy(m, &mut pool, &mut user, &addr(4), &Address::zero(), 1_000, 0, 1).unwrap();
    assert!(r.complete_event.is_some());
    pool
}

#[test]
fn init_sets_defaults_once() {
    let mut m = MainState::uninitialized();
    assert_eq!(init_main_state(&mut m, &addr(1), &addr(9)), Ok(()));
    assert!(m.initialized);
    assert_eq!(m.owner, addr(1));
    assert_eq!(m.fee_recipient, addr(1));
    assert_eq!(m.total_token_supply, TOTAL_SUPPLY);
    assert_eq!(m.init_real_base_reserves, 800_000_000_000_000);
    assert_eq!(m.init_virt_base_reserves, 200_000_000_000_000);
    assert_eq!(m.init_virt_quote_reserves, VIRT_SOL_RESERVE);
    assert_eq!(m.trading_fee, 1_000);
    assert_eq!(m.referral_reward_fee, 10_000);
    assert_eq!(m.referral_trade_limit, 100);
    assert_eq!(m.verify_signer_pubkey, addr(9));
    assert_eq!(m.graduation_threshold, REAL_SOL_THRESHOLD);
    assert_eq!(m.graduation_fee, GRADUATE_FEE);
    let before = m;
    assert_eq!(init_main_state(&mut m, &addr(5), &addr(5)), Err(ThrustAppError::AlreadyInitialized));
    assert_eq!(m, before);
}

#[test]
fn update_by_owner_only() {
    let mut m = MainState::uninitialized();
    init_main_state(&mut m, &addr(1), &addr(9)).unwrap();
    let update = UpdateMainStateInput {
        owner: addr(6),
        fee_recipient: addr(7),
        trading_fee: 2_000,
        sol_price: 123,
        referral_reward_fee: 20_000,
        referral_trade_limit: 5,
        total_token_supply: None,
        init_virt_base_reserves: Some(1),
        init_real_base_reserves: None,
        init_virt_quote_reserves: Some(2),
    };
    let before = m;
    assert_eq!(update_main_state(&mut m, &addr(6), &update, &addr(8)), Err(ThrustAppError::Unauthorised));
    assert_eq!(m, before);
    assert_eq!(update_main_state(&mut m, &addr(1), &update, &addr(8)), Ok(()));
    assert_eq!(m.owner, addr(6));
    assert_eq!(m.fee_recipient, addr(7));
    assert_eq!(m.trading_fee, 2_000);
    assert_eq!(m.referral_reward_fee, 20_000);
    assert_eq!(m.referral_trade_limit, 5);
    assert_eq!(m.total_token_supply, TOTAL_SUPPLY);
    assert_eq!(m.init_virt_base_reserves, 1);
    assert_eq!(m.init_real_base_reserves, 800_000_000_000_000);
    assert_eq!(m.init_virt_quote_reserves, 2);
    assert_eq!(m.verify_signer_pubkey, addr(8));
    assert_eq!(m.sol_price, 0);
    assert_eq!(update_sol_price(&mut m, &addr(1), 7), Err(ThrustAppError::Unauthorised));
    assert_eq!(update_sol_price(&mut m, &addr(6), 7), Ok(()));
    assert_eq!(m.sol_price, 7);
}

#[test]
fn admin_operations_need_initialisation() {
    let mut m = MainState::uninitialized();
    assert_eq!(update_sol_price(&mut m, &Address::zero(), 7), Err(ThrustAppError::Uninitialized));
    assert_eq!(update_sol_price(&mut m, &addr(1), 7), Err(ThrustAppError::Unauthorised));
}

#[test]
fn create_pool_seeds_reserves() {
    let m = toy_config();
    let mut creator = UserState::new(addr(2));
    let c = create_pool(&m, &mut creator, &addr(2), &addr(3), Some(addr(8)), &input(50, None), 40)
        .unwrap();
    assert_eq!(c.pool.owner, addr(2));
    assert_eq!(c.pool.mint, addr(3));
    assert_eq!(c.pool.real_base_reserves, 9_000);
    assert_eq!(c.pool.virt_base_reserves, 1_000);
    assert_eq!(c.pool.virt_quote_reserves, 24);
    assert_eq!(c.pool.real_quote_reserves, 0);
    assert_eq!(c.pool.konst, 9_000 * 24);
    assert_eq!(c.pool.start_trade_timestamp, 50);
    assert_eq!(c.pool.tax_start_timestamp, 40);
    assert_eq!(c.pool.graduation_threshold, 100);
    assert!(!c.pool.complete && !c.pool.withdrawn);
    assert_eq!(c.mint_amount, 10_000);
    assert_eq!(c.event.base_reserves, 10_000);
    assert_eq!(c.event.quote_reserves, 24);
    assert_eq!(c.event.timestamp, 40);
    assert_eq!(creator.referrer, addr(8));
}

#[test]
fn create_pool_errors() {
    let mut creator = UserState::new(addr(2));
    let m = MainState::uninitialized();
    assert_eq!(
        create_pool(&m, &mut creator, &addr(2), &addr(3), None, &input(0, None), 0),
        Err(ThrustAppError::Uninitialized)
    );
    let mut bad = toy_config();
    bad.init_real_base_reserves = 10_001;
    assert_eq!(
        create_pool(&bad, &mut creator, &addr(2), &addr(3), None, &input(0, None), 0),
        Err(ThrustAppError::MathOverflow)
    );
}

#[test]
fn trade_window_is_inclusive_for_buys_strict_for_sells() {
    let m = toy_config();
    let mut pool = new_pool(&m, 100, None);
    let mut user = UserState::new(addr(4));
    assert_eq!(
        buy(&m, &mut pool, &mut user, &addr(4), &Address::zero(), 10, 0, 99),
        Err(ThrustAppError::TradeWindowNotOpen)
    );
    assert!(buy(&m, &mut pool, &mut user, &addr(4), &Address::zero(), 10, 0, 100).is_ok());
    assert_eq!(
        sell_attested(&m, &mut pool, &mut user, &addr(4), &Address::zero(), 10, 10, 100, 0),
        Err(ThrustAppError::TradeWindowNotOpen)
    );
    assert!(sell_attested(&m, &mut pool, &mut user, &addr(4), &Address::zero(), 10, 10, 101, 0).is_ok());
}

#[test]
fn trades_need_initialisation() {
    let m = toy_config();
    let mut pool = new_pool(&m, 0, None);
    let mut user = UserState::new(addr(4));
    let off = MainState::uninitialized();
    assert_eq!(
        buy(&off, &mut pool, &mut user, &addr(4), &Address::zero(), 10, 0, 1),
        Err(ThrustAppError::Uninitialized)
    );
    assert_eq!(
        sell_attested(&off, &mut pool, &mut user, &addr(4), &Address::zero(), 10, 0, 1, 0),
        Err(ThrustAppError::Uninitialized)
    );
}

#[test]
fn completed_pool_rejects_trades() {
    let m = toy_config();
    let mut pool = graduated_pool(&m);
    let before = pool;
    let mut user = UserState::new(addr(5));
    assert_eq!(
        buy(&m, &mut pool, &mut user, &addr(5), &Address::zero(), 10, 0, 2),
        Err(ThrustAppError::BondingCurveComplete)
    );
    assert_eq!(
        sell_attested(&m, &mut pool, &mut user, &addr(5), &Address::zero(), 10, 10, 2, 0),
        Err(ThrustAppError::BondingCurveComplete)
    );
    assert_eq!(pool, before);
    assert_eq!(user, UserState::new(addr(5)));
}

#[test]
fn withdraw_before_completion_fails() {
    let m = toy_config();
    let mut pool = new_pool(&m, 0, None);
    assert_eq!(withdraw(&m, &mut pool, &addr(1)), Err(ThrustAppError::BondingCurveIncomplete));
    assert!(!pool.withdrawn);
}

#[test]
fn withdraw_once_by_owner() {
    let m = toy_config();
    let mut pool = graduated_pool(&m);
    assert_eq!(withdraw(&m, &mut pool, &addr(2)), Err(ThrustAppError::Unauthorised));
    let tokens = withdraw(&m, &mut pool, &addr(1)).unwrap();
    assert_eq!(tokens, pool.real_base_reserves + pool.virt_base_reserves);
    assert!(pool.withdrawn);
    let after = pool;
    assert_eq!(withdraw(&m, &mut pool, &addr(1)), Err(ThrustAppError::AlreadyWithdrawn));
    assert_eq!(pool, after);
}

fn room() -> WaitingRoomConfig {
    WaitingRoomConfig {
        min_trades: 1,
        max_participants: 1,
        wallet_limit_percent: 5,
        closure_condition: ClosureCondition::BuyVolume(1_000),
    }
}

#[test]
fn waiting_room_asks_for_trades() {
    let m = toy_config();
    let mut pool = new_pool(&m, 0, Some(room()));
    let mut user = UserState::new(addr(4));
    assert_eq!(
        buy(&m, &mut pool, &mut user, &addr(4), &Address::zero(), 10, 0, 1),
        Err(ThrustAppError::InsufficientTrades)
    );
}

#[test]
fn waiting_room_caps_participants_and_wallets() {
    let m = toy_config();
    let mut pool = new_pool(&m, 0, Some(room()));
    let mut first = UserState::new(addr(4));
    first.trade_count = 1;
    // floor(10000 * 1 / 25) = 400 tokens, within 5% of 10000 = 500
    let r = buy(&m, &mut pool, &mut first, &addr(4), &Address::zero(), 1, 0, 1).unwrap();
    assert_eq!(r.output_amount, 400);
    match pool.waiting_room_state {
        WaitingRoomState::Enabled { participants, total_buy_volume, closed, .. } => {
            assert_eq!(participants, 1);
            assert_eq!(total_buy_volume, 1);
            assert!(!closed);
        }
        WaitingRoomState::Disabled => panic!("room disabled"),
    }
    let mut second = UserState::new(addr(5));
    second.trade_count = 1;
    assert_eq!(
        buy(&m, &mut pool, &mut second, &addr(5), &Address::zero(), 1, 0, 2),
        Err(ThrustAppError::WaitingRoomFull)
    );
    assert_eq!(
        buy(&m, &mut pool, &mut first, &addr(4), &Address::zero(), 1, 400, 2),
        Err(ThrustAppError::WalletLimitExceeded)
    );
}

#[test]
fn closed_waiting_room_admits_everyone() {
    let m = toy_config();
    let cfg = WaitingRoomConfig { closure_condition: ClosureCondition::TimeBased(5), ..room() };
    let mut pool = new_pool(&m, 0, Some(cfg));
    let mut user = UserState::new(addr(4));
    assert!(buy(&m, &mut pool, &mut user, &addr(4), &Address::zero(), 10, 0, 5).is_ok());
    match pool.waiting_room_state {
        WaitingRoomState::Enabled { closed, .. } => assert!(closed),
        WaitingRoomState::Disabled => panic!("room disabled"),
    }
}
