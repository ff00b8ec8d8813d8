use thrust_app::address::Address;
use thrust_app::attestation::{check_attestation, verify_signed_message};
use thrust_app::error::ThrustAppError;
use thrust_app::main_state::MainState;
use thrust_app::pool::create_pool::{create_pool, CreatePoolInput};
use thrust_app::pool::sell::{sell, SellInput};
use thrust_app::pool::buy::buy;
use thrust_app::pool::state::TaxType;
use thrust_app::user::UserState;

fn key() -> libsecp256k1::SecretKey {
    libsecp256k1::SecretKey::parse(&[7u8; 32]).unwrap()
}

fn signer_address(sk: &libsecp256k1::SecretKey) -> Address {
    let pk = libsecp256k1::PublicKey::from_secret_key(sk);
    Address::new(solana_program::hash::hash(&pk.serialize()[1..65]).to_bytes())
}

fn sign(message: &[u8], sk: &libsecp256k1::SecretKey) -> [u8; 65] {
    let digest = solana_program::hash::hash(message).to_bytes();
    let (sig, rec) = libsecp256k1::sign(&libsecp256k1::Message::parse(&digest), sk);
    let mut out = [0u8; 65];
    out[..64].copy_from_slice(&sig.serialize());
    out[64] = rec.serialize();
    out
}

#[test]
fn signed_attestation_yields_time() {
    let sk = key();
    let mut message = 1_700_000_000u64.to_le_bytes().to_vec();
    message.extend_from_slice(b"seller");
    let signature = sign(&message, &sk);
    assert_eq!(verify_signed_message(&message, &signature, &signer_address(&sk)), Ok(1_700_000_000));
}

#[test]
fn attestation_from_other_key_rejected() {
    let sk = key();
    let message = 42u64.to_le_bytes().to_vec();
    let signature = sign(&message, &sk);
    let other = Address::new([3; 32]);
    assert_eq!(verify_signed_message(&message, &signature, &other), Err(ThrustAppError::InvalidSignature));
}

#[test]
fn tampered_attestation_rejected() {
    let sk = key();
    let message = 42u64.to_le_bytes().to_vec();
    let signature = sign(&message, &sk);
    let tampered = 43u64.to_le_bytes().to_vec();
    assert_eq!(
        verify_signed_message(&tampered, &signature, &signer_address(&sk)),
        Err(ThrustAppError::InvalidSignature)
    );
    let garbage = [0u8; 65];
    assert_eq!(
        verify_signed_message(&message, &garbage, &signer_address(&sk)),
        Err(ThrustAppError::InvalidSignature)
    );
}

#[test]
fn short_attested_message_rejected() {
    let sk = key();
    let message = vec![1u8, 2, 3];
    let signature = sign(&message, &sk);
    assert_eq!(
        verify_signed_message(&message, &signature, &signer_address(&sk)),
        Err(ThrustAppError::InvalidMessage)
    );
}

#[test]
fn attestation_outcomes_by_recovered_key() {
    let signer = Address::new([5; 32]);
    let message = [1u8, 0, 0, 0, 0, 0, 0, 1, 9];
    assert_eq!(check_attestation(None, &signer, &message), Err(ThrustAppError::InvalidSignature));
    assert_eq!(
        check_attestation(Some(Address::new([6; 32])), &signer, &message),
        Err(ThrustAppError::InvalidSignature)
    );
    assert_eq!(check_attestation(Some(signer), &signer, &message[..7]), Err(ThrustAppError::InvalidMessage));
    assert_eq!(check_attestation(Some(signer), &signer, &message), Ok(0x0100_0000_0000_0001));
}

#[test]
fn sell_checks_attestation_first() {
    let sk = key();
    let m = MainState {
        initialized: true,
        owner: Address::new([1; 32]),
        fee_recipient: Address::new([1; 32]),
        total_token_supply: 10_000,
        init_virt_base_reserves: 1_000,
        init_real_base_reserves: 9_000,
        init_virt_quote_reserves: 24,
        trading_fee: 1_000,
        referral_reward_fee: 10_000,
        referral_trade_limit: 100,
        sol_price: 0,
        verify_signer_pubkey: signer_address(&sk),
        graduation_threshold: 100,
        graduation_fee: 5,
    };
    let mut creator = UserState::new(Address::new([2; 32]));
    let input = CreatePoolInput {
        mint_name: "Toy".to_string(),
        mint_symbol: "TOY".to_string(),
        mint_uri: String::new(),
        trade_start_time: 0,
        tax_type: TaxType::Disabled,
        waiting_room: None,
    };
    let mut pool = create_pool(&m, &mut creator, &Address::new([2; 32]), &Address::new([3; 32]), None, &input, 0)
        .unwrap()
        .pool;
    let trader = Address::new([4; 32]);
    let mut user = UserState::new(trader);
    buy(&m, &mut pool, &mut user, &trader, &Address::zero(), 10, 0, 1).unwrap();
    let message = 1u64.to_le_bytes().to_vec();
    let bad = SellInput { amount: 100, signed_message: message.clone(), signature: [0u8; 65] };
    let before = pool;
    assert_eq!(
        sell(&m, &mut pool, &mut user, &trader, &Address::zero(), &bad, 3_000, 5),
        Err(ThrustAppError::InvalidSignature)
    );
    assert_eq!(pool, before);
    let good = SellInput { amount: 100, signed_message: message.clone(), signature: sign(&message, &sk) };
    let r = sell(&m, &mut pool, &mut user, &trader, &Address::zero(), &good, 3_000, 5).unwrap();
    assert_eq!(r.input_amount, 100);
    assert_eq!(pool.real_base_reserves, before.real_base_reserves + 100);
}
