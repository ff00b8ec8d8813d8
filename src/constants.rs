use vstd::prelude::*;

verus! {

/// Fee rates are expressed in thousandths of a percent: a rate of 1 000 is 1%.
pub const FEE_DIVISOR: u64 = 100_000;

/// Token supply minted for every pool: one billion tokens with six decimals.
pub const TOTAL_SUPPLY: u64 = 1_000_000_000_000_000;

/// Native currency paid from the pool to the fee recipient at graduation.
pub const GRADUATE_FEE: u64 = 5_000_000_000;

/// Virtual quote reserve every pool starts with (24 units of the native currency).
pub const VIRT_SOL_RESERVE: u64 = 24_000_000_000;

/// Real quote reserve at which a pool graduates.
pub const REAL_SOL_THRESHOLD: u64 = 100_000_000_000;

/// Smallest units of the native currency in one whole unit.
pub const LAMPORTS_PER_SOL: u64 = 1_000_000_000;

/// Seconds in a day, for holding times and tax durations.
pub const SECONDS_PER_DAY: u64 = 86_400;

/// Default trading fee rate: 1%.
pub const DEFAULT_TRADING_FEE: u64 = 1_000;

/// Default share of the trading fee paid to a referrer: 10%.
pub const DEFAULT_REFERRAL_REWARD_FEE: u64 = 10_000;

/// Default number of trades per trader that earn its referrer a reward.
pub const DEFAULT_REFERRAL_TRADE_LIMIT: u64 = 100;

/// Address of the wrapped native-currency mint, in base58.
pub const NATIVE_MINT_STR: &'static str = "So11111111111111111111111111111111111111112";

} // verus!
