use vstd::prelude::*;

verus! {

/// Every way an operation of the engine can fail. A failed operation
/// changes no state.
#[derive(Clone, Copy, Debug, PartialEq, Eq, Structural)]
pub enum ThrustAppError {
    /// The platform configuration has not been initialised.
    Uninitialized,
    /// The platform configuration was already initialised.
    AlreadyInitialized,
    /// The pool's reserves were already withdrawn.
    AlreadyWithdrawn,
    /// The caller is not the recorded owner.
    Unauthorised,
    /// Trading on the pool has not started yet.
    TradeWindowNotOpen,
    /// An account does not hold enough to cover a transfer.
    InsufficientFunds,
    /// One side of the pair must be the native currency.
    UnsupportedAsset,
    /// The pool has not reached its graduation threshold.
    BondingCurveIncomplete,
    /// The pool has graduated; no further trading.
    BondingCurveComplete,
    /// The attestation's signature does not come from the expected signer.
    InvalidSignature,
    /// The attested message is malformed.
    InvalidMessage,
    /// The recovered key is not a valid address.
    InvalidPubkey,
    /// The trader has made fewer trades than the waiting room asks for.
    InsufficientTrades,
    /// The purchase would lift the trader's holding over the waiting room's
    /// wallet limit.
    WalletLimitExceeded,
    /// The waiting room admits no further participants.
    WaitingRoomFull,
    /// A decaying tax's minimum rate exceeds its initial rate.
    InvalidTaxPolicy,
    /// An amount overflowed or underflowed its integer type.
    MathOverflow,
}

} // verus!
