//! Signed attestations of the time a seller last received tokens.
//!
//! An attestation is a message whose first eight bytes hold the time,
//! little-endian, signed with secp256k1 by the platform's attestation key.
//! The signer is identified as the runtime does it: the SHA-256 digest of the
//! recovered 64-byte public key.

use vstd::prelude::*;

use crate::address::Address;
use crate::error::ThrustAppError;

verus! {

/// The SHA-256 digest of the bytes.
pub uninterp spec fn sha256_of(data: Seq<u8>) -> Seq<u8>;

/// The 64-byte public key that secp256k1 recovers from a 32-byte digest, a
/// recovery id and a 64-byte signature; none where recovery fails.
pub uninterp spec fn secp256k1_recovered(digest: Seq<u8>, recovery_id: u8, signature: Seq<u8>) -> Option<Seq<u8>>;

/// Relies on solana_program::hash::hash: the SHA-256 digest of the bytes.
#[verifier::external_body]
fn sha256(data: &[u8]) -> (r: [u8; 32])
    ensures
        r@ == sha256_of(data@),
{
    anchor_lang::solana_program::hash::hash(data).to_bytes()
}

/// Relies on solana_program::secp256k1_recover::secp256k1_recover, called
/// with the digest, the signature's last byte as recovery id and its first
/// 64 bytes: the recovered public key, or an error, which becomes none.
#[verifier::external_body]
fn recover_signer_key(digest: &[u8; 32], signature: &[u8; 65]) -> (r: Option<[u8; 64]>)
    ensures
        match r {
            Some(key) => secp256k1_recovered(digest@, signature@[64], signature@.subrange(0, 64))
                == Some(key@),
            None => secp256k1_recovered(digest@, signature@[64], signature@.subrange(0, 64)) is None,
        },
{
    match anchor_lang::solana_program::secp256k1_recover::secp256k1_recover(
        digest,
        signature[64],
        &signature[..64],
    ) {
        Ok(key) => Some(key.to_bytes()),
        Err(_) => None,
    }
}

/// The address of the key that signed `message` with `signature`: the
/// digest of the key recovered from the message's digest; none where
/// recovery fails.
pub open spec fn recovered_signer(message: Seq<u8>, signature: Seq<u8>) -> Option<Seq<u8>> {
    match secp256k1_recovered(sha256_of(message), signature[64], signature.subrange(0, 64)) {
        Some(key) => Some(sha256_of(key)),
        None => None,
    }
}

/// The value of eight bytes read little-endian.
pub open spec fn le_u64(b: Seq<u8>) -> int {
    b[0] + 0x100 * b[1] + 0x1_0000 * b[2] + 0x100_0000 * b[3] + 0x1_0000_0000 * b[4]
        + 0x100_0000_0000 * b[5] + 0x1_0000_0000_0000 * b[6] + 0x100_0000_0000_0000 * b[7]
}

pub open spec fn address_bytes(a: Option<Address>) -> Option<Seq<u8>> {
    match a {
        Some(a) => Some(a.bytes@),
        None => None,
    }
}

/// What an attestation yields when its signer resolves to `recovered`:
/// `InvalidSignature` unless that is `signer`, then `InvalidMessage` for a
/// message shorter than eight bytes, else the time in its first eight bytes.
pub open spec fn attestation_outcome(recovered: Option<Seq<u8>>, signer: Address, message: Seq<u8>) -> Result<u64, ThrustAppError> {
    match recovered {
        None => Err(ThrustAppError::InvalidSignature),
        Some(a) => if a != signer.bytes@ {
            Err(ThrustAppError::InvalidSignature)
        } else if message.len() < 8 {
            Err(ThrustAppError::InvalidMessage)
        } else {
            Ok(le_u64(message) as u64)
        },
    }
}

/// What verifying `message` and `signature` against `signer` yields.
pub open spec fn attested_time(message: Seq<u8>, signature: Seq<u8>, signer: Address) -> Result<u64, ThrustAppError> {
    attestation_outcome(recovered_signer(message, signature), signer, message)
}

/// Reads the first eight bytes little-endian.
fn read_u64_le(bytes: &[u8]) -> (r: u64)
    requires
        bytes@.len() >= 8,
    ensures
        r == le_u64(bytes@),
{
    (bytes[0] as u64) + 0x100 * (bytes[1] as u64) + 0x1_0000 * (bytes[2] as u64) + 0x100_0000 * (
    bytes[3] as u64) + 0x1_0000_0000 * (bytes[4] as u64) + 0x100_0000_0000 * (bytes[5] as u64)
        + 0x1_0000_0000_0000 * (bytes[6] as u64) + 0x100_0000_0000_0000 * (bytes[7] as u64)
}

/// Checks an attestation whose signing key resolves to the address
/// `recovered` (none where recovery failed) against `signer`, and reads the
/// attested time from `signed_message`.
pub fn check_attestation(recovered: Option<Address>, signer: &Address, signed_message: &[u8]) -> (r:
    Result<u64, ThrustAppError>)
    ensures
        r == attestation_outcome(address_bytes(recovered), *signer, signed_message@),
{
    let key_address = match recovered {
        Some(a) => a,
        None => {
            return Err(ThrustAppError::InvalidSignature);
        },
    };
    if !key_address.equals(signer) {
        proof {
            if key_address.bytes@ == signer.bytes@ {
                assert(key_address.bytes =~= signer.bytes);
            }
        }
        return Err(ThrustAppError::InvalidSignature);
    }
    if signed_message.len() < 8 {
        return Err(ThrustAppError::InvalidMessage);
    }
    Ok(read_u64_le(signed_message))
}

/// Verifies that `signature` over `signed_message` comes from
/// `signer_pubkey` and returns the attested time.
pub fn verify_signed_message(signed_message: &[u8], signature: &[u8; 65], signer_pubkey: &Address) -> (r:
    Result<u64, ThrustAppError>)
    ensures
        r == attested_time(signed_message@, signature@, *signer_pubkey),
{
    let message_hash = sha256(signed_message);
    let recovered = match recover_signer_key(&message_hash, signature) {
        Some(key) => Some(Address::new(sha256(key.as_slice()))),
        None => None,
    };
    check_attestation(recovered, signer_pubkey, signed_message)
}

} // verus!
