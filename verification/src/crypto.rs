//! The two facts this library takes from the ledger's cryptography crate:
//! the SHA-256 digest of a byte string, and the address of the ed25519
//! signature-verification program.

use vstd::prelude::*;

verus! {

/// The SHA-256 digest of `data`: a function of the input bytes alone.
pub uninterp spec fn sha256_of(data: Seq<u8>) -> Seq<u8>;

/// Relies on `solana_program::hash::hash`, documented as "Return a Sha256
/// hash for the given data"; a digest is `HASH_BYTES` = 32 bytes.
#[verifier::external_body]
pub fn sha256(data: &[u8]) -> (r: Vec<u8>)
    ensures
        r@ == sha256_of(data@),
        r@.len() == 32,
{
    solana_program::hash::hash(data).to_bytes().to_vec()
}

/// The 32-byte address of the ed25519 verification program,
/// "Ed25519SigVerify111111111111111111111111111" in base-58.
pub open spec fn spec_ed25519_program_id() -> Seq<u8> {
    seq![
        3u8, 125u8, 70u8, 214u8, 124u8, 147u8, 251u8, 190u8, 18u8, 249u8, 66u8, 143u8, 131u8,
        141u8, 64u8, 255u8, 5u8, 112u8, 116u8, 73u8, 39u8, 244u8, 138u8, 100u8, 252u8, 202u8,
        112u8, 68u8, 128u8, 0u8, 0u8, 0u8,
    ]
}

/// Relies on `solana_program::ed25519_program::ID`, the constant address
/// declared as "Ed25519SigVerify111111111111111111111111111", whose base-58
/// decoding is the 32 bytes of `spec_ed25519_program_id`.
#[verifier::external_body]
pub fn ed25519_program_id() -> (r: Vec<u8>)
    ensures
        r@ == spec_ed25519_program_id(),
{
    solana_program::ed25519_program::ID.to_bytes().to_vec()
}

} // verus!
