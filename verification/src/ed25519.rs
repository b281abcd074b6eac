//! Checking the co-submitted ed25519-verification instruction.
//!
//! The draw resolution demands that the same atomic call carry an
//! instruction for the ed25519 program whose single signature record binds
//! the raffle creator's key, the submitted signature bytes, and the raffle
//! record's canonical serialization. The instruction data layout is the
//! ed25519 program's: a record count and a padding byte, then one 14-byte
//! block of little-endian 16-bit offsets — signature offset, signature
//! instruction index, public key offset, public key instruction index,
//! message offset, message size, message instruction index — then the
//! payload those offsets point into. An instruction index of `u16::MAX`
//! means "this instruction"; only fields stored in the instruction's own
//! data are accepted, so a record that merely references another
//! instruction is rejected as unverifiable.

use vstd::prelude::*;
use vstd::bytes::{spec_u16_from_le_bytes, u16_from_le_bytes};
use vstd::slice::slice_subrange;
use crate::crypto::{ed25519_program_id, spec_ed25519_program_id};
use crate::errors::BeeRafError;
use crate::state::RaffleConfig;
use crate::util::{bytes_eq, bytes_range};

verus! {

/// The 16-bit little-endian word at byte offset `off` of `data`.
pub open spec fn spec_u16_at(data: Seq<u8>, off: int) -> u16 {
    spec_u16_from_le_bytes(data.subrange(off, off + 2))
}

/// The data is long enough for the offsets block and holds exactly one
/// signature record.
pub open spec fn spec_ed25519_header_ok(data: Seq<u8>) -> bool {
    data.len() >= 16 && data[0] == 1
}

/// All three instruction indices name the instruction itself, so every
/// field of the record can be read from `data`.
pub open spec fn spec_ed25519_verifiable(data: Seq<u8>) -> bool {
    spec_u16_at(data, 4) == 0xffffu16 && spec_u16_at(data, 8) == 0xffffu16 && spec_u16_at(
        data,
        14,
    ) == 0xffffu16
}

/// The record's 32-byte public key, when it lies inside `data`.
pub open spec fn spec_ed25519_pubkey(data: Seq<u8>) -> Option<Seq<u8>> {
    let off = spec_u16_at(data, 6) as int;
    if spec_u16_at(data, 8) == 0xffffu16 && off + 32 <= data.len() {
        Some(data.subrange(off, off + 32))
    } else {
        None
    }
}

/// The record's 64-byte signature, when it lies inside `data`.
pub open spec fn spec_ed25519_signature(data: Seq<u8>) -> Option<Seq<u8>> {
    let off = spec_u16_at(data, 2) as int;
    if spec_u16_at(data, 4) == 0xffffu16 && off + 64 <= data.len() {
        Some(data.subrange(off, off + 64))
    } else {
        None
    }
}

/// The record's message bytes, when they lie inside `data`.
pub open spec fn spec_ed25519_message(data: Seq<u8>) -> Option<Seq<u8>> {
    let off = spec_u16_at(data, 10) as int;
    let size = spec_u16_at(data, 12) as int;
    if spec_u16_at(data, 14) == 0xffffu16 && off + size <= data.len() {
        Some(data.subrange(off, off + size))
    } else {
        None
    }
}

/// The whole check, in the order the errors are raised: the instruction must
/// target the ed25519 program with no accounts, hold exactly one fully
/// self-contained signature record, and that record must bind `maker`'s key,
/// the bytes of `sig`, and exactly `message`.
pub open spec fn spec_verify_ed25519(
    program_id: Seq<u8>,
    accounts: int,
    data: Seq<u8>,
    maker: Seq<u8>,
    sig: Seq<u8>,
    message: Seq<u8>,
) -> Result<(), BeeRafError> {
    if program_id != spec_ed25519_program_id() {
        Err(BeeRafError::Ed25519Program)
    } else if accounts != 0 {
        Err(BeeRafError::Ed25519Accounts)
    } else if !spec_ed25519_header_ok(data) {
        Err(BeeRafError::Ed25519DataLength)
    } else if !spec_ed25519_verifiable(data) {
        Err(BeeRafError::Ed25519Header)
    } else if spec_ed25519_pubkey(data) != Some(maker) {
        Err(BeeRafError::Ed25519Pubkey)
    } else if spec_ed25519_signature(data) != Some(sig) {
        Err(BeeRafError::Ed25519Signature)
    } else if spec_ed25519_message(data) != Some(message) {
        Err(BeeRafError::Ed25519Signature)
    } else {
        Ok(())
    }
}

/// Check the co-submitted ed25519-verification instruction — given as its
/// program id, its account count and its raw data — against the raffle
/// creator `maker`, the submitted signature `sig`, and the raffle record
/// whose serialization the creator must have signed.
pub fn verify_ed25519_signature(
    ix_program_id: &Vec<u8>,
    ix_accounts: usize,
    ix_data: &Vec<u8>,
    maker: &Vec<u8>,
    sig: &Vec<u8>,
    raffle_config: &RaffleConfig,
) -> (r: Result<(), BeeRafError>)
    ensures
        r == spec_verify_ed25519(
            ix_program_id@,
            ix_accounts as int,
            ix_data@,
            maker@,
            sig@,
            raffle_config.spec_serialized(),
        ),
        r is Ok ==> spec_ed25519_message(ix_data@) == Some(raffle_config.spec_serialized()),
{
    let expected_program = ed25519_program_id();
    if !bytes_eq(ix_program_id.as_slice(), expected_program.as_slice()) {
        return Err(BeeRafError::Ed25519Program);
    }
    if ix_accounts != 0 {
        return Err(BeeRafError::Ed25519Accounts);
    }
    let n: usize = ix_data.len();
    if n < 16 || ix_data[0] != 1 {
        return Err(BeeRafError::Ed25519DataLength);
    }
    let data = ix_data.as_slice();
    let sig_off = u16_from_le_bytes(slice_subrange(data, 2, 4));
    let sig_idx = u16_from_le_bytes(slice_subrange(data, 4, 6));
    let pk_off = u16_from_le_bytes(slice_subrange(data, 6, 8));
    let pk_idx = u16_from_le_bytes(slice_subrange(data, 8, 10));
    let msg_off = u16_from_le_bytes(slice_subrange(data, 10, 12));
    let msg_size = u16_from_le_bytes(slice_subrange(data, 12, 14));
    let msg_idx = u16_from_le_bytes(slice_subrange(data, 14, 16));
    if !(sig_idx == 0xffffu16 && pk_idx == 0xffffu16 && msg_idx == 0xffffu16) {
        return Err(BeeRafError::Ed25519Header);
    }
    let pk_start = pk_off as usize;
    if pk_start + 32 > n {
        return Err(BeeRafError::Ed25519Pubkey);
    }
    let pubkey = bytes_range(data, pk_start, 32);
    if !bytes_eq(pubkey.as_slice(), maker.as_slice()) {
        return Err(BeeRafError::Ed25519Pubkey);
    }
    let sig_start = sig_off as usize;
    if sig_start + 64 > n {
        return Err(BeeRafError::Ed25519Signature);
    }
    let signature = bytes_range(data, sig_start, 64);
    if !bytes_eq(signature.as_slice(), sig.as_slice()) {
        return Err(BeeRafError::Ed25519Signature);
    }
    let msg_start = msg_off as usize;
    let msg_len = msg_size as usize;
    if msg_start + msg_len > n {
        return Err(BeeRafError::Ed25519Signature);
    }
    let message = bytes_range(data, msg_start, msg_len);
    let expected_message = raffle_config.to_slice();
    if !bytes_eq(message.as_slice(), expected_message.as_slice()) {
        return Err(BeeRafError::Ed25519Signature);
    }
    Ok(())
}

} // verus!
