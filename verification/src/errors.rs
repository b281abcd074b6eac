//! The error kinds that the raffle operations surface. Every error is
//! terminal for the call that raised it: the caller rolls back all effects of
//! the failing call and may resubmit.

use vstd::prelude::*;

verus! {

/// One error kind per way an operation can be refused.
///
/// The `Ed25519`-prefixed kinds report a mismatch between the co-submitted
/// ed25519-verification instruction and what the draw resolution demands of
/// it; the rest report an ineligible raffle state or a malformed attribute.
#[derive(Clone, Copy, Debug, PartialEq, Eq, Structural)]
pub enum BeeRafError {
    /// The collection carries no "Capacity" attribute.
    MissingAttribute,
    /// An attribute value does not parse as an unsigned 32-bit integer.
    NumericalOverflow,
    /// Every ticket the raffle can accept has been sold.
    MaximumTicketsReached,
    /// The purchase deadline has passed.
    TimeExpired,
    /// The resolution deadline has not passed yet.
    StillOpen,
    /// No ticket has been sold, so there is nothing to draw from.
    NoSoldAnyTicket,
    /// The raffle already carries a "Winner" attribute.
    AlreadySolved,
    /// The drawn number fell outside `1..=tickets_sold`.
    FailedRoll,
    /// The signature record is not fully contained in its own instruction.
    Ed25519Header,
    /// The public key is absent or differs from the raffle's creator.
    Ed25519Pubkey,
    /// A mismatched signed message, where an operation tells it apart; the
    /// draw resolution reports a message mismatch as `Ed25519Signature`.
    Ed25519Message,
    /// The signature bytes are absent or differ from the submitted ones.
    Ed25519Signature,
    /// The instruction is not addressed to the ed25519 program.
    Ed25519Program,
    /// The instruction names accounts, which the ed25519 program takes none of.
    Ed25519Accounts,
    /// The instruction data is malformed or holds more or less than one
    /// signature record.
    Ed25519DataLength,
    /// The raffle has not been solved: no "Winner" attribute exists yet.
    MissingWinnerAttribute,
}

} // verus!
