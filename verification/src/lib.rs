//! Core logic of a ticket raffle: raffle records and their canonical byte
//! serialization, sequential ticket numbering, fee splitting in basis points,
//! typed accessors over generic key/value attribute lists, parsing and
//! checking of an ed25519-verification instruction, and the draw that turns a
//! signature digest into a winning ticket number.
//!
//! Ledger concerns (account storage, fund transfers, minting) stay outside:
//! every operation here takes plain values and returns the record updates,
//! events and transfer amounts that a host applies atomically.

pub mod addresses;
pub mod attrs;
pub mod crypto;
pub mod digits;
pub mod ed25519;
pub mod errors;
pub mod laws;
pub mod ops;
pub mod state;
pub mod util;

pub use attrs::{AttrLookup, Attribute};
pub use errors::BeeRafError;
pub use ops::{initialize, create_raffle, roll_from_digest, ScratchOutcome, BPS_DENOMINATOR, DEFAULT_CAPACITY};
pub use ed25519::verify_ed25519_signature;
pub use state::{BuyEvent, BuyTicketArgs, Config, CreateRaffleArgs, RafEvent, Raffle, RaffleConfig, Ticket};
