//! The records of the raffle system and their canonical serialization.
//!
//! Account addresses on the ledger are 32-byte identities; they appear here
//! as plain byte vectors. The `Raffle` type bundles what the ledger keeps in
//! two places — the raffle record proper and the collection object whose
//! attribute list stores raffle-wide state — together with the count of
//! tickets sold so far.

use vstd::prelude::*;
use vstd::bytes::spec_u64_to_le_bytes;
use crate::attrs::Attribute;
use crate::util::push_bytes;

verus! {

/// House-level configuration: who operates the house, the flat fee charged
/// per raffle creation, and the derivation salts of the config and treasury
/// addresses.
pub struct Config {
    pub authority: Vec<u8>,
    pub fee: u64,
    pub config_bump: u8,
    pub treasury_bump: u8,
}

impl Config {
    /// The authority is a 32-byte ledger identity.
    pub open spec fn wf(&self) -> bool {
        self.authority@.len() == 32
    }
}

/// One raffle: its creator, the handle of its collection object, the
/// resolution deadline (a ledger slot), the ticket price, the fee rate in
/// basis points, and the derivation salts of its own address and its vault.
pub struct RaffleConfig {
    pub authority: Vec<u8>,
    pub collection: Vec<u8>,
    pub slot: u64,
    pub ticket_price: u64,
    pub raffle_fee: u64,
    pub raffle_config_bump: u8,
    pub vault_bump: u8,
}

impl RaffleConfig {
    /// Authority and collection handle are 32-byte ledger identities.
    pub open spec fn wf(&self) -> bool {
        self.authority@.len() == 32 && self.collection@.len() == 32
    }

    /// The canonical byte serialization of the record, in field declaration
    /// order: authority, collection, then slot, price and fee rate as
    /// little-endian 64-bit words, then the address-derivation byte.
    pub open spec fn spec_serialized(&self) -> Seq<u8> {
        self.authority@ + self.collection@ + spec_u64_to_le_bytes(self.slot)
            + spec_u64_to_le_bytes(self.ticket_price) + spec_u64_to_le_bytes(self.raffle_fee)
            + seq![self.raffle_config_bump]
    }

    /// Serialize the record. This is the exact message a creator must sign
    /// for the draw resolution to accept the signature.
    pub fn to_slice(&self) -> (r: Vec<u8>)
        ensures
            r@ == self.spec_serialized(),
    {
        let mut out: Vec<u8> = Vec::new();
        push_bytes(&mut out, self.authority.as_slice());
        push_bytes(&mut out, self.collection.as_slice());
        let slot_bytes = vstd::bytes::u64_to_le_bytes(self.slot);
        push_bytes(&mut out, slot_bytes.as_slice());
        let price_bytes = vstd::bytes::u64_to_le_bytes(self.ticket_price);
        push_bytes(&mut out, price_bytes.as_slice());
        let fee_bytes = vstd::bytes::u64_to_le_bytes(self.raffle_fee);
        push_bytes(&mut out, fee_bytes.as_slice());
        let mut bump: Vec<u8> = Vec::new();
        bump.push(self.raffle_config_bump);
        push_bytes(&mut out, bump.as_slice());
        proof {
            assert(Seq::<u8>::empty() + self.authority@ =~= self.authority@);
            assert(bump@ =~= seq![self.raffle_config_bump]);
            assert(out@ =~= self.spec_serialized());
        }
        out
    }
}

/// The full observable state of one raffle: the collection object's name and
/// metadata link, the raffle record, the collection's attribute list, and how
/// many tickets have been sold.
pub struct Raffle {
    pub name: String,
    pub uri: String,
    pub config: RaffleConfig,
    pub attributes: Vec<Attribute>,
    pub tickets_sold: u32,
}

impl Raffle {
    pub open spec fn wf(&self) -> bool {
        self.config.wf()
    }
}

/// One minted ticket: its display name and metadata link, and its attribute
/// list, which carries the "Ticket Number" entry that the claim check reads.
pub struct Ticket {
    pub name: String,
    pub uri: String,
    pub attributes: Vec<Attribute>,
}

/// What a purchase splits the ticket price into.
#[derive(Clone, Copy, Debug, PartialEq, Eq, Structural)]
pub struct BuyEvent {
    pub maker_fee: u64,
    pub vault_earning: u64,
}

/// The winning ticket number drawn by the resolution.
#[derive(Clone, Copy, Debug, PartialEq, Eq, Structural)]
pub struct RafEvent {
    pub winner: u32,
}

/// Inputs of a raffle creation: collection metadata, ticket price, fee rate
/// in basis points, and how many slots past the current one the raffle stays
/// open.
pub struct CreateRaffleArgs {
    pub name: String,
    pub uri: String,
    pub ticket_price: u64,
    pub raffle_fee: u64,
    pub slot_interval: u64,
}

/// Inputs of a ticket purchase: the minted ticket's metadata.
pub struct BuyTicketArgs {
    pub name: String,
    pub uri: String,
}

} // verus!
