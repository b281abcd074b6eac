//! The five raffle operations.
//!
//! Each operation is a pure function of the raffle state and the values the
//! ledger hands in (the current slot, the vault balance, instruction bytes).
//! Fund movements are returned as amounts for the host to transfer; the
//! ledger applies each operation atomically, so an error leaves every record
//! as it was.

use vstd::prelude::*;
use vstd::bytes::{spec_u128_from_le_bytes, u128_from_le_bytes};
use vstd::slice::slice_subrange;
use vstd::string::*;
use vstd::wrapping::u128_specs;
use crate::attrs::{find_attr, lookup_u32, spec_find_attr, spec_lookup_u32, AttrLookup, Attribute};
use crate::attrs::lemma_find_attr_append;
use crate::crypto::{sha256, sha256_of};
use crate::digits::{lemma_parse_u32_string, spec_u32_string, u32_to_string};
use crate::ed25519::{spec_verify_ed25519, verify_ed25519_signature};
use crate::errors::BeeRafError;
use crate::state::{BuyEvent, BuyTicketArgs, Config, CreateRaffleArgs, RafEvent, Raffle, RaffleConfig, Ticket};

verus! {

/// Every raffle is created with this many tickets as its "Capacity".
pub const DEFAULT_CAPACITY: u32 = 1000;

/// The denominator of a fee rate in basis points.
pub const BPS_DENOMINATOR: u64 = 10000;

/// The maker's cut of one ticket price: `floor(price * fee_bps / 10000)`.
pub open spec fn spec_maker_fee(ticket_price: u64, raffle_fee: u64) -> int {
    (ticket_price * raffle_fee) / 10000
}

/// The number stamped on a ticket, read back from its attribute list.
pub open spec fn spec_ticket_number(t: Ticket) -> AttrLookup {
    spec_lookup_u32(t.attributes@, "Ticket Number"@)
}

/// Create (or idempotently re-create) the house configuration.
pub fn initialize(house: Vec<u8>, fee: u64, config_bump: u8, treasury_bump: u8) -> (c: Config)
    requires
        house@.len() == 32,
    ensures
        c.authority == house,
        c.fee == fee,
        c.config_bump == config_bump,
        c.treasury_bump == treasury_bump,
        c.wf(),
{
    Config { authority: house, fee, config_bump, treasury_bump }
}

/// Create a raffle: a fresh record whose deadline lies `slot_interval` slots
/// ahead, with no ticket sold, and a collection whose attribute list states
/// the capacity. The returned amount is the house's flat creation fee, to be
/// transferred from the maker to the treasury; if that transfer fails the
/// caller discards the record.
pub fn create_raffle(
    args: CreateRaffleArgs,
    current_slot: u64,
    maker: Vec<u8>,
    collection: Vec<u8>,
    house: &Config,
    raffle_config_bump: u8,
    vault_bump: u8,
) -> (r: (Raffle, u64))
    requires
        maker@.len() == 32,
        collection@.len() == 32,
        current_slot + args.slot_interval <= u64::MAX,
    ensures
        r.0.config.authority == maker,
        r.0.config.collection == collection,
        r.0.config.slot == current_slot + args.slot_interval,
        r.0.config.ticket_price == args.ticket_price,
        r.0.config.raffle_fee == args.raffle_fee,
        r.0.config.raffle_config_bump == raffle_config_bump,
        r.0.config.vault_bump == vault_bump,
        r.0.tickets_sold == 0,
        r.0.name@ == args.name@,
        r.0.uri@ == args.uri@,
        r.0.attributes@.len() == 1,
        r.0.attributes@[0].key@ == "Capacity"@,
        r.0.attributes@[0].value@ == spec_u32_string(DEFAULT_CAPACITY as nat),
        spec_lookup_u32(r.0.attributes@, "Capacity"@) == AttrLookup::Found(DEFAULT_CAPACITY),
        r.0.wf(),
        r.1 == house.fee,
{
    let capacity = Attribute {
        key: String::from_str("Capacity"),
        value: u32_to_string(DEFAULT_CAPACITY),
    };
    let mut attributes: Vec<Attribute> = Vec::new();
    attributes.push(capacity);
    let config = RaffleConfig {
        authority: maker,
        collection,
        slot: current_slot + args.slot_interval,
        ticket_price: args.ticket_price,
        raffle_fee: args.raffle_fee,
        raffle_config_bump,
        vault_bump,
    };
    let raffle = Raffle {
        name: args.name,
        uri: args.uri,
        config,
        attributes,
        tickets_sold: 0,
    };
    proof {
        assert(raffle.attributes@[0].key@ == "Capacity"@);
        lemma_parse_u32_string(DEFAULT_CAPACITY);
    }
    (raffle, house.fee)
}

/// Why a purchase is refused, if it is: the deadline first, then the
/// capacity attribute, then the capacity itself.
pub open spec fn spec_buy_check(pre: Raffle, current_slot: u64) -> Option<BeeRafError> {
    if current_slot > pre.config.slot {
        Some(BeeRafError::TimeExpired)
    } else {
        match spec_lookup_u32(pre.attributes@, "Capacity"@) {
            AttrLookup::Missing => Some(BeeRafError::MissingAttribute),
            AttrLookup::Unparsable => Some(BeeRafError::NumericalOverflow),
            AttrLookup::Found(capacity) => if pre.tickets_sold >= capacity {
                Some(BeeRafError::MaximumTicketsReached)
            } else {
                None
            },
        }
    }
}

/// How one successful purchase relates the raffle before and after, and the
/// ticket it minted: the counter advances by one and the new ticket carries
/// exactly the advanced counter as its number.
pub open spec fn spec_buy_step(pre: Raffle, post: Raffle, t: Ticket) -> bool {
    &&& post.tickets_sold == pre.tickets_sold + 1
    &&& post.config == pre.config
    &&& post.attributes == pre.attributes
    &&& post.name == pre.name
    &&& post.uri == pre.uri
    &&& spec_ticket_number(t) == AttrLookup::Found(post.tickets_sold)
}

impl Raffle {
    /// Sell one ticket: number it `tickets_sold + 1`, split the price into
    /// the maker's cut and the vault's earning, and advance the counter.
    ///
    /// The price split must not overflow and the fee rate must not exceed
    /// the basis-point denominator; both transfers are returned in the
    /// event for the host to execute within the same atomic call.
    pub fn buy_ticket(&mut self, args: BuyTicketArgs, current_slot: u64) -> (r: Result<
        (Ticket, BuyEvent),
        BeeRafError,
    >)
        requires
            old(self).config.raffle_fee <= BPS_DENOMINATOR,
            old(self).config.ticket_price * old(self).config.raffle_fee <= u64::MAX,
        ensures
            match r {
                Result::Err(e) => Some(e) == spec_buy_check(*old(self), current_slot)
                    && *final(self) == *old(self),
                Result::Ok((ticket, event)) => {
                    &&& spec_buy_check(*old(self), current_slot) is None
                    &&& spec_buy_step(*old(self), *final(self), ticket)
                    &&& ticket.name@ == args.name@
                    &&& ticket.uri@ == args.uri@
                    &&& ticket.attributes@.len() == 1
                    &&& ticket.attributes@[0].key@ == "Ticket Number"@
                    &&& ticket.attributes@[0].value@ == spec_u32_string(
                        (old(self).tickets_sold + 1) as nat,
                    )
                    &&& event.maker_fee == spec_maker_fee(
                        old(self).config.ticket_price,
                        old(self).config.raffle_fee,
                    )
                    &&& event.maker_fee + event.vault_earning == old(self).config.ticket_price
                },
            },
    {
        if current_slot > self.config.slot {
            return Err(BeeRafError::TimeExpired);
        }
        let capacity = match lookup_u32(&self.attributes, "Capacity") {
            AttrLookup::Missing => {
                return Err(BeeRafError::MissingAttribute);
            },
            AttrLookup::Unparsable => {
                return Err(BeeRafError::NumericalOverflow);
            },
            AttrLookup::Found(capacity) => capacity,
        };
        if self.tickets_sold >= capacity {
            return Err(BeeRafError::MaximumTicketsReached);
        }
        let number: u32 = self.tickets_sold + 1;
        let mut ticket_attributes: Vec<Attribute> = Vec::new();
        ticket_attributes.push(
            Attribute { key: String::from_str("Ticket Number"), value: u32_to_string(number) },
        );
        let ticket = Ticket { name: args.name, uri: args.uri, attributes: ticket_attributes };
        let price: u64 = self.config.ticket_price;
        let fee_rate: u64 = self.config.raffle_fee;
        let maker_fee: u64 = (price * fee_rate) / BPS_DENOMINATOR;
        proof {
            assert(price * fee_rate <= price * 10000) by (nonlinear_arith)
                requires
                    fee_rate <= 10000,
                    price >= 0,
            ;
            assert((price * 10000) / 10000 == price) by (nonlinear_arith);
            assert(maker_fee <= price) by {
                vstd::arithmetic::div_mod::lemma_div_is_ordered(
                    price * fee_rate,
                    price * 10000,
                    10000,
                );
            }
            lemma_parse_u32_string(number);
        }
        let vault_earning: u64 = price - maker_fee;
        self.tickets_sold = number;
        Ok((ticket, BuyEvent { maker_fee, vault_earning }))
    }
}

/// The winning number a digest draws: the two little-endian 128-bit halves
/// of the digest, summed with wraparound, reduced modulo `tickets_sold`,
/// plus one.
pub open spec fn spec_roll(digest: Seq<u8>, tickets_sold: u32) -> u32
    recommends
        digest.len() == 32,
        tickets_sold > 0,
{
    let lower = spec_u128_from_le_bytes(digest.subrange(0, 16));
    let upper = spec_u128_from_le_bytes(digest.subrange(16, 32));
    (u128_specs::wrapping_add(lower, upper) % (tickets_sold as u128) + 1) as u32
}

/// Draw the winning number from a 32-byte digest. Deterministic in the
/// digest, and always within `1..=tickets_sold`.
pub fn roll_from_digest(digest: &Vec<u8>, tickets_sold: u32) -> (r: u32)
    requires
        digest@.len() == 32,
        tickets_sold > 0,
    ensures
        r == spec_roll(digest@, tickets_sold),
        1 <= r <= tickets_sold,
{
    let lower = u128_from_le_bytes(slice_subrange(digest.as_slice(), 0, 16));
    let upper = u128_from_le_bytes(slice_subrange(digest.as_slice(), 16, 32));
    let sum = lower.wrapping_add(upper);
    let reduced = sum % (tickets_sold as u128);
    (reduced as u32) + 1
}

/// Why a resolution is refused, if it is: the deadline must have passed, at
/// least one ticket must have been sold, and the raffle must not have been
/// solved before.
pub open spec fn spec_solve_check(pre: Raffle, current_slot: u64) -> Option<BeeRafError> {
    if current_slot <= pre.config.slot {
        Some(BeeRafError::StillOpen)
    } else if pre.tickets_sold == 0 {
        Some(BeeRafError::NoSoldAnyTicket)
    } else if spec_find_attr(pre.attributes@, "Winner"@) is Some {
        Some(BeeRafError::AlreadySolved)
    } else {
        None
    }
}

/// How one successful resolution relates the raffle before and after, and
/// the event it emitted: the winner is the roll of the signature's digest,
/// it lies in `1..=tickets_sold`, and the only change to the raffle is the
/// appended "Winner" attribute that records it.
pub open spec fn spec_solve_step(pre: Raffle, post: Raffle, event: RafEvent, sig: Seq<u8>) -> bool {
    &&& event.winner == spec_roll(sha256_of(sig), pre.tickets_sold)
    &&& 1 <= event.winner <= pre.tickets_sold
    &&& post.config == pre.config
    &&& post.tickets_sold == pre.tickets_sold
    &&& post.name == pre.name
    &&& post.uri == pre.uri
    &&& post.attributes@.len() == pre.attributes@.len() + 1
    &&& post.attributes@.subrange(0, pre.attributes@.len() as int) == pre.attributes@
    &&& post.attributes@.last().key@ == "Winner"@
    &&& post.attributes@.last().value@ == spec_u32_string(event.winner as nat)
    &&& spec_lookup_u32(post.attributes@, "Winner"@) == AttrLookup::Found(event.winner)
}

impl Raffle {
    /// Resolve the draw: hash the signature, reduce the digest to a number
    /// in `1..=tickets_sold`, and record it as the "Winner" attribute.
    ///
    /// The caller must first have checked the co-submitted ed25519
    /// instruction with `verify_ed25519_signature`; this method performs the
    /// eligibility checks and the draw itself.
    pub fn solve_raffle(&mut self, current_slot: u64, sig: &Vec<u8>) -> (r: Result<
        RafEvent,
        BeeRafError,
    >)
        ensures
            match r {
                Result::Err(e) => Some(e) == spec_solve_check(*old(self), current_slot)
                    && *final(self) == *old(self),
                Result::Ok(event) => spec_solve_check(*old(self), current_slot) is None
                    && spec_solve_step(*old(self), *final(self), event, sig@),
            },
    {
        if current_slot <= self.config.slot {
            return Err(BeeRafError::StillOpen);
        }
        if self.tickets_sold == 0 {
            return Err(BeeRafError::NoSoldAnyTicket);
        }
        match find_attr(&self.attributes, "Winner") {
            Some(_) => {
                return Err(BeeRafError::AlreadySolved);
            },
            None => {},
        }
        let digest = sha256(sig.as_slice());
        let roll: u32 = roll_from_digest(&digest, self.tickets_sold);
        // The construction bounds the roll already; the range is re-verified
        // defensively all the same.
        if !(roll > 0 && roll <= self.tickets_sold) {
            return Err(BeeRafError::FailedRoll);
        }
        let winner = Attribute { key: String::from_str("Winner"), value: u32_to_string(roll) };
        let ghost before = self.attributes@;
        self.attributes.push(winner);
        proof {
            assert(self.attributes@.subrange(0, before.len() as int) =~= before);
            lemma_find_attr_append(before, "Winner"@, self.attributes@.last());
            lemma_parse_u32_string(roll);
        }
        Ok(RafEvent { winner: roll })
    }
}

impl Raffle {
    /// The full draw resolution as one operation: first hold the
    /// co-submitted ed25519 instruction to this raffle — its one record must
    /// bind the creator's key, the submitted signature bytes, and the raffle
    /// record's canonical serialization — and only then check eligibility,
    /// draw, and record the winner. A signature complaint takes precedence
    /// over an eligibility one, and either leaves the raffle unchanged.
    pub fn solve_raffle_with_entropy(
        &mut self,
        current_slot: u64,
        sig: &Vec<u8>,
        ix_program_id: &Vec<u8>,
        ix_accounts: usize,
        ix_data: &Vec<u8>,
    ) -> (r: Result<RafEvent, BeeRafError>)
        ensures
            ({
                let checked = spec_verify_ed25519(
                    ix_program_id@,
                    ix_accounts as int,
                    ix_data@,
                    old(self).config.authority@,
                    sig@,
                    old(self).config.spec_serialized(),
                );
                match r {
                    Result::Err(e) => *final(self) == *old(self) && (match checked {
                        Result::Err(verify_error) => e == verify_error,
                        Result::Ok(accepted) => Some(e) == spec_solve_check(*old(self), current_slot),
                    }),
                    Result::Ok(event) => {
                        &&& checked is Ok
                        &&& spec_solve_check(*old(self), current_slot) is None
                        &&& spec_solve_step(*old(self), *final(self), event, sig@)
                    },
                }
            }),
    {
        match verify_ed25519_signature(
            ix_program_id,
            ix_accounts,
            ix_data,
            &self.config.authority,
            sig,
            &self.config,
        ) {
            Err(e) => {
                return Err(e);
            },
            Ok(()) => {},
        }
        self.solve_raffle(current_slot, sig)
    }
}

/// What a claim observes and does: both numbers, and the payout that is
/// made exactly when they agree.
#[derive(Clone, Copy, Debug, PartialEq, Eq, Structural)]
pub struct ScratchOutcome {
    pub winner: u32,
    pub ticket_number: u32,
    pub payout: Option<u64>,
}

/// The claim decision over the two attribute lists: read the recorded
/// winner, read the ticket's number, and pay the whole vault balance out if
/// and only if they are equal. A mismatched ticket is not an error.
pub open spec fn spec_scratch(
    raffle_attrs: Seq<Attribute>,
    ticket_attrs: Seq<Attribute>,
    vault_balance: u64,
) -> Result<ScratchOutcome, BeeRafError> {
    match spec_lookup_u32(raffle_attrs, "Winner"@) {
        AttrLookup::Missing => Err(BeeRafError::MissingWinnerAttribute),
        AttrLookup::Unparsable => Err(BeeRafError::NumericalOverflow),
        AttrLookup::Found(winner) => match spec_lookup_u32(ticket_attrs, "Ticket Number"@) {
            AttrLookup::Missing => Err(BeeRafError::MissingWinnerAttribute),
            AttrLookup::Unparsable => Err(BeeRafError::NumericalOverflow),
            AttrLookup::Found(number) => Ok(
                ScratchOutcome {
                    winner,
                    ticket_number: number,
                    payout: if number == winner {
                        Some(vault_balance)
                    } else {
                        None
                    },
                },
            ),
        },
    }
}

impl Raffle {
    /// Check a ticket against the recorded winner. On a match the payout is
    /// the whole vault balance; otherwise the call succeeds with no
    /// transfer. Both numbers are returned for display.
    pub fn scratch_ticket(&self, ticket: &Ticket, vault_balance: u64) -> (r: Result<
        ScratchOutcome,
        BeeRafError,
    >)
        ensures
            r == spec_scratch(self.attributes@, ticket.attributes@, vault_balance),
    {
        let winner = match lookup_u32(&self.attributes, "Winner") {
            AttrLookup::Missing => {
                return Err(BeeRafError::MissingWinnerAttribute);
            },
            AttrLookup::Unparsable => {
                return Err(BeeRafError::NumericalOverflow);
            },
            AttrLookup::Found(winner) => winner,
        };
        let number = match lookup_u32(&ticket.attributes, "Ticket Number") {
            AttrLookup::Missing => {
                return Err(BeeRafError::MissingWinnerAttribute);
            },
            AttrLookup::Unparsable => {
                return Err(BeeRafError::NumericalOverflow);
            },
            AttrLookup::Found(number) => number,
        };
        let payout: Option<u64> = if number == winner {
            Some(vault_balance)
        } else {
            None
        };
        Ok(ScratchOutcome { winner, ticket_number: number, payout })
    }
}

} // verus!
