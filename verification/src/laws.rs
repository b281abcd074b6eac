//! System-wide laws, proved from the operation contracts.

use vstd::prelude::*;
use crate::attrs::AttrLookup;
use crate::ops::{spec_buy_step, spec_maker_fee, spec_solve_step, spec_ticket_number, BPS_DENOMINATOR};
use crate::state::{RafEvent, Raffle, Ticket};

verus! {

proof fn lemma_sold_count_at(states: Seq<Raffle>, tickets: Seq<Ticket>, k: int)
    requires
        states.len() == tickets.len() + 1,
        states[0].tickets_sold == 0,
        forall|i: int|
            0 <= i < tickets.len() ==> #[trigger] spec_buy_step(states[i], states[i + 1], tickets[i]),
        0 <= k < states.len(),
    ensures
        states[k].tickets_sold == k,
    decreases k,
{
    if k > 0 {
        lemma_sold_count_at(states, tickets, k - 1);
        assert(spec_buy_step(states[k - 1], states[k], tickets[k - 1]));
    }
}

/// Across any chain of successful purchases that starts at a fresh raffle,
/// the tickets are numbered exactly `1, 2, …, tickets_sold`, in order of
/// purchase: strictly increasing, with no gap and no repeat, and the counter
/// ends at the number of tickets bought.
pub proof fn lemma_ticket_numbers_sequential(states: Seq<Raffle>, tickets: Seq<Ticket>)
    requires
        states.len() == tickets.len() + 1,
        states[0].tickets_sold == 0,
        forall|i: int|
            0 <= i < tickets.len() ==> #[trigger] spec_buy_step(states[i], states[i + 1], tickets[i]),
    ensures
        states.last().tickets_sold == tickets.len(),
        forall|i: int|
            0 <= i < tickets.len() ==> #[trigger] spec_ticket_number(tickets[i])
                == AttrLookup::Found((i + 1) as u32),
{
    lemma_sold_count_at(states, tickets, states.len() - 1);
    assert forall|i: int| 0 <= i < tickets.len() implies #[trigger] spec_ticket_number(tickets[i])
        == AttrLookup::Found((i + 1) as u32) by {
        lemma_sold_count_at(states, tickets, i + 1);
        assert(spec_buy_step(states[i], states[i + 1], tickets[i]));
    }
}

/// After any chain of successful purchases from a fresh raffle and one
/// successful resolution, exactly one of the sold tickets carries the
/// winning number: the one bought in the winning position. Every other
/// ticket's number differs, so at most one claim can ever pay out.
pub proof fn lemma_exactly_one_winner(
    states: Seq<Raffle>,
    tickets: Seq<Ticket>,
    post: Raffle,
    event: RafEvent,
    sig: Seq<u8>,
)
    requires
        states.len() == tickets.len() + 1,
        states[0].tickets_sold == 0,
        forall|i: int|
            0 <= i < tickets.len() ==> #[trigger] spec_buy_step(states[i], states[i + 1], tickets[i]),
        spec_solve_step(states.last(), post, event, sig),
    ensures
        1 <= event.winner <= tickets.len(),
        spec_ticket_number(tickets[event.winner - 1]) == AttrLookup::Found(event.winner),
        forall|j: int|
            0 <= j < tickets.len() && j != event.winner - 1 ==> #[trigger] spec_ticket_number(
                tickets[j],
            ) != AttrLookup::Found(event.winner),
{
    lemma_ticket_numbers_sequential(states, tickets);
    assert(states.last().tickets_sold == tickets.len());
    assert(spec_ticket_number(tickets[event.winner - 1]) == AttrLookup::Found(
        ((event.winner - 1) + 1) as u32,
    ));
    assert forall|j: int|
        0 <= j < tickets.len() && j != event.winner - 1 implies #[trigger] spec_ticket_number(
        tickets[j],
    ) != AttrLookup::Found(event.winner) by {
        assert(spec_ticket_number(tickets[j]) == AttrLookup::Found((j + 1) as u32));
        assert((j + 1) as u32 != event.winner);
    }
}

/// The price split loses nothing: the maker's cut is between zero and the
/// ticket price, and together with the vault's earning — the remainder — it
/// adds back up to the ticket price, for every price and every fee rate up
/// to the basis-point denominator.
pub proof fn lemma_fee_split(ticket_price: u64, raffle_fee: u64)
    requires
        raffle_fee <= BPS_DENOMINATOR,
    ensures
        0 <= spec_maker_fee(ticket_price, raffle_fee) <= ticket_price,
        spec_maker_fee(ticket_price, raffle_fee) + (ticket_price - spec_maker_fee(
            ticket_price,
            raffle_fee,
        )) == ticket_price,
{
    assert(ticket_price * raffle_fee <= ticket_price * 10000) by (nonlinear_arith)
        requires
            raffle_fee <= 10000,
            ticket_price >= 0,
    ;
    assert((ticket_price * 10000) / 10000 == ticket_price) by (nonlinear_arith);
    vstd::arithmetic::div_mod::lemma_div_is_ordered(
        ticket_price * raffle_fee,
        ticket_price * 10000,
        10000,
    );
    assert(ticket_price * raffle_fee >= 0) by (nonlinear_arith);
    vstd::arithmetic::div_mod::lemma_div_is_ordered(0, ticket_price * raffle_fee, 10000);
}

} // verus!
