use beeraf::attrs::Attribute;
use beeraf::{create_raffle, initialize, BeeRafError, BuyTicketArgs, CreateRaffleArgs, Raffle, RaffleConfig};

fn attr(key: &str, value: &str) -> Attribute {
    Attribute { key: key.to_string(), value: value.to_string() }
}

fn buy_args() -> BuyTicketArgs {
    BuyTicketArgs { name: "Ticket".to_string(), uri: "https://example.org/t.json".to_string() }
}

fn new_raffle(ticket_price: u64, raffle_fee: u64, current_slot: u64, slot_interval: u64) -> Raffle {
    let house = initialize(vec![0x01; 32], 10, 254, 253);
    let args = CreateRaffleArgs {
        name: "Raffle".to_string(),
        uri: "https://example.org/r.json".to_string(),
        ticket_price,
        raffle_fee,
        slot_interval,
    };
    let (raffle, charge) = create_raffle(args, current_slot, vec![0x02; 32], vec![0x03; 32], &house, 255, 252);
    assert_eq!(charge, 10);
    raffle
}

fn expected_roll(sig: &[u8], sold: u32) -> u32 {
    let digest = solana_program::hash::hash(sig).to_bytes();
    let lower = u128::from_le_bytes(digest[0..16].try_into().unwrap());
    let upper = u128::from_le_bytes(digest[16..32].try_into().unwrap());
    (lower.wrapping_add(upper) % sold as u128) as u32 + 1
}

#[test]
fn initialize_records_the_fee() {
    let config = initialize(vec![7; 32], 42, 1, 2);
    assert_eq!(config.fee, 42);
    assert_eq!(config.authority, vec![7; 32]);
    assert_eq!(config.config_bump, 1);
    assert_eq!(config.treasury_bump, 2);
}

#[test]
fn initialize_twice_gives_the_same_config() {
    let first = initialize(vec![7; 32], 42, 1, 2);
    let again = initialize(vec![7; 32], 42, 1, 2);
    assert_eq!(first.authority, again.authority);
    assert_eq!(first.fee, again.fee);
    assert_eq!(first.config_bump, again.config_bump);
    assert_eq!(first.treasury_bump, again.treasury_bump);
}

#[test]
fn create_raffle_sets_deadline_and_capacity() {
    let raffle = new_raffle(100, 1000, 100, 10);
    assert_eq!(raffle.config.slot, 110);
    assert_eq!(raffle.tickets_sold, 0);
    assert_eq!(raffle.attributes.len(), 1);
    assert_eq!(raffle.attributes[0].key, "Capacity");
    assert_eq!(raffle.attributes[0].value, "1000");
}

#[test]
fn buy_ticket_numbers_sequentially() {
    let mut raffle = new_raffle(1000, 500, 100, 10);
    for expected in 1u32..=5 {
        let (ticket, _) = raffle.buy_ticket(buy_args(), 105).unwrap();
        assert_eq!(raffle.tickets_sold, expected);
        assert_eq!(ticket.attributes.len(), 1);
        assert_eq!(ticket.attributes[0].key, "Ticket Number");
        assert_eq!(ticket.attributes[0].value, expected.to_string());
    }
}

#[test]
fn buy_ticket_splits_the_price() {
    // 1000 at 500 bps: 50 to the maker, 950 to the vault.
    let mut raffle = new_raffle(1000, 500, 100, 10);
    let (_, event) = raffle.buy_ticket(buy_args(), 100).unwrap();
    assert_eq!(event.maker_fee, 50);
    assert_eq!(event.vault_earning, 950);
    assert_eq!(event.maker_fee + event.vault_earning, 1000);
}

#[test]
fn buy_ticket_split_is_exact_across_rates() {
    for (price, fee) in [(1000u64, 500u64), (99, 9999), (1, 1), (0, 10000), (7, 0)] {
        let mut raffle = new_raffle(price, fee, 100, 10);
        let (_, event) = raffle.buy_ticket(buy_args(), 100).unwrap();
        assert_eq!(event.maker_fee, price * fee / 10000);
        assert_eq!(event.maker_fee + event.vault_earning, price);
    }
}

#[test]
fn buy_ticket_after_deadline_is_refused() {
    let mut raffle = new_raffle(1000, 500, 100, 10);
    let err = raffle.buy_ticket(buy_args(), 111).map(|_| ()).unwrap_err();
    assert_eq!(err, BeeRafError::TimeExpired);
    assert_eq!(raffle.tickets_sold, 0);
}

#[test]
fn buy_ticket_without_capacity_attribute_is_refused() {
    let mut raffle = new_raffle(1000, 500, 100, 10);
    raffle.attributes.clear();
    let err = raffle.buy_ticket(buy_args(), 100).map(|_| ()).unwrap_err();
    assert_eq!(err, BeeRafError::MissingAttribute);
}

#[test]
fn buy_ticket_with_garbled_capacity_is_refused() {
    let mut raffle = new_raffle(1000, 500, 100, 10);
    raffle.attributes[0].value = "plenty".to_string();
    let err = raffle.buy_ticket(buy_args(), 100).map(|_| ()).unwrap_err();
    assert_eq!(err, BeeRafError::NumericalOverflow);
}

#[test]
fn buy_ticket_at_capacity_is_refused() {
    let mut raffle = new_raffle(1000, 500, 100, 10);
    raffle.attributes[0].value = "2".to_string();
    raffle.buy_ticket(buy_args(), 100).unwrap();
    raffle.buy_ticket(buy_args(), 100).unwrap();
    let err = raffle.buy_ticket(buy_args(), 100).map(|_| ()).unwrap_err();
    assert_eq!(err, BeeRafError::MaximumTicketsReached);
    assert_eq!(raffle.tickets_sold, 2);
}

#[test]
fn solve_before_deadline_is_still_open() {
    let mut raffle = new_raffle(1000, 500, 100, 10);
    raffle.buy_ticket(buy_args(), 100).unwrap();
    let sig = vec![5u8; 64];
    // At the deadline itself the raffle is still open.
    assert_eq!(raffle.solve_raffle(110, &sig).unwrap_err(), BeeRafError::StillOpen);
}

#[test]
fn solve_without_sales_is_refused() {
    let mut raffle = new_raffle(1000, 500, 100, 10);
    let sig = vec![5u8; 64];
    assert_eq!(raffle.solve_raffle(111, &sig).unwrap_err(), BeeRafError::NoSoldAnyTicket);
}

#[test]
fn solve_twice_is_refused() {
    let mut raffle = new_raffle(1000, 500, 100, 10);
    raffle.buy_ticket(buy_args(), 100).unwrap();
    let sig = vec![5u8; 64];
    raffle.solve_raffle(111, &sig).unwrap();
    assert_eq!(raffle.solve_raffle(111, &sig).unwrap_err(), BeeRafError::AlreadySolved);
}

#[test]
fn solve_draws_the_sha256_roll() {
    let mut raffle = new_raffle(1000, 500, 100, 10);
    for _ in 0..3 {
        raffle.buy_ticket(buy_args(), 100).unwrap();
    }
    let sig = vec![0xabu8; 64];
    let event = raffle.solve_raffle(111, &sig).unwrap();
    assert!(1 <= event.winner && event.winner <= 3);
    assert_eq!(event.winner, expected_roll(&sig, 3));
    let last = raffle.attributes.last().unwrap();
    assert_eq!(last.key, "Winner");
    assert_eq!(last.value, event.winner.to_string());
    assert_eq!(raffle.tickets_sold, 3);
}

#[test]
fn solve_depends_on_the_signature_bytes() {
    let sold = 1000u32;
    let mut seen = std::collections::HashSet::new();
    for seed in 0u8..8 {
        let mut raffle = new_raffle(10, 100, 100, 10);
        raffle.attributes[0].value = "2000".to_string();
        for _ in 0..sold {
            raffle.buy_ticket(buy_args(), 100).unwrap();
        }
        let sig = vec![seed; 64];
        let event = raffle.solve_raffle(111, &sig).unwrap();
        assert_eq!(event.winner, expected_roll(&sig, sold));
        seen.insert(event.winner);
    }
    // Different signatures hash to different rolls (with 1000 buckets, eight
    // distinct signatures colliding into one value would mean the digest
    // ignored its input).
    assert!(seen.len() > 1);
}

#[test]
fn scratch_pays_only_the_matching_number() {
    let mut raffle = new_raffle(100, 1000, 100, 10);
    let mut tickets = Vec::new();
    for _ in 0..3 {
        let (ticket, _) = raffle.buy_ticket(buy_args(), 100).unwrap();
        tickets.push(ticket);
    }
    let sig = vec![0x44u8; 64];
    let event = raffle.solve_raffle(111, &sig).unwrap();
    let winner = event.winner;
    let vault = 270u64;
    for (i, ticket) in tickets.iter().enumerate() {
        let outcome = raffle.scratch_ticket(ticket, vault).unwrap();
        assert_eq!(outcome.winner, winner);
        assert_eq!(outcome.ticket_number, i as u32 + 1);
        if outcome.ticket_number == winner {
            assert_eq!(outcome.payout, Some(vault));
        } else {
            assert_eq!(outcome.payout, None);
        }
    }
}

#[test]
fn full_round_from_creation_to_claim() {
    // initialize(fee 10), create at slot 100 with price 100 and 1000 bps,
    // deadline 10 slots ahead, three buyers, then solve and scratch.
    let house = initialize(vec![0x01; 32], 10, 254, 253);
    let args = CreateRaffleArgs {
        name: "Raffle".to_string(),
        uri: "https://example.org/r.json".to_string(),
        ticket_price: 100,
        raffle_fee: 1000,
        slot_interval: 10,
    };
    let maker = vec![0x02u8; 32];
    let (mut raffle, charge) = create_raffle(args, 100, maker.clone(), vec![0x03; 32], &house, 255, 252);
    assert_eq!(charge, 10);
    assert_eq!(raffle.config.slot, 110);

    let mut vault = 0u64;
    let mut tickets = Vec::new();
    for n in 1u32..=3 {
        let (ticket, event) = raffle.buy_ticket(buy_args(), 100 + n as u64).unwrap();
        assert_eq!(event.maker_fee, 10);
        assert_eq!(event.vault_earning, 90);
        vault += event.vault_earning;
        tickets.push(ticket);
    }
    assert_eq!(vault, 270);
    assert_eq!(raffle.tickets_sold, 3);

    // Past the deadline the creator signs the canonical serialization and
    // submits it with the draw.
    let sig = vec![0x77u8; 64];
    let ix_data = ed25519_ix_data(&maker, &sig, &raffle.config.to_slice());
    let program = beeraf::crypto::ed25519_program_id();
    beeraf::verify_ed25519_signature(&program, 0, &ix_data, &maker, &sig, &raffle.config).unwrap();
    let event = raffle.solve_raffle(111, &sig).unwrap();
    assert!((1..=3).contains(&event.winner));
    assert_eq!(event.winner, expected_roll(&sig, 3));

    let outcome = raffle.scratch_ticket(&tickets[1], vault).unwrap();
    assert_eq!(outcome.ticket_number, 2);
    assert_eq!(outcome.winner, event.winner);
    if event.winner == 2 {
        assert_eq!(outcome.payout, Some(270));
    } else {
        assert_eq!(outcome.payout, None);
    }
    // The ticket that does carry the winning number drains the vault.
    let winning = &tickets[(event.winner - 1) as usize];
    assert_eq!(raffle.scratch_ticket(winning, vault).unwrap().payout, Some(270));
}

fn ed25519_ix_data(pubkey: &[u8], sig: &[u8], msg: &[u8]) -> Vec<u8> {
    let mut d = vec![1u8, 0u8];
    d.extend_from_slice(&48u16.to_le_bytes());
    d.extend_from_slice(&u16::MAX.to_le_bytes());
    d.extend_from_slice(&16u16.to_le_bytes());
    d.extend_from_slice(&u16::MAX.to_le_bytes());
    d.extend_from_slice(&112u16.to_le_bytes());
    d.extend_from_slice(&(msg.len() as u16).to_le_bytes());
    d.extend_from_slice(&u16::MAX.to_le_bytes());
    d.extend_from_slice(pubkey);
    d.extend_from_slice(sig);
    d.extend_from_slice(msg);
    d
}

#[test]
fn combined_solve_checks_the_instruction_first() {
    // An unrelated signature instruction is refused before any eligibility
    // check, even though the raffle is also still open.
    let mut raffle = new_raffle(100, 1000, 100, 10);
    raffle.buy_ticket(buy_args(), 100).unwrap();
    let sig = vec![0x77u8; 64];
    let program = beeraf::crypto::ed25519_program_id();
    let maker = raffle.config.authority.clone();
    let mut message = raffle.config.to_slice();
    message[0] ^= 1;
    let data = ed25519_ix_data(&maker, &sig, &message);
    let before = raffle.attributes.len();
    let err = raffle.solve_raffle_with_entropy(105, &sig, &program, 0, &data).unwrap_err();
    assert_eq!(err, BeeRafError::Ed25519Signature);
    assert_eq!(raffle.attributes.len(), before);
}

#[test]
fn combined_solve_accepts_a_bound_instruction() {
    let mut raffle = new_raffle(100, 1000, 100, 10);
    raffle.buy_ticket(buy_args(), 100).unwrap();
    let sig = vec![0x77u8; 64];
    let program = beeraf::crypto::ed25519_program_id();
    let maker = raffle.config.authority.clone();
    let data = ed25519_ix_data(&maker, &sig, &raffle.config.to_slice());
    // Still open through the deadline itself.
    let err = raffle.solve_raffle_with_entropy(110, &sig, &program, 0, &data).unwrap_err();
    assert_eq!(err, BeeRafError::StillOpen);
    let event = raffle.solve_raffle_with_entropy(111, &sig, &program, 0, &data).unwrap();
    assert_eq!(event.winner, expected_roll(&sig, 1));
}

#[test]
fn scratch_before_solving_is_refused() {
    let mut raffle = new_raffle(100, 1000, 100, 10);
    let (ticket, _) = raffle.buy_ticket(buy_args(), 100).unwrap();
    let err = raffle.scratch_ticket(&ticket, 90).map(|_| ()).unwrap_err();
    assert_eq!(err, BeeRafError::MissingWinnerAttribute);
}

#[test]
fn scratch_with_garbled_winner_is_refused() {
    let raffle = Raffle {
        name: "Raffle".to_string(),
        uri: "u".to_string(),
        config: RaffleConfig {
            authority: vec![2; 32],
            collection: vec![3; 32],
            slot: 110,
            ticket_price: 100,
            raffle_fee: 1000,
            raffle_config_bump: 255,
            vault_bump: 252,
        },
        attributes: vec![attr("Winner", "first")],
        tickets_sold: 1,
    };
    let ticket = beeraf::Ticket {
        name: "Ticket".to_string(),
        uri: "u".to_string(),
        attributes: vec![attr("Ticket Number", "1")],
    };
    let err = raffle.scratch_ticket(&ticket, 90).map(|_| ()).unwrap_err();
    assert_eq!(err, BeeRafError::NumericalOverflow);
}
