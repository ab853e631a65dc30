use raffle::{Amount, CollectionRef, Error, Identity, Party, PurseRef, Raffle};

fn identity(tag: u8) -> Identity {
    Identity { hash: [tag; 32] }
}

fn collection() -> CollectionRef {
    CollectionRef { hash: [0xaa; 32] }
}

fn purse(tag: u8) -> PurseRef {
    PurseRef { id: [tag; 32] }
}

fn open_raffle(owner: Identity) -> Raffle {
    let mut raffle = Raffle::new(
        String::from("weekly"),
        0,
        100,
        collection(),
        7,
        Amount::from_u64(10),
        owner,
    );
    let deposit = raffle.deposit(owner, Some(owner));
    assert!(deposit.is_ok());
    raffle
}

#[test]
fn deposit_is_organizer_only_and_needs_approval() {
    let owner = identity(1);
    let stranger = identity(2);
    let mut raffle = Raffle::new(
        String::from("weekly"),
        0,
        100,
        collection(),
        7,
        Amount::from_u64(10),
        owner,
    );
    assert_eq!(raffle.deposit(stranger, Some(stranger)).unwrap_err(), Error::AdminError);
    assert!(raffle.ledger.is_none());
    assert_eq!(raffle.deposit(owner, None).unwrap_err(), Error::NotApproved);
    assert!(raffle.ledger.is_none());
    let request = raffle.deposit(owner, Some(owner)).unwrap();
    assert_eq!(request.contract_hash, collection());
    assert_eq!(request.sender, Party::Account(owner));
    assert_eq!(request.recipient, Party::RaffleContract);
    assert_eq!(request.token_id, 7);
    assert_eq!(raffle.ledger.as_ref().unwrap().count, 0);
}

#[test]
fn a_second_deposit_cannot_wipe_the_ledger() {
    let owner = identity(1);
    let buyer = identity(2);
    let mut raffle = open_raffle(owner);
    assert_eq!(raffle.buy_ticket(buyer, 10), Ok(0));
    assert_eq!(raffle.deposit(owner, Some(owner)).unwrap_err(), Error::FatalError);
    assert_eq!(raffle.ledger.as_ref().unwrap().count, 1);
    assert_eq!(raffle.ledger.as_ref().unwrap().buyers[0], buyer);
}

#[test]
fn get_price_returns_the_recorded_price() {
    let owner = identity(1);
    let raffle = open_raffle(owner);
    assert_eq!(raffle.get_price(), Amount::from_u64(10));
}

#[test]
fn get_purse_mints_once_and_then_repeats_itself() {
    let owner = identity(1);
    let mut raffle = open_raffle(owner);
    let first = raffle.get_purse(purse(1));
    assert_eq!(first, purse(1));
    let second = raffle.get_purse(purse(2));
    assert_eq!(second, purse(1));
}

#[test]
fn end_to_end_scenario() {
    let owner = identity(9);
    let a = identity(1);
    let b = identity(2);
    let c = identity(3);

    let mut raffle = open_raffle(owner);
    let escrow = raffle.get_purse(purse(5));

    assert_eq!(raffle.buy_ticket(a, 10), Ok(0));
    assert_eq!(raffle.buy_ticket(b, 20), Ok(1));
    assert_eq!(raffle.buy_ticket(c, 30), Ok(2));

    let settlement = raffle.draw(owner, 150).unwrap();
    // SHA3-256("150") read big-endian is 16346107626427845396; mod 3 is 0.
    assert_eq!(settlement.winner_index, 0);
    assert_eq!(settlement.purse, escrow);
    assert_eq!(settlement.beneficiary, owner);
    assert_eq!(raffle.winner, Some(0));

    assert_eq!(raffle.claim(b).unwrap_err(), Error::WinnerError);
    assert_eq!(raffle.claim(c).unwrap_err(), Error::WinnerError);
    assert!(!raffle.claimed);

    let handover = raffle.claim(a).unwrap();
    assert_eq!(handover.sender, Party::RaffleContract);
    assert_eq!(handover.recipient, Party::Account(a));
    assert_eq!(handover.token_id, 7);
    assert!(raffle.claimed);
}

#[test]
fn draw_is_admin_only_time_gated_and_single() {
    let owner = identity(1);
    let stranger = identity(2);
    let buyer = identity(3);
    let mut raffle = open_raffle(owner);
    raffle.get_purse(purse(5));
    assert_eq!(raffle.buy_ticket(buyer, 10), Ok(0));

    assert_eq!(raffle.draw(stranger, 150).unwrap_err(), Error::AdminError);
    assert_eq!(raffle.draw(owner, 99).unwrap_err(), Error::TimeError);
    assert!(raffle.winner.is_none());

    assert!(raffle.draw(owner, 150).is_ok());
    assert_eq!(raffle.draw(owner, 160).unwrap_err(), Error::DrawExists);
}

#[test]
fn draw_with_no_tickets_is_refused_not_faulted() {
    let owner = identity(1);
    let mut raffle = open_raffle(owner);
    raffle.get_purse(purse(5));
    assert_eq!(raffle.draw(owner, 150).unwrap_err(), Error::WinnerError);
    assert!(raffle.winner.is_none());
}

#[test]
fn claim_before_any_draw_aborts() {
    let owner = identity(1);
    let buyer = identity(2);
    let mut raffle = open_raffle(owner);
    assert_eq!(raffle.buy_ticket(buyer, 10), Ok(0));
    assert_eq!(raffle.claim(buyer).unwrap_err(), Error::FatalError);
}

#[test]
fn second_claim_by_the_winner_is_refused() {
    let owner = identity(1);
    let winner = identity(2);
    let mut raffle = open_raffle(owner);
    raffle.get_purse(purse(5));
    assert_eq!(raffle.buy_ticket(winner, 10), Ok(0));
    let settlement = raffle.draw(owner, 150).unwrap();
    assert_eq!(settlement.winner_index, 0);
    assert!(raffle.claim(winner).is_ok());
    assert_eq!(raffle.claim(winner).unwrap_err(), Error::WinnerAlreadyExist);
}

#[test]
fn error_codes_are_stable() {
    assert_eq!(Error::FatalError.code(), 0);
    assert_eq!(Error::AdminError.code(), 1);
    assert_eq!(Error::TimeError.code(), 2);
    assert_eq!(Error::WinnerError.code(), 3);
    assert_eq!(Error::NotApproved.code(), 4);
    assert_eq!(Error::CancelError.code(), 5);
    assert_eq!(Error::DrawExists.code(), 6);
    assert_eq!(Error::WinnerAlreadyExist.code(), 7);
}
