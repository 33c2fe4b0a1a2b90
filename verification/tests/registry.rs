use nft_tickets::contract::Contract;
use nft_tickets::error::TicketError;
use nft_tickets::fees::split;
use nft_tickets::internal::{required_cost, settle_deposit, storage_delta, STORAGE_PRICE_PER_BYTE};
use nft_tickets::metadata::TokenMetadata;
use nft_tickets::{might_string, push_str_cleaner};

fn s(x: &str) -> String {
    x.to_string()
}

fn fresh() -> Contract {
    Contract::new_default_meta(s("owner.near"), s("treasury.near"))
}

/// A contract with one event ("Concert") of two categories: VIP (10 seats,
/// price 10_000) and General (5 seats, price 2_000).
fn with_concert() -> Contract {
    let mut c = fresh();
    let ev = c
        .create_event(
            s("alice.near"),
            s("Concert"),
            s("A night of music"),
            1,
            vec![10, 5],
            s("2030-01-01"),
            s("20:00"),
            0,
            s("banner.png"),
            vec![s("VIP"), s("General")],
            vec![s("vip.png"), s("gen.png")],
            vec![10_000, 2_000],
            s("Lisbon"),
            None,
        )
        .unwrap();
    assert_eq!(ev.index, 1);
    c
}

#[test]
fn split_is_exact() {
    assert_eq!(split(10_000), (9_700, 300));
    assert_eq!(split(0), (0, 0));
    assert_eq!(split(33), (33, 0));
    assert_eq!(split(101), (98, 3));
    let (creator, treasury) = split(u128::MAX);
    assert_eq!(creator + treasury, u128::MAX);
    assert_eq!(treasury, u128::MAX / 10_000 * 300 + (u128::MAX % 10_000) * 300 / 10_000);
}

#[test]
fn event_aggregates_capacity() {
    let c = with_concert();
    let ev = c.get_event(1).unwrap();
    assert_eq!(ev.capacity, 15);
    assert_eq!(ev.tickets.len(), 2);
    assert_eq!(ev.tickets[0].token_series_id, "1");
    assert_eq!(ev.tickets[1].token_series_id, "2");
    assert_eq!(ev.tickets[0].metadata.title.as_deref(), Some("Concert - VIP"));
    assert_eq!(ev.tickets[1].metadata.title.as_deref(), Some("Concert - General"));
    assert_eq!(ev.tickets[0].metadata.copies, Some(10));
    assert_eq!(ev.tickets[1].metadata.copies, Some(5));
    assert_eq!(ev.organizer, "alice.near");
    assert_eq!(c.get_events_supply(), 1);
}

#[test]
fn both_series_mint_independently() {
    let mut c = with_concert();
    let first = c.mint_ticket(&s("1"), s("bob.near"), 10_000, 7).unwrap();
    let second = c.mint_ticket(&s("2"), s("carol.near"), 2_000, 8).unwrap();
    assert_eq!(first.token_id, "1 - 1");
    assert_eq!(second.token_id, "2 - 1");
    assert_eq!(c.token_series_by_id[0].tokens.len(), 1);
    assert_eq!(c.token_series_by_id[1].tokens.len(), 1);
    assert!(c.token_series_by_id[0].is_mintable);
    assert!(c.token_series_by_id[1].is_mintable);
}

#[test]
fn mint_splits_price_and_records() {
    let mut c = with_concert();
    let outcome = c.mint_ticket(&s("1"), s("bob.near"), 10_000, 42).unwrap();
    assert_eq!(outcome.creator_account, "alice.near");
    assert_eq!(outcome.creator_amount, 9_700);
    assert_eq!(outcome.treasury_account, "treasury.near");
    assert_eq!(outcome.treasury_amount, 300);
    assert_eq!(outcome.record.standard, "nep171");
    assert_eq!(outcome.record.version, "1.0.0");
    assert_eq!(outcome.record.owner_id, "bob.near");
    assert_eq!(outcome.record.token_ids, vec![s("1 - 1")]);
    assert!(outcome.record.memo.is_none());
    let tok = &c.tokens_by_id[0];
    assert_eq!(tok.token_id, "1 - 1");
    assert_eq!(tok.owner_id, "bob.near");
    assert_eq!(tok.metadata.title.as_deref(), Some("Concert - VIP - 1 - 1"));
    assert_eq!(tok.metadata.issued_at, Some(42));
    assert_eq!(tok.approved_account_ids, vec![(s("alice.near"), 0)]);
    assert_eq!(tok.next_approval_id, 1);
}

#[test]
fn underpaid_mint_changes_nothing() {
    let mut c = with_concert();
    let r = c.mint_ticket(&s("1"), s("bob.near"), 9_999, 7);
    assert_eq!(r.unwrap_err(), TicketError::InsufficientPayment);
    assert_eq!(c.tokens_by_id.len(), 0);
    assert_eq!(c.token_series_by_id[0].tokens.len(), 0);
    assert!(c.token_series_by_id[0].is_mintable);
}

#[test]
fn unknown_series_is_not_found() {
    let mut c = with_concert();
    assert_eq!(
        c.mint_ticket(&s("9"), s("bob.near"), 10_000, 7).unwrap_err(),
        TicketError::NotFound
    );
    assert_eq!(
        c.mint_ticket(&s("01"), s("bob.near"), 10_000, 7).unwrap_err(),
        TicketError::NotFound
    );
}

#[test]
fn single_copy_series_exhausts() {
    let mut c = fresh();
    c.create_event(
        s("alice.near"),
        s("Premiere"),
        s("One seat only"),
        0,
        vec![1],
        s("2030-02-02"),
        s("21:00"),
        0,
        s("b.png"),
        vec![s("Front")],
        vec![s("f.png")],
        vec![500],
        s("Porto"),
        None,
    )
    .unwrap();
    let first = c.mint_ticket(&s("1"), s("bob.near"), 500, 1).unwrap();
    assert_eq!(first.token_id, "1 - 1");
    assert!(!c.token_series_by_id[0].is_mintable);
    let again = c.mint_ticket(&s("1"), s("bob.near"), 500, 2);
    assert_eq!(again.unwrap_err(), TicketError::NotMintable);
    assert_eq!(c.token_series_by_id[0].tokens.len(), 1);
    assert_eq!(c.tokens_by_id.len(), 1);
}

#[test]
fn event_summary_is_a_snapshot() {
    let mut c = fresh();
    c.create_event(
        s("alice.near"),
        s("Premiere"),
        s("One seat only"),
        0,
        vec![1],
        s("2030-02-02"),
        s("21:00"),
        0,
        s("b.png"),
        vec![s("Front")],
        vec![s("f.png")],
        vec![500],
        s("Porto"),
        None,
    )
    .unwrap();
    c.mint_ticket(&s("1"), s("bob.near"), 500, 1).unwrap();
    assert!(!c.token_series_by_id[0].is_mintable);
    // the summary stored with the event still shows the state at creation
    assert!(c.get_event(1).unwrap().tickets[0].is_mintable);
    // the live pagination shows the state now
    assert!(!c.get_event_tickets(None, None).unwrap()[0].is_mintable);
}

#[test]
fn token_ids_stay_unique_across_series() {
    let mut c = with_concert();
    let mut seen = Vec::new();
    for t in 0..3 {
        seen.push(c.mint_ticket(&s("1"), s("bob.near"), 10_000, t).unwrap().token_id);
        seen.push(c.mint_ticket(&s("2"), s("carol.near"), 2_000, t).unwrap().token_id);
    }
    for p in 0..seen.len() {
        for q in (p + 1)..seen.len() {
            assert_ne!(seen[p], seen[q]);
        }
    }
    assert_eq!(seen[4], "1 - 3");
    assert_eq!(seen[5], "2 - 3");
}

#[test]
fn update_event_by_stranger_is_refused() {
    let mut c = with_concert();
    let before = c.get_event(1).unwrap();
    let r = c.update_event(&s("mallory.near"), 1, s("x"), s("y.png"), 9, s("2031-01-01"));
    assert_eq!(r.unwrap_err(), TicketError::Unauthorized);
    let after = c.get_event(1).unwrap();
    assert_eq!(after.name, before.name);
    assert_eq!(after.description, before.description);
    assert_eq!(after.banner, before.banner);
    assert_eq!(after.status, before.status);
    assert_eq!(after.date, before.date);
    assert_eq!(after.time, before.time);
    assert_eq!(after.location, before.location);
    assert_eq!(after.capacity, before.capacity);
    assert_eq!(after.organizer, before.organizer);
}

#[test]
fn update_event_by_organizer_changes_four_fields() {
    let mut c = with_concert();
    let updated = c
        .update_event(&s("alice.near"), 1, s("New words"), s("new.png"), 2, s("2031-06-06"))
        .unwrap();
    assert_eq!(updated.description, "New words");
    assert_eq!(updated.banner, "new.png");
    assert_eq!(updated.status, 2);
    assert_eq!(updated.date, "2031-06-06");
    assert_eq!(updated.name, "Concert");
    assert_eq!(updated.time, "20:00");
    assert_eq!(updated.location, "Lisbon");
    assert_eq!(updated.capacity, 15);
    assert_eq!(
        c.update_event(&s("alice.near"), 2, s("a"), s("b"), 0, s("c")).unwrap_err(),
        TicketError::NotFound
    );
}

#[test]
fn royalty_table_too_large_is_refused() {
    let mut c = fresh();
    let royalties: Vec<(String, u32)> =
        (0..7).map(|i| (format!("r{}.near", i), 100)).collect();
    let r = c.create_event(
        s("alice.near"),
        s("Gala"),
        s("d"),
        0,
        vec![2],
        s("2030-03-03"),
        s("19:00"),
        0,
        s("b.png"),
        vec![s("Seat")],
        vec![s("s.png")],
        vec![100],
        s("Faro"),
        Some(royalties),
    );
    assert_eq!(r.unwrap_err(), TicketError::Validation);
    assert_eq!(c.get_events_supply(), 0);
    assert_eq!(c.token_series_by_id.len(), 0);
}

#[test]
fn royalty_table_is_snapshotted_per_token() {
    let mut c = fresh();
    c.create_event(
        s("alice.near"),
        s("Gala"),
        s("d"),
        0,
        vec![2],
        s("2030-03-03"),
        s("19:00"),
        0,
        s("b.png"),
        vec![s("Seat")],
        vec![s("s.png")],
        vec![100],
        s("Faro"),
        Some(vec![(s("r1.near"), 250), (s("r2.near"), 500)]),
    )
    .unwrap();
    c.mint_ticket(&s("1"), s("bob.near"), 100, 5).unwrap();
    assert_eq!(c.tokens_by_id[0].royalty, vec![(s("r1.near"), 250), (s("r2.near"), 500)]);
}

#[test]
fn get_event_unknown_index_fails() {
    let c = with_concert();
    assert_eq!(c.get_event(0).unwrap_err(), TicketError::NotFound);
    assert_eq!(c.get_event(2).unwrap_err(), TicketError::NotFound);
    assert_eq!(c.get_event(-3).unwrap_err(), TicketError::NotFound);
}

#[test]
fn get_events_pages_tolerantly() {
    let mut c = fresh();
    for n in 0..3 {
        c.create_event(
            s("alice.near"),
            format!("Event {}", n),
            s("d"),
            0,
            vec![1],
            s("2030-01-01"),
            s("12:00"),
            0,
            s("b.png"),
            vec![s("Seat")],
            vec![s("s.png")],
            vec![10],
            s("Braga"),
            None,
        )
        .unwrap();
    }
    let all = c.get_events(None, None);
    assert_eq!(all.len(), 3);
    assert_eq!(all[0].name, "Event 0");
    assert_eq!(all[2].name, "Event 2");
    let page = c.get_events(Some(1), Some(1));
    assert_eq!(page.len(), 1);
    assert_eq!(page[0].name, "Event 1");
    assert_eq!(c.get_events(Some(7), None).len(), 0);
    assert_eq!(c.get_events(Some(0), Some(0)).len(), 0);
}

#[test]
fn ticket_pagination_bounds() {
    let c = with_concert();
    assert_eq!(
        c.get_event_tickets(Some(2), None).unwrap_err(),
        TicketError::OutOfBounds
    );
    assert_eq!(
        c.get_event_tickets(Some(99), Some(1)).unwrap_err(),
        TicketError::OutOfBounds
    );
    assert_eq!(
        c.get_event_tickets(None, Some(0)).unwrap_err(),
        TicketError::InvalidLimit
    );
    let page = c.get_event_tickets(Some(1), Some(10)).unwrap();
    assert_eq!(page.len(), 1);
    assert_eq!(page[0].token_series_id, "2");
    let all = c.get_event_tickets(None, None).unwrap();
    assert_eq!(all.len(), 2);
    assert_eq!(all[0].token_series_id, "1");
    assert_eq!(all[0].price, Some(10_000));
}

#[test]
fn storage_accounting_settles() {
    assert_eq!(storage_delta(100, 140), 40);
    assert_eq!(storage_delta(140, 100), 0);
    assert_eq!(required_cost(2), 2 * STORAGE_PRICE_PER_BYTE);
    let price = 10_000u128;
    let cost = required_cost(3);
    assert_eq!(settle_deposit(price + cost + 5, price, 3), Ok(5));
    assert_eq!(settle_deposit(price + cost, price, 3), Ok(0));
    assert_eq!(
        settle_deposit(price + cost - 1, price, 3),
        Err(TicketError::InsufficientPayment)
    );
    assert_eq!(settle_deposit(1, price, 0), Err(TicketError::InsufficientPayment));
}

#[test]
fn string_helpers() {
    assert_eq!(might_string(Some(s("abc"))), "abc");
    assert_eq!(might_string(None), "");
    assert_eq!(
        push_str_cleaner(s("Concert"), vec![" - ", "VIP"]),
        "Concert - VIP"
    );
    assert_eq!(push_str_cleaner(s(""), vec![]), "");
}

#[test]
fn supply_never_exceeds_copies() {
    let mut c = fresh();
    c.create_event(
        s("alice.near"),
        s("Duo"),
        s("d"),
        0,
        vec![2],
        s("2030-05-05"),
        s("18:00"),
        0,
        s("b.png"),
        vec![s("Pair")],
        vec![s("p.png")],
        vec![50],
        s("Evora"),
        None,
    )
    .unwrap();
    assert!(c.mint_ticket(&s("1"), s("bob.near"), 50, 1).is_ok());
    assert!(c.token_series_by_id[0].is_mintable);
    assert!(c.mint_ticket(&s("1"), s("bob.near"), 50, 2).is_ok());
    assert!(!c.token_series_by_id[0].is_mintable);
    assert_eq!(c.token_series_by_id[0].tokens.len(), 2);
    assert_eq!(
        c.mint_ticket(&s("1"), s("bob.near"), 50, 3).unwrap_err(),
        TicketError::NotMintable
    );
    assert_eq!(c.token_series_by_id[0].tokens.len(), 2);
}

#[test]
fn contract_starts_with_default_metadata() {
    let c = fresh();
    assert_eq!(c.metadata.spec_version, "1.0.0");
    assert_eq!(c.metadata.name, "NEAR Future Tickets Marketplace");
    assert_eq!(c.metadata.symbol, "NEAR Future Tickets");
    assert!(c.metadata.icon.is_none());
    assert_eq!(c.owner_id, "owner.near");
    assert_eq!(c.treasury, "treasury.near");
    assert_eq!(c.get_events_supply(), 0);
}

#[test]
fn priceless_series_cannot_be_sold() {
    let mut c = fresh();
    let md = TokenMetadata {
        title: Some(s("Free pass")),
        description: None,
        media: None,
        media_hash: None,
        copies: Some(3),
        issued_at: None,
        expires_at: None,
        starts_at: None,
        updated_at: None,
        extra: None,
        reference: None,
        reference_hash: None,
    };
    let id = c.create_series(md, s("alice.near"), None, &vec![]).unwrap();
    assert_eq!(id, "1");
    assert_eq!(
        c.mint_ticket(&s("1"), s("bob.near"), 1_000, 1).unwrap_err(),
        TicketError::NotMintable
    );
    assert_eq!(c.tokens_by_id.len(), 0);
    assert_eq!(c.token_series_by_id[0].tokens.len(), 0);
}

#[test]
fn create_series_rejects_large_royalty_table() {
    let mut c = fresh();
    let md = TokenMetadata {
        title: None,
        description: None,
        media: None,
        media_hash: None,
        copies: Some(1),
        issued_at: None,
        expires_at: None,
        starts_at: None,
        updated_at: None,
        extra: None,
        reference: None,
        reference_hash: None,
    };
    let royalties: Vec<(String, u32)> =
        (0..7).map(|i| (format!("r{}.near", i), 100)).collect();
    assert_eq!(
        c.create_series(md, s("alice.near"), Some(5), &royalties).unwrap_err(),
        TicketError::Validation
    );
    assert_eq!(c.token_series_by_id.len(), 0);
}

#[test]
fn default_event_page_holds_fifty() {
    let mut c = fresh();
    for n in 0..52u32 {
        c.create_event(
            s("alice.near"),
            format!("Event {}", n),
            s("d"),
            0,
            vec![1],
            s("2030-01-01"),
            s("12:00"),
            0,
            s("b.png"),
            vec![s("Seat")],
            vec![s("s.png")],
            vec![10],
            s("Braga"),
            None,
        )
        .unwrap();
    }
    let page = c.get_events(None, None);
    assert_eq!(page.len(), 50);
    assert_eq!(page[49].name, "Event 49");
    let rest = c.get_events(Some(50), None);
    assert_eq!(rest.len(), 2);
    assert_eq!(rest[1].index, 52);
}

#[test]
fn error_messages_name_the_cause() {
    assert_eq!(TicketError::SupplyExhausted.message(), "Series supply maxed");
    assert_eq!(TicketError::NotMintable.message(), "Token series is not mintable");
    assert_eq!(TicketError::InvalidLimit.message(), "Cannot provide limit of 0");
}

#[test]
fn zero_capacity_series_is_exhausted_from_the_start() {
    let mut c = fresh();
    c.create_event(
        s("alice.near"),
        s("Ghost show"),
        s("No seats at all"),
        0,
        vec![0],
        s("2030-04-04"),
        s("22:00"),
        0,
        s("b.png"),
        vec![s("None")],
        vec![s("n.png")],
        vec![10],
        s("Sintra"),
        None,
    )
    .unwrap();
    assert_eq!(c.get_event(1).unwrap().capacity, 0);
    // the flag alone does not block this series; the supply re-check does
    assert!(c.token_series_by_id[0].is_mintable);
    assert_eq!(
        c.mint_ticket(&s("1"), s("bob.near"), 10, 1).unwrap_err(),
        TicketError::SupplyExhausted
    );
    assert_eq!(c.token_series_by_id[0].tokens.len(), 0);
}
