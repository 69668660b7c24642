use photo_booking::actions::BookingList;
use photo_booking::calendar::{Date, TimeOfDay};
use photo_booking::keyboard::{Label, Target};
use photo_booking::ledger::Ledger;
use photo_booking::studio::Studio;

fn day(day: u32) -> Date {
    Date { year: 2024, month: 5, day }
}

fn clock(hour: u32, minute: u32) -> TimeOfDay {
    TimeOfDay { hour, minute }
}

/// Bookings 1 to 6; photographer 7 has 1, 2, 3, 5 and 6, of which 2 is confirmed and 5 cancelled.
fn ledger() -> Ledger {
    let mut ledger = Ledger::new();
    let entries = [
        (1, 7, day(3), 14),
        (2, 7, day(1), 9),
        (1, 7, day(3), 9),
        (2, 8, day(2), 9),
        (1, 7, day(2), 16),
        (3, 7, day(1), 11),
    ];
    for (i, (client, photographer, date, hour)) in entries.into_iter().enumerate() {
        let made = ledger.create_booking(client, photographer, 1, date, clock(hour, 0), clock(hour + 1, 30));
        assert_eq!(made, Ok(i as i32 + 1));
    }
    ledger.confirm(2);
    ledger.cancel(5);
    ledger
}

fn ids(ledger: &Ledger, list: BookingList, today: Date, now: TimeOfDay) -> Vec<i32> {
    ledger.photographer_bookings(list, 7, today, now).iter().map(|b| b.id).collect()
}

#[test]
fn all_bookings_begin_with_the_latest() {
    assert_eq!(ids(&ledger(), BookingList::All, day(2), clock(12, 0)), vec![1, 3, 5, 6, 2]);
}

#[test]
fn new_bookings_begin_with_the_earliest() {
    assert_eq!(ids(&ledger(), BookingList::New, day(2), clock(12, 0)), vec![6, 3, 1]);
}

#[test]
fn upcoming_bookings_start_now_or_later() {
    let ledger = ledger();
    assert_eq!(ids(&ledger, BookingList::Upcoming, day(2), clock(12, 0)), vec![5, 3, 1]);
    assert_eq!(ids(&ledger, BookingList::Upcoming, day(2), clock(16, 0)), vec![5, 3, 1]);
    assert_eq!(ids(&ledger, BookingList::Upcoming, day(2), clock(16, 1)), vec![3, 1]);
    assert_eq!(ids(&ledger, BookingList::Upcoming, day(1), clock(0, 0)), vec![2, 6, 5, 3, 1]);
    assert_eq!(ids(&ledger, BookingList::Upcoming, day(3), clock(9, 1)), vec![1]);
    assert_eq!(ids(&ledger, BookingList::Upcoming, day(4), clock(0, 0)), Vec::<i32>::new());
}

#[test]
fn lists_of_others_are_their_own() {
    let ledger = ledger();
    let other: Vec<i32> =
        ledger.photographer_bookings(BookingList::All, 8, day(1), clock(0, 0)).iter().map(|b| b.id).collect();
    assert_eq!(other, vec![4]);
    assert!(ledger.photographer_bookings(BookingList::All, 9, day(1), clock(0, 0)).is_empty());
}

#[test]
fn a_client_sees_the_latest_booking_first() {
    let ledger = ledger();
    let of = |client| -> Vec<i32> { ledger.client_bookings(client).iter().map(|b| b.id).collect() };
    assert_eq!(of(1), vec![1, 3, 5]);
    assert_eq!(of(2), vec![4, 2]);
    assert_eq!(of(3), vec![6]);
    assert_eq!(of(4), Vec::<i32>::new());
}

#[test]
fn bookings_that_start_together_are_ordered_by_number() {
    let mut ledger = Ledger::new();
    for photographer in [7, 8, 9] {
        ledger.create_booking(1, photographer, 1, day(1), clock(9, 0), clock(10, 0)).unwrap();
    }
    let listed: Vec<i32> = ledger.client_bookings(1).iter().map(|b| b.id).collect();
    assert_eq!(listed, vec![3, 2, 1]);
}

#[test]
fn a_page_of_a_photographer_links_to_clients_with_a_handle() {
    let mut studio = Studio::new();
    studio.ledger = ledger();
    studio.clients.register(100, "Anna".to_string(), "anna".to_string());
    studio.clients.register(200, "Boris".to_string(), String::new());
    let shown = studio.photographer_page(BookingList::All, 7, 0, day(1), clock(0, 0));
    let listed: Vec<i32> = shown.rows.iter().map(|b| b.id).collect();
    assert_eq!(listed, vec![1, 3, 5, 6, 2]);
    let page = shown.page.unwrap();
    assert_eq!((page.first, page.last), (0, 3));
    assert_eq!(page.keyboard.len(), 4);
    // bookings 1, 3 and 5 are Anna's
    for row in &page.keyboard[0..3] {
        assert_eq!(row.len(), 2);
        assert_eq!(row[1].label, Label::Contact);
        assert_eq!(row[1].target, Target::Chat { client_id: 1 });
    }
    let next = studio.photographer_page(BookingList::All, 7, 1, day(1), clock(0, 0)).page.unwrap();
    assert_eq!((next.first, next.last), (3, 5));
    // booking 6 is of a client who is not registered, booking 2 of Boris, who has no handle
    assert_eq!(next.keyboard[0].len(), 1);
    assert_eq!(next.keyboard[1].len(), 1);
    assert!(studio.photographer_page(BookingList::All, 7, 2, day(1), clock(0, 0)).page.is_none());
    assert!(studio.check_link(1));
    assert!(!studio.check_link(2));
    assert!(!studio.check_link(3));
}

#[test]
fn a_page_of_a_client_offers_to_cancel() {
    let mut studio = Studio::new();
    studio.ledger = ledger();
    let shown = studio.client_page(1, 0);
    let listed: Vec<i32> = shown.rows.iter().map(|b| b.id).collect();
    assert_eq!(listed, vec![1, 3, 5]);
    let page = shown.page.unwrap();
    // booking 5 is cancelled
    assert_eq!(page.keyboard.len(), 3);
    assert_eq!(page.keyboard[0][0].label, Label::BookingNumber(1));
    assert_eq!(page.keyboard[1][0].label, Label::BookingNumber(3));
    assert!(studio.client_page(1, 1).page.is_none());
    assert!(studio.client_page(9, 0).page.is_none());
    assert!(studio.client_page(9, 0).rows.is_empty());
}
