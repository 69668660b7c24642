use photo_booking::calendar::{Date, TimeOfDay};
use photo_booking::ledger::{BookingError, Ledger, Transition};
use photo_booking::models::BookingStatus::{Cancelled, Completed, Confirmed, New};
use photo_booking::models::{Booking, BookingStatus};

fn day() -> Date {
    Date { year: 2024, month: 5, day: 1 }
}

fn clock(hour: u32, minute: u32) -> TimeOfDay {
    TimeOfDay { hour, minute }
}

fn book(ledger: &mut Ledger, photographer_id: i32, from: u32, until: u32) -> Result<i32, BookingError> {
    ledger.create_booking(1, photographer_id, 1, day(), clock(from, 0), clock(until, 0))
}

#[test]
fn a_booking_gets_the_next_number_and_is_new() {
    let mut ledger = Ledger::new();
    assert_eq!(ledger.create_booking(4, 7, 2, day(), clock(9, 0), clock(11, 0)), Ok(1));
    assert_eq!(book(&mut ledger, 7, 11, 13), Ok(2));
    assert_eq!(
        ledger.find(1),
        Some(Booking {
            id: 1,
            client_id: 4,
            photographer_id: 7,
            service_id: 2,
            date: day(),
            booking_start: clock(9, 0),
            booking_end: clock(11, 0),
            status: BookingStatus::New,
        })
    );
    assert_eq!(ledger.bookings().len(), 2);
}

#[test]
fn an_overlapping_booking_is_refused_at_commit() {
    let mut ledger = Ledger::new();
    assert_eq!(book(&mut ledger, 7, 9, 11), Ok(1));
    assert_eq!(book(&mut ledger, 7, 10, 12), Err(BookingError::SlotTaken));
    assert_eq!(book(&mut ledger, 7, 9, 11), Err(BookingError::SlotTaken));
    assert_eq!(book(&mut ledger, 7, 8, 10), Err(BookingError::SlotTaken));
    assert_eq!(book(&mut ledger, 7, 8, 12), Err(BookingError::SlotTaken));
    assert_eq!(ledger.bookings().len(), 1);
}

#[test]
fn adjacent_bookings_do_not_overlap() {
    let mut ledger = Ledger::new();
    assert_eq!(book(&mut ledger, 7, 9, 11), Ok(1));
    assert_eq!(book(&mut ledger, 7, 11, 13), Ok(2));
    assert_eq!(book(&mut ledger, 7, 7, 9), Ok(3));
}

#[test]
fn other_photographers_and_other_days_are_free() {
    let mut ledger = Ledger::new();
    assert_eq!(book(&mut ledger, 7, 9, 11), Ok(1));
    assert_eq!(book(&mut ledger, 8, 9, 11), Ok(2));
    let tomorrow = Date { year: 2024, month: 5, day: 2 };
    assert_eq!(ledger.create_booking(1, 7, 1, tomorrow, clock(9, 0), clock(11, 0)), Ok(3));
}

#[test]
fn a_cancelled_booking_frees_its_time() {
    let mut ledger = Ledger::new();
    assert_eq!(book(&mut ledger, 7, 9, 11), Ok(1));
    assert_eq!(ledger.cancel(1), Transition::Applied);
    assert_eq!(book(&mut ledger, 7, 9, 11), Ok(2));
    assert!(ledger.check_taken(7, day(), clock(10, 0), clock(10, 30)));
    assert!(!ledger.check_taken(8, day(), clock(10, 0), clock(10, 30)));
}

#[test]
fn a_booking_must_end_after_it_begins() {
    let mut ledger = Ledger::new();
    assert_eq!(book(&mut ledger, 7, 11, 11), Err(BookingError::InvalidInterval));
    assert_eq!(book(&mut ledger, 7, 12, 11), Err(BookingError::InvalidInterval));
    assert_eq!(
        ledger.create_booking(1, 7, 1, day(), clock(9, 60), clock(11, 0)),
        Err(BookingError::InvalidInterval)
    );
    assert_eq!(
        ledger.create_booking(1, 7, 1, day(), clock(23, 0), clock(25, 0)),
        Err(BookingError::InvalidInterval)
    );
    assert_eq!(ledger.create_booking(1, 7, 1, day(), clock(23, 0), clock(24, 0)), Ok(1));
}

fn in_status(status: BookingStatus) -> Ledger {
    let mut ledger = Ledger::new();
    assert_eq!(book(&mut ledger, 7, 9, 11), Ok(1));
    match status {
        BookingStatus::New => {}
        BookingStatus::Confirmed => assert_eq!(ledger.confirm(1), Transition::Applied),
        BookingStatus::Cancelled => assert_eq!(ledger.cancel(1), Transition::Applied),
        BookingStatus::Completed => {
            assert_eq!(ledger.confirm(1), Transition::Applied);
            assert_eq!(ledger.complete(1), Transition::Applied);
        }
    }
    assert_eq!(ledger.find(1).unwrap().status, status);
    ledger
}

#[test]
fn status_moves_only_forward() {
    let all = [New, Confirmed, Completed, Cancelled];
    for from in all {
        for to in all {
            let allowed = matches!(
                (from, to),
                (New, Confirmed) | (New, Cancelled) | (Confirmed, Cancelled) | (Confirmed, Completed)
            );
            assert_eq!(from.may_become(to), allowed);
            let mut ledger = in_status(from);
            let outcome = ledger.transition(1, to);
            let expected = if allowed {
                Transition::Applied
            } else if from == to {
                Transition::Repeated
            } else {
                Transition::Refused
            };
            assert_eq!(outcome, expected, "{:?} -> {:?}", from, to);
            let after = ledger.find(1).unwrap().status;
            assert_eq!(after, if allowed { to } else { from });
        }
    }
}

#[test]
fn repeating_a_move_changes_nothing() {
    let mut ledger = in_status(BookingStatus::New);
    assert_eq!(ledger.confirm(1), Transition::Applied);
    assert_eq!(ledger.confirm(1), Transition::Repeated);
    assert_eq!(ledger.find(1).unwrap().status, BookingStatus::Confirmed);
    assert_eq!(ledger.cancel(1), Transition::Applied);
    assert_eq!(ledger.cancel(1), Transition::Repeated);
    assert_eq!(ledger.complete(1), Transition::Refused);
    assert_eq!(ledger.confirm(1), Transition::Refused);
    assert_eq!(ledger.find(1).unwrap().status, BookingStatus::Cancelled);
}

#[test]
fn a_booking_that_is_not_there_cannot_move() {
    let mut ledger = in_status(BookingStatus::New);
    assert_eq!(ledger.confirm(0), Transition::Missing);
    assert_eq!(ledger.confirm(2), Transition::Missing);
    assert_eq!(ledger.confirm(-1), Transition::Missing);
    assert_eq!(ledger.find(0), None);
    assert_eq!(ledger.find(2), None);
    assert_eq!(ledger.find(1).unwrap().status, BookingStatus::New);
}

#[test]
fn a_move_touches_one_booking_only() {
    let mut ledger = Ledger::new();
    assert_eq!(book(&mut ledger, 7, 9, 11), Ok(1));
    assert_eq!(book(&mut ledger, 7, 11, 13), Ok(2));
    assert_eq!(book(&mut ledger, 8, 9, 11), Ok(3));
    let before = ledger.bookings().clone();
    assert_eq!(ledger.confirm(2), Transition::Applied);
    let after = ledger.bookings();
    assert_eq!(after[0], before[0]);
    assert_eq!(after[2], before[2]);
    assert_eq!(after[1], Booking { status: BookingStatus::Confirmed, ..before[1] });
}

#[test]
fn statuses_have_their_labels() {
    assert_eq!(BookingStatus::New.to_string(), "🆕 Новый");
    assert_eq!(BookingStatus::Confirmed.to_string(), "✅ Подтвержден");
    assert_eq!(BookingStatus::Completed.to_string(), "✅ Выполнен");
    assert_eq!(BookingStatus::Cancelled.to_string(), "❌ Отменен");
}
