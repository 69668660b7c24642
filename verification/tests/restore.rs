use photo_booking::actions::Action;
use photo_booking::calendar::{Date, TimeOfDay};
use photo_booking::callbacks::handle_action;
use photo_booking::clients::ClientRegistry;
use photo_booking::effects::Effect;
use photo_booking::ledger::{Ledger, Transition};
use photo_booking::models::{ArchivedClient, Booking, BookingStatus, Client};
use photo_booking::session::{UserSession, UserStep};
use photo_booking::studio::Studio;

fn booking(id: i32, photographer_id: i32, from: u32, until: u32, status: BookingStatus) -> Booking {
    Booking {
        id,
        client_id: 1,
        photographer_id,
        service_id: 1,
        date: Date { year: 2024, month: 5, day: 1 },
        booking_start: TimeOfDay { hour: from, minute: 0 },
        booking_end: TimeOfDay { hour: until, minute: 0 },
        status,
    }
}

fn client(id: i32, telegram_id: i64) -> Client {
    Client { id, telegram_id, name: format!("client {}", id), username: String::new() }
}

#[test]
fn a_ledger_is_restored_from_what_it_wrote() {
    let rows = vec![
        booking(1, 7, 9, 11, BookingStatus::Cancelled),
        booking(2, 7, 10, 12, BookingStatus::Completed),
        booking(3, 8, 10, 12, BookingStatus::New),
        booking(4, 7, 12, 13, BookingStatus::Confirmed),
    ];
    let mut ledger = Ledger::restore(rows.clone()).unwrap();
    assert_eq!(ledger.bookings(), &rows);
    assert_eq!(ledger.find(2), Some(rows[1]));
    assert_eq!(ledger.complete(4), Transition::Applied);
    let next = ledger.create_booking(1, 7, 1, rows[0].date, rows[0].booking_start, TimeOfDay { hour: 10, minute: 0 });
    assert_eq!(next, Ok(5));
    assert!(Ledger::restore(vec![]).is_some());
}

#[test]
fn a_ledger_refuses_what_it_could_not_have_written() {
    let overlapping = vec![booking(1, 7, 9, 11, BookingStatus::New), booking(2, 7, 10, 12, BookingStatus::Confirmed)];
    assert!(Ledger::restore(overlapping).is_none());
    let later_first = vec![booking(1, 7, 10, 12, BookingStatus::Confirmed), booking(2, 7, 9, 11, BookingStatus::New)];
    assert!(Ledger::restore(later_first).is_none());
    assert!(Ledger::restore(vec![booking(2, 7, 9, 11, BookingStatus::New)]).is_none());
    assert!(Ledger::restore(vec![booking(1, 7, 9, 11, BookingStatus::New), booking(1, 8, 9, 11, BookingStatus::New)]).is_none());
    assert!(Ledger::restore(vec![booking(1, 7, 11, 11, BookingStatus::New)]).is_none());
    assert!(Ledger::restore(vec![booking(1, 7, 9, 25, BookingStatus::Cancelled)]).is_none());
}

#[test]
fn statuses_are_written_as_words() {
    for status in [BookingStatus::New, BookingStatus::Confirmed, BookingStatus::Completed, BookingStatus::Cancelled] {
        assert_eq!(BookingStatus::from_code(status.code()), Some(status));
    }
    assert_eq!(BookingStatus::Cancelled.code(), "cancelled");
    assert_eq!(BookingStatus::from_code("new"), Some(BookingStatus::New));
    assert_eq!(BookingStatus::from_code("New"), None);
    assert_eq!(BookingStatus::from_code(""), None);
    assert_eq!(BookingStatus::from_code("выполнено"), None);
}

#[test]
fn a_registry_is_restored_from_what_it_wrote() {
    let archive = vec![ArchivedClient { telegram_id: 5, name: "Old".to_string(), username: "old".to_string() }];
    let mut registry = ClientRegistry::restore(vec![client(2, 20), client(5, 50)], archive, 7).unwrap();
    assert_eq!(registry.find(50), Some(5));
    assert_eq!(registry.find(5), None);
    assert_eq!(registry.archived().len(), 1);
    assert_eq!(registry.register(60, "New".to_string(), String::new()), Some(8));
    assert_eq!(registry.register(20, "Again".to_string(), String::new()), Some(2));
}

#[test]
fn a_registry_refuses_what_it_could_not_have_written() {
    assert!(ClientRegistry::restore(vec![client(1, 10), client(2, 10)], vec![], 2).is_none());
    assert!(ClientRegistry::restore(vec![client(1, 10), client(1, 20)], vec![], 2).is_none());
    assert!(ClientRegistry::restore(vec![client(3, 10)], vec![], 2).is_none());
    assert!(ClientRegistry::restore(vec![client(0, 10)], vec![], 2).is_none());
    assert!(ClientRegistry::restore(vec![], vec![], -1).is_none());
    assert!(ClientRegistry::restore(vec![], vec![], 0).is_some());
}

#[test]
fn when_the_numbers_run_out_nobody_is_registered() {
    let mut studio = Studio::new();
    studio.clients = ClientRegistry::restore(vec![client(1, 10)], vec![], i32::MAX).unwrap();
    let mut session = UserSession::new();
    session.step = UserStep::Start;
    let today = Date { year: 2024, month: 4, day: 20 };
    assert_eq!(handle_action(&mut session, &mut studio, 99, Action::Agree, today), Effect::RegistrationFailed);
    assert_eq!(session.step, UserStep::Start);
    assert_eq!(session.client_id, None);
    assert!(!session.agreement);
    assert_eq!(studio.clients.clients().len(), 1);
    // the one who is registered is still known
    assert_eq!(handle_action(&mut session, &mut studio, 10, Action::Agree, today), Effect::Registered { client_id: 1 });
}
