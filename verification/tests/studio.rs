use photo_booking::availability::Slot;
use photo_booking::calendar::{Date, TimeOfDay};
use photo_booking::models::{Photographer, PhotographerService, Service};
use photo_booking::studio::Studio;

fn day() -> Date {
    Date { year: 2024, month: 5, day: 1 }
}

fn slot(start_hour: i64, end_hour: i64) -> Slot {
    Slot { start_hour, end_hour }
}

fn clock(hour: u32) -> TimeOfDay {
    TimeOfDay { hour, minute: 0 }
}

/// Two photographers who offer service 1 (two hours); the second also offers service 2 (45 minutes).
fn studio() -> Studio {
    let mut studio = Studio::new();
    studio.photographers.push(Photographer { id: 1, telegram_id: Some(501), name: "Vera".to_string() });
    studio.photographers.push(Photographer { id: 2, telegram_id: None, name: "Gleb".to_string() });
    studio.services.push(Service { id: 1, name: "Portrait".to_string(), cost: 5000, duration: 120 });
    studio.services.push(Service { id: 2, name: "Passport".to_string(), cost: 900, duration: 45 });
    studio.offers.push(PhotographerService { id: 1, photographer_id: 1, service_id: 1 });
    studio.offers.push(PhotographerService { id: 2, photographer_id: 2, service_id: 1 });
    studio.offers.push(PhotographerService { id: 3, photographer_id: 2, service_id: 2 });
    studio
}

#[test]
fn working_hours_are_written_once_per_day() {
    let mut studio = studio();
    assert_eq!(studio.get_working_hours(1, day()), None);
    studio.save_working_hours(1, day(), 9, 18);
    assert_eq!(studio.get_working_hours(1, day()), Some((9, 18)));
    studio.save_working_hours(1, day(), 10, 14);
    assert_eq!(studio.get_working_hours(1, day()), Some((10, 14)));
    assert_eq!(studio.hours.len(), 1);
    studio.save_working_hours(2, day(), 8, 20);
    studio.save_working_hours(1, Date { year: 2024, month: 5, day: 2 }, 8, 20);
    assert_eq!(studio.hours.len(), 3);
    assert_eq!(studio.get_working_hours(1, day()), Some((10, 14)));
    assert_eq!(studio.get_working_hours(2, day()), Some((8, 20)));
}

#[test]
fn free_slots_need_service_and_working_hours() {
    let mut studio = studio();
    assert_eq!(studio.get_free_slots(1, 1, day()), vec![]);
    studio.save_working_hours(1, day(), 9, 13);
    assert_eq!(studio.get_free_slots(1, 1, day()), vec![slot(9, 11), slot(10, 12), slot(11, 13)]);
    assert_eq!(studio.get_free_slots(1, 99, day()), vec![]);
    assert_eq!(studio.get_free_slots(2, 1, day()), vec![]);
    assert_eq!(studio.get_free_slots(1, 2, day()), vec![slot(9, 10), slot(10, 11), slot(11, 12), slot(12, 13)]);
}

#[test]
fn free_slots_leave_out_what_is_booked() {
    let mut studio = studio();
    studio.save_working_hours(1, day(), 9, 15);
    assert_eq!(studio.ledger.create_booking(1, 1, 1, day(), clock(11), clock(13)), Ok(1));
    assert_eq!(studio.get_free_slots(1, 1, day()), vec![slot(9, 11), slot(13, 15)]);
    studio.ledger.cancel(1);
    assert_eq!(studio.get_free_slots(1, 1, day()).len(), 5);
}

#[test]
fn any_photographer_shows_the_union_of_slots() {
    let mut studio = studio();
    studio.save_working_hours(1, day(), 9, 11);
    studio.save_working_hours(2, day(), 10, 12);
    assert_eq!(studio.get_free_slots(1, 1, day()), vec![slot(9, 11)]);
    assert_eq!(studio.get_free_slots(2, 1, day()), vec![slot(10, 12)]);
    assert_eq!(studio.get_available_photographers(1, day()), vec![slot(9, 11), slot(10, 12)]);
}

#[test]
fn any_photographer_shows_a_shared_slot_once() {
    let mut studio = studio();
    studio.save_working_hours(1, day(), 9, 12);
    studio.save_working_hours(2, day(), 9, 12);
    assert_eq!(studio.get_available_photographers(1, day()), vec![slot(9, 11), slot(10, 12)]);
    // a slot stays while one of the two is free at it
    assert_eq!(studio.ledger.create_booking(1, 1, 1, day(), clock(9), clock(12)), Ok(1));
    assert_eq!(studio.get_available_photographers(1, day()), vec![slot(9, 11), slot(10, 12)]);
    assert_eq!(studio.ledger.create_booking(1, 2, 1, day(), clock(9), clock(11)), Ok(2));
    assert_eq!(studio.get_available_photographers(1, day()), vec![]);
}

#[test]
fn any_photographer_skips_who_does_not_work_or_offer() {
    let mut studio = studio();
    studio.save_working_hours(1, day(), 0, 3);
    studio.save_working_hours(2, day(), 10, 12);
    // photographer 1 has a row, but its start is not positive: no working day
    assert_eq!(studio.get_available_photographers(1, day()), vec![slot(10, 12)]);
    assert_eq!(studio.get_available_photographers(2, day()), vec![slot(10, 11), slot(11, 12)]);
    assert_eq!(studio.get_available_photographers(3, day()), vec![]);
}

#[test]
fn the_first_photographer_with_a_free_slot_is_assigned() {
    let mut studio = studio();
    assert_eq!(studio.find_available_photographer(1, day()), None);
    studio.save_working_hours(2, day(), 10, 12);
    assert_eq!(studio.find_available_photographer(1, day()), Some(2));
    studio.save_working_hours(1, day(), 9, 11);
    assert_eq!(studio.find_available_photographer(1, day()), Some(1));
    assert_eq!(studio.ledger.create_booking(1, 1, 1, day(), clock(9), clock(11)), Ok(1));
    assert_eq!(studio.find_available_photographer(1, day()), Some(2));
    assert_eq!(studio.find_available_photographer(2, day()), Some(2));
    assert_eq!(studio.find_available_photographer(3, day()), None);
}

#[test]
fn a_day_is_a_working_day_with_positive_hours() {
    let mut studio = studio();
    assert!(!studio.check_working_day(Some(1), day()));
    assert!(!studio.check_working_day(None, day()));
    studio.save_working_hours(1, day(), 0, 18);
    assert!(!studio.check_working_day(Some(1), day()));
    assert!(!studio.check_any_photographer_available(day()));
    studio.save_working_hours(1, day(), 9, 0);
    assert!(!studio.check_working_day(Some(1), day()));
    studio.save_working_hours(1, day(), 9, 18);
    assert!(studio.check_working_day(Some(1), day()));
    assert!(studio.check_working_day(None, day()));
    assert!(!studio.check_working_day(Some(2), day()));
    assert!(!studio.check_working_day(None, Date { year: 2024, month: 5, day: 2 }));
}

#[test]
fn only_those_who_offer_something_count_for_any_photographer() {
    let mut studio = studio();
    studio.save_working_hours(9, day(), 9, 18);
    assert!(studio.check_working_day(Some(9), day()));
    assert!(!studio.check_any_photographer_available(day()));
}

#[test]
fn people_are_found_by_their_chat() {
    let mut studio = studio();
    assert_eq!(studio.check_photographer(501), Some(1));
    assert_eq!(studio.check_photographer(502), None);
    assert_eq!(studio.check_client(501), None);
    assert_eq!(studio.clients.register(700, "Anna".to_string(), "anna".to_string()), Some(1));
    assert_eq!(studio.check_client(700), Some(1));
    assert_eq!(studio.notify_client(1), Some(700));
    assert_eq!(studio.notify_client(2), None);
    assert_eq!(studio.notify_photographer(1), Some(501));
    assert_eq!(studio.notify_photographer(2), None);
    assert_eq!(studio.notify_photographer(3), None);
    assert_eq!(studio.service_duration(2), Some(45));
    assert_eq!(studio.service_duration(3), None);
}
