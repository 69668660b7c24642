use photo_booking::availability::{
    check_hour_free, free_slots, hours_for, insert_slot, merge_slots, render_hour, Slot,
};
use photo_booking::calendar::{Date, TimeOfDay};
use photo_booking::models::{Booking, BookingStatus};

fn day() -> Date {
    Date { year: 2024, month: 5, day: 1 }
}

fn booking(id: i32, photographer_id: i32, from: (u32, u32), until: (u32, u32), status: BookingStatus) -> Booking {
    Booking {
        id,
        client_id: 1,
        photographer_id,
        service_id: 1,
        date: day(),
        booking_start: TimeOfDay { hour: from.0, minute: from.1 },
        booking_end: TimeOfDay { hour: until.0, minute: until.1 },
        status,
    }
}

fn slot(start_hour: i64, end_hour: i64) -> Slot {
    Slot { start_hour, end_hour }
}

#[test]
fn free_slots_of_an_empty_day_cover_the_window() {
    let slots = free_slots(9, 13, 120, &vec![], 7, day());
    assert_eq!(slots, vec![slot(9, 11), slot(10, 12), slot(11, 13)]);
}

#[test]
fn free_slots_of_an_empty_day_count_every_start_hour() {
    for (start, end, minutes, expected) in [(8, 20, 60, 12usize), (8, 20, 90, 11), (10, 18, 480, 1), (10, 18, 481, 0)] {
        let slots = free_slots(start, end, minutes, &vec![], 1, day());
        assert_eq!(slots.len(), expected);
        for (i, found) in slots.iter().enumerate() {
            assert_eq!(found.start_hour, start as i64 + i as i64);
            assert_eq!(found.end_hour - found.start_hour, hours_for(minutes));
            assert!(found.end_hour <= end as i64);
        }
    }
}

#[test]
fn a_window_shorter_than_the_service_has_no_slot() {
    assert_eq!(free_slots(9, 10, 120, &vec![], 7, day()), vec![]);
    assert_eq!(free_slots(12, 9, 60, &vec![], 7, day()), vec![]);
}

#[test]
fn a_window_as_long_as_the_service_has_one_slot() {
    assert_eq!(free_slots(9, 11, 120, &vec![], 7, day()), vec![slot(9, 11)]);
}

#[test]
fn duration_is_rounded_up_to_whole_hours() {
    assert_eq!(hours_for(1), 1);
    assert_eq!(hours_for(59), 1);
    assert_eq!(hours_for(60), 1);
    assert_eq!(hours_for(61), 2);
    assert_eq!(hours_for(120), 2);
    assert_eq!(hours_for(121), 3);
    assert_eq!(hours_for(0), 0);
    assert_eq!(hours_for(-1), 0);
    assert_eq!(hours_for(-60), -1);
    assert_eq!(hours_for(-61), -1);
    assert_eq!(hours_for(i32::MAX), 35791395);
    assert_eq!(hours_for(i32::MIN), -35791394);
}

#[test]
fn a_booking_excludes_exactly_the_slots_it_overlaps() {
    let bookings = vec![booking(1, 7, (11, 0), (13, 0), BookingStatus::New)];
    let slots = free_slots(8, 16, 120, &bookings, 7, day());
    // 10-12, 11-13 and 12-14 touch the booking; 9-11 ends as it begins, 13-15 begins as it ends
    assert_eq!(slots, vec![slot(8, 10), slot(9, 11), slot(13, 15), slot(14, 16)]);
}

#[test]
fn overlap_is_half_open_on_both_sides() {
    let bookings = vec![booking(1, 7, (10, 0), (11, 0), BookingStatus::Confirmed)];
    assert!(check_hour_free(&bookings, 7, day(), 9, 1));
    assert!(!check_hour_free(&bookings, 7, day(), 10, 1));
    assert!(check_hour_free(&bookings, 7, day(), 11, 1));
    assert!(!check_hour_free(&bookings, 7, day(), 9, 2));
    assert!(!check_hour_free(&bookings, 7, day(), 10, 2));
    assert!(check_hour_free(&bookings, 7, day(), i64::MAX, i64::MAX));
    assert!(check_hour_free(&bookings, 7, day(), i64::MIN, i64::MAX));
    assert!(!check_hour_free(&bookings, 7, day(), -1000, 2000));
}

#[test]
fn a_booking_of_some_minutes_blocks_the_hours_it_reaches_into() {
    let bookings = vec![booking(1, 7, (10, 30), (11, 15), BookingStatus::New)];
    let slots = free_slots(9, 13, 60, &bookings, 7, day());
    assert_eq!(slots, vec![slot(9, 10), slot(12, 13)]);
}

#[test]
fn cancelled_bookings_do_not_block() {
    let bookings = vec![booking(1, 7, (9, 0), (13, 0), BookingStatus::Cancelled)];
    assert_eq!(free_slots(9, 13, 120, &bookings, 7, day()).len(), 3);
}

#[test]
fn completed_bookings_still_block() {
    let bookings = vec![booking(1, 7, (9, 0), (13, 0), BookingStatus::Completed)];
    assert_eq!(free_slots(9, 13, 120, &bookings, 7, day()), vec![]);
}

#[test]
fn bookings_of_others_and_of_other_days_do_not_block() {
    let mut elsewhere = booking(2, 7, (9, 0), (13, 0), BookingStatus::New);
    elsewhere.date = Date { year: 2024, month: 5, day: 2 };
    let bookings = vec![booking(1, 8, (9, 0), (13, 0), BookingStatus::New), elsewhere];
    assert_eq!(free_slots(9, 13, 120, &bookings, 7, day()).len(), 3);
}

#[test]
fn slots_come_in_ascending_order_without_gaps_filled() {
    let bookings = vec![
        booking(1, 7, (14, 0), (15, 0), BookingStatus::New),
        booking(2, 7, (9, 0), (10, 0), BookingStatus::Confirmed),
    ];
    let slots = free_slots(8, 17, 60, &bookings, 7, day());
    let starts: Vec<i64> = slots.iter().map(|s| s.start_hour).collect();
    assert_eq!(starts, vec![8, 10, 11, 12, 13, 15, 16]);
}

#[test]
fn merging_two_photographers_gives_the_sorted_union_once() {
    let merged = merge_slots(&vec![vec![slot(9, 11)], vec![slot(10, 12)]]);
    assert_eq!(merged, vec![slot(9, 11), slot(10, 12)]);
    let labels: Vec<String> = merged.iter().map(|s| s.label()).collect();
    assert_eq!(labels, vec!["09:00-11:00".to_string(), "10:00-12:00".to_string()]);
}

#[test]
fn merging_collapses_equal_slots_of_different_photographers() {
    let merged = merge_slots(&vec![
        vec![slot(10, 12), slot(11, 13)],
        vec![slot(9, 11), slot(10, 12)],
        vec![],
        vec![slot(11, 13)],
    ]);
    assert_eq!(merged, vec![slot(9, 11), slot(10, 12), slot(11, 13)]);
}

#[test]
fn merging_nothing_gives_nothing() {
    assert_eq!(merge_slots(&vec![]), vec![]);
    assert_eq!(merge_slots(&vec![vec![], vec![]]), vec![]);
}

#[test]
fn insert_slot_keeps_the_order_and_skips_what_is_there() {
    let mut list = vec![slot(9, 10), slot(11, 12)];
    insert_slot(&mut list, slot(10, 11));
    assert_eq!(list, vec![slot(9, 10), slot(10, 11), slot(11, 12)]);
    insert_slot(&mut list, slot(10, 11));
    assert_eq!(list.len(), 3);
    insert_slot(&mut list, slot(8, 9));
    insert_slot(&mut list, slot(12, 13));
    insert_slot(&mut list, slot(10, 12));
    assert_eq!(
        list,
        vec![slot(8, 9), slot(9, 10), slot(10, 11), slot(10, 12), slot(11, 12), slot(12, 13)]
    );
}

#[test]
fn slot_labels_have_two_digit_hours() {
    assert_eq!(slot(9, 11).label(), "09:00-11:00");
    assert_eq!(slot(0, 1).label(), "00:00-01:00");
    assert_eq!(slot(22, 24).label(), "22:00-24:00");
    assert_eq!(render_hour(100), "100");
    assert_eq!(render_hour(-5), "-5");
    assert_eq!(render_hour(10), "10");
}

#[test]
fn slots_of_a_day_ascend_as_their_labels_do() {
    let mut all = Vec::new();
    for start in 0..24 {
        for length in 1..4 {
            if start + length <= 24 {
                all.push(vec![slot(start, start + length)]);
            }
        }
    }
    all.reverse();
    let merged = merge_slots(&all);
    let labels: Vec<String> = merged.iter().map(|s| s.label()).collect();
    let mut sorted = labels.clone();
    sorted.sort();
    sorted.dedup();
    assert_eq!(labels, sorted);
    assert_eq!(labels.len(), 24 + 23 + 22);
}
