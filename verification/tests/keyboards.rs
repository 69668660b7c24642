use photo_booking::actions::{Action, BookingList};
use photo_booking::availability::Slot;
use photo_booking::calendar::{Date, TimeOfDay};
use photo_booking::calendar_view::generate_calendar;
use photo_booking::commands::{
    cabinet_menu, command_str, main_menu, read_command, read_hours, show_photographer_menu, Command,
};
use photo_booking::text::equal_text;
use photo_booking::keyboard::{
    add_working_day, booking_buttons, consent_keyboard, count_pages, navigation, page_bounds,
    photographer_info_keyboard, revocation_keyboard, service_info_keyboard, show_bookings_page,
    show_client_bookings, show_photographer_bookings, show_photographers_for_service, show_services,
    show_time_slots, Button, Label, Paged, Target, PAGE_SIZE,
};
use photo_booking::links::{contact_link, generate_inline_markup};
use photo_booking::models::{Booking, BookingStatus, Photographer, PhotographerService, Service};
use photo_booking::session::UserType;
use photo_booking::studio::Studio;

fn key(label: Label, action: Action) -> Button {
    Button { label, target: Target::Press(action) }
}

fn idle(label: Label) -> Button {
    key(label, Action::Ignore)
}

fn booking(id: i32, status: BookingStatus) -> Booking {
    Booking {
        id,
        client_id: 10 + id,
        photographer_id: 1,
        service_id: 1,
        date: Date { year: 2024, month: 5, day: 1 },
        booking_start: TimeOfDay { hour: 9, minute: 0 },
        booking_end: TimeOfDay { hour: 10, minute: 0 },
        status,
    }
}

fn bookings(count: i32) -> Vec<Booking> {
    (1..=count).map(|id| booking(id, BookingStatus::New)).collect()
}

#[test]
fn seven_items_make_pages_of_three_three_and_one() {
    assert_eq!(PAGE_SIZE, 3);
    assert_eq!(count_pages(7), 3);
    assert_eq!(page_bounds(7, 0), Some((0, 3)));
    assert_eq!(page_bounds(7, 1), Some((3, 6)));
    assert_eq!(page_bounds(7, 2), Some((6, 7)));
    assert_eq!(page_bounds(7, 3), None);
    let sizes: Vec<usize> = (0..3).map(|p| page_bounds(7, p).map(|(a, b)| b - a).unwrap()).collect();
    assert_eq!(sizes, vec![3, 3, 1]);
}

#[test]
fn the_first_page_has_no_way_back_and_the_last_no_way_on() {
    let list = Paged::Photographer(BookingList::Upcoming);
    assert_eq!(
        navigation(list, 0, 3),
        vec![
            idle(Label::PageIndicator { page: 1, pages: 3 }),
            key(Label::NextPage, Action::BookingsPage(BookingList::Upcoming, 1)),
        ]
    );
    assert_eq!(
        navigation(list, 1, 3),
        vec![
            key(Label::PreviousPage, Action::BookingsPage(BookingList::Upcoming, 0)),
            idle(Label::PageIndicator { page: 2, pages: 3 }),
            key(Label::NextPage, Action::BookingsPage(BookingList::Upcoming, 2)),
        ]
    );
    assert_eq!(
        navigation(list, 2, 3),
        vec![
            key(Label::PreviousPage, Action::BookingsPage(BookingList::Upcoming, 1)),
            idle(Label::PageIndicator { page: 3, pages: 3 }),
        ]
    );
    assert_eq!(navigation(Paged::Client, 0, 1), vec![idle(Label::PageIndicator { page: 1, pages: 1 })]);
    assert_eq!(
        navigation(Paged::Client, 1, 2),
        vec![
            key(Label::PreviousPage, Action::ClientBookings(0)),
            idle(Label::PageIndicator { page: 2, pages: 2 }),
        ]
    );
}

#[test]
fn pages_cover_every_item_once() {
    for items in 0..20usize {
        let pages = count_pages(items);
        assert_eq!(pages, (items + 2) / 3);
        let mut next = 0;
        for page in 0..pages {
            let (first, last) = page_bounds(items, page as u32).unwrap();
            assert_eq!(first, next);
            assert!(last > first && last - first <= 3);
            if page + 1 < pages {
                assert_eq!(last - first, 3);
            }
            next = last;
        }
        assert_eq!(next, items);
        assert_eq!(page_bounds(items, pages as u32), None);
    }
}

#[test]
fn a_page_of_a_photographer_shows_what_the_status_allows() {
    let mut rows = bookings(7);
    rows[3].status = BookingStatus::Confirmed;
    rows[4].status = BookingStatus::Cancelled;
    let linked = vec![false, false, false, true, true, false, false];
    let shown = show_bookings_page(&rows, &linked, BookingList::Upcoming, 1).unwrap();
    assert_eq!((shown.first, shown.last), (3, 6));
    let contact = |client_id| Button { label: Label::Contact, target: Target::Chat { client_id } };
    assert_eq!(
        shown.keyboard,
        vec![
            vec![
                idle(Label::BookingNumber(4)),
                contact(14),
                key(Label::Complete, Action::CompleteBooking(4)),
                key(Label::Cancel, Action::RejectBooking(4)),
            ],
            vec![idle(Label::BookingNumber(5)), contact(15)],
            vec![idle(Label::BookingNumber(6))],
            navigation(Paged::Photographer(BookingList::Upcoming), 1, 3),
        ]
    );
    let last = show_bookings_page(&rows, &linked, BookingList::New, 2).unwrap();
    assert_eq!((last.first, last.last), (6, 7));
    assert_eq!(
        last.keyboard[0],
        vec![
            idle(Label::BookingNumber(7)),
            key(Label::Confirm, Action::ConfirmBooking(7)),
            key(Label::Cancel, Action::RejectBooking(7)),
        ]
    );
    assert!(show_bookings_page(&rows, &linked, BookingList::All, 3).is_none());
    assert!(show_bookings_page(&vec![], &vec![], BookingList::All, 0).is_none());
}

#[test]
fn the_buttons_of_a_booking_depend_on_list_and_status() {
    let new = booking(1, BookingStatus::New);
    let confirmed = booking(2, BookingStatus::Confirmed);
    assert_eq!(booking_buttons(&new, BookingList::All, false), vec![idle(Label::BookingNumber(1))]);
    assert_eq!(booking_buttons(&new, BookingList::Upcoming, false), vec![idle(Label::BookingNumber(1))]);
    assert_eq!(booking_buttons(&confirmed, BookingList::New, false), vec![idle(Label::BookingNumber(2))]);
    assert_eq!(booking_buttons(&confirmed, BookingList::All, true).len(), 2);
    assert_eq!(booking_buttons(&new, BookingList::New, true).len(), 4);
    assert_eq!(booking_buttons(&new, BookingList::New, true)[3].label, Label::Contact);
}

#[test]
fn a_client_can_cancel_only_open_bookings() {
    let mut rows = bookings(4);
    rows[1].status = BookingStatus::Completed;
    rows[2].status = BookingStatus::Confirmed;
    rows[3].status = BookingStatus::Cancelled;
    let first = show_client_bookings(&rows, 0).unwrap();
    assert_eq!((first.first, first.last), (0, 3));
    assert_eq!(
        first.keyboard,
        vec![
            vec![idle(Label::BookingNumber(1)), key(Label::Cancel, Action::ClientRejectBooking(1))],
            vec![idle(Label::BookingNumber(3)), key(Label::Cancel, Action::ClientRejectBooking(3))],
            navigation(Paged::Client, 0, 2),
        ]
    );
    let second = show_client_bookings(&rows, 1).unwrap();
    assert_eq!((second.first, second.last), (3, 4));
    assert_eq!(second.keyboard, vec![navigation(Paged::Client, 1, 2)]);
    assert!(show_client_bookings(&rows, 2).is_none());
}

#[test]
fn time_slots_come_two_to_a_row() {
    let slot = |h: i64| Slot { start_hour: h, end_hour: h + 2 };
    let slot_key = |h: i64| {
        key(
            Label::Slot(slot(h)),
            Action::Time {
                start: TimeOfDay { hour: h as u32, minute: 0 },
                end: TimeOfDay { hour: h as u32 + 2, minute: 0 },
            },
        )
    };
    let back = vec![key(Label::BackToCalendar, Action::BackToCalendar)];
    assert_eq!(
        show_time_slots(&vec![slot(9), slot(10), slot(11)]),
        vec![vec![slot_key(9), slot_key(10)], vec![slot_key(11)], back.clone()]
    );
    assert_eq!(show_time_slots(&vec![slot(9), slot(10)]), vec![vec![slot_key(9), slot_key(10)], back.clone()]);
    assert_eq!(show_time_slots(&vec![]), vec![back.clone()]);
    // a slot that is no window of the day is shown and cannot be chosen
    let late = Slot { start_hour: 23, end_hour: 25 };
    assert_eq!(show_time_slots(&vec![late]), vec![vec![idle(Label::Slot(late))], back]);
    assert_eq!(show_time_slots(&vec![slot(22)])[0][0].target, Target::Press(Action::Time {
        start: TimeOfDay { hour: 22, minute: 0 },
        end: TimeOfDay { hour: 24, minute: 0 },
    }));
}

#[test]
fn services_and_photographers_are_listed() {
    let services = vec![
        Service { id: 1, name: "Portrait".to_string(), cost: 5000, duration: 120 },
        Service { id: 4, name: "Passport".to_string(), cost: 900, duration: 45 },
    ];
    assert_eq!(
        show_services(&services),
        vec![
            vec![key(Label::Service(1), Action::ServiceInfo(1))],
            vec![key(Label::Service(4), Action::ServiceInfo(4))],
        ]
    );
    let offers = vec![
        PhotographerService { id: 1, photographer_id: 1, service_id: 1 },
        PhotographerService { id: 2, photographer_id: 2, service_id: 4 },
        PhotographerService { id: 3, photographer_id: 3, service_id: 1 },
    ];
    assert_eq!(
        show_photographers_for_service(&offers, 1).unwrap(),
        vec![
            vec![key(Label::AnyPhotographer, Action::AnyPhotographer)],
            vec![key(Label::Photographer(1), Action::Photographer(1)), key(Label::MoreInfo, Action::PhotographerInfo(1))],
            vec![key(Label::Photographer(3), Action::Photographer(3)), key(Label::MoreInfo, Action::PhotographerInfo(3))],
            vec![key(Label::BackToServices, Action::BackToServices)],
        ]
    );
    assert!(show_photographers_for_service(&offers, 2).is_none());
    assert!(show_photographers_for_service(&vec![], 1).is_none());
}

#[test]
fn fixed_keyboards_offer_their_choices() {
    let hours = add_working_day();
    assert_eq!(hours.len(), 4);
    assert_eq!(hours[0], vec![key(Label::Hours { start_hour: 8, end_hour: 20 }, Action::WorkingHours { start_hour: 8, end_hour: 20 })]);
    assert_eq!(hours[1][0].target, Target::Press(Action::WorkingHours { start_hour: 9, end_hour: 19 }));
    assert_eq!(hours[2][0].target, Target::Press(Action::WorkingHours { start_hour: 10, end_hour: 18 }));
    assert_eq!(hours[3], vec![key(Label::OwnHours, Action::CustomHours)]);
    let lists = show_photographer_bookings();
    assert_eq!(
        lists,
        vec![
            vec![key(Label::Bookings(BookingList::New), Action::Bookings(BookingList::New))],
            vec![key(Label::Bookings(BookingList::Upcoming), Action::Bookings(BookingList::Upcoming))],
            vec![key(Label::Bookings(BookingList::All), Action::Bookings(BookingList::All))],
        ]
    );
    assert_eq!(main_menu(), vec![Command::ChooseService, Command::Cabinet]);
    assert_eq!(cabinet_menu(), vec![Command::History, Command::ChangeName, Command::RevokeConsent, Command::Back]);
    assert_eq!(
        show_photographer_menu(),
        vec![Command::MySchedule, Command::MyBookings, Command::ChangePortfolio, Command::ChangeDescription]
    );
}

fn studio() -> Studio {
    let mut studio = Studio::new();
    studio.photographers.push(Photographer { id: 1, telegram_id: Some(501), name: "Vera".to_string() });
    studio.offers.push(PhotographerService { id: 1, photographer_id: 1, service_id: 1 });
    studio.save_working_hours(1, Date { year: 2024, month: 5, day: 20 }, 9, 18);
    studio.save_working_hours(1, Date { year: 2024, month: 5, day: 10 }, 9, 18);
    studio.save_working_hours(1, Date { year: 2024, month: 5, day: 21 }, 0, 0);
    studio
}

#[test]
fn the_calendar_of_may_2024_begins_on_a_wednesday() {
    let studio = studio();
    let today = Date { year: 2024, month: 5, day: 15 };
    let keyboard = generate_calendar(5, 2024, &studio, Some(1), UserType::Client, today);
    // title, weekdays, five weeks, months, back
    assert_eq!(keyboard.len(), 9);
    assert_eq!(keyboard[0], vec![idle(Label::MonthTitle { month: 5, year: 2024 })]);
    assert_eq!(keyboard[1], (0..7).map(|d| idle(Label::Weekday(d))).collect::<Vec<Button>>());
    for week in &keyboard[2..7] {
        assert_eq!(week.len(), 7);
    }
    assert_eq!(keyboard[2][0], idle(Label::Blank));
    assert_eq!(keyboard[2][1], idle(Label::Blank));
    assert_eq!(keyboard[2][2], idle(Label::PastDay(1)));
    // the 10th has working hours and has passed
    assert_eq!(keyboard[3][4], idle(Label::PastDay(10)));
    assert_eq!(keyboard[4][1], idle(Label::PastDay(14)));
    let select = |day| Action::CalendarSelect(Date { year: 2024, month: 5, day });
    assert_eq!(keyboard[4][2], key(Label::ClosedDay(15), select(15)));
    assert_eq!(keyboard[5][0], key(Label::Day(20), select(20)));
    assert_eq!(keyboard[5][1], key(Label::ClosedDay(21), select(21)));
    assert_eq!(keyboard[6][4], key(Label::ClosedDay(31), select(31)));
    assert_eq!(keyboard[6][5], idle(Label::Blank));
    assert_eq!(keyboard[6][6], idle(Label::Blank));
    assert_eq!(
        keyboard[7],
        vec![
            key(Label::PreviousMonth, Action::CalendarPrev { month: 5, year: 2024 }),
            key(Label::NextMonth, Action::CalendarNext { month: 5, year: 2024 }),
        ]
    );
    assert_eq!(keyboard[8], vec![key(Label::BackToPhotographers, Action::BackToPhotographers)]);
}

#[test]
fn the_calendar_shapes_follow_the_month() {
    let studio = studio();
    let today = Date { year: 2000, month: 1, day: 1 };
    // September 2024 begins on a Sunday and needs six weeks; February 2021 fits into four
    let september = generate_calendar(9, 2024, &studio, Some(1), UserType::Photographer, today);
    assert_eq!(september.len(), 2 + 6 + 1);
    assert_eq!(september[2][6].label, Label::ClosedDay(1));
    assert_eq!(september[7][0].label, Label::ClosedDay(30));
    assert_eq!(september[7][1], idle(Label::Blank));
    let february = generate_calendar(2, 2021, &studio, Some(1), UserType::Photographer, today);
    assert_eq!(february.len(), 2 + 4 + 1);
    assert_eq!(february[2][0].label, Label::ClosedDay(1));
    assert_eq!(february[5][6].label, Label::ClosedDay(28));
    let leap = generate_calendar(2, 2024, &studio, Some(1), UserType::Photographer, today);
    assert_eq!(leap[6][3].label, Label::ClosedDay(29));
}

#[test]
fn a_month_that_is_none_has_a_calendar_without_days() {
    let studio = studio();
    let today = Date { year: 2024, month: 5, day: 15 };
    let keyboard = generate_calendar(13, 2024, &studio, Some(1), UserType::Photographer, today);
    assert_eq!(keyboard.len(), 3);
    assert_eq!(keyboard[0], vec![idle(Label::MonthTitle { month: 13, year: 2024 })]);
    assert_eq!(keyboard[2][1], key(Label::NextMonth, Action::CalendarNext { month: 13, year: 2024 }));
}

#[test]
fn the_calendar_for_any_photographer_counts_whoever_works() {
    let mut studio = studio();
    studio.save_working_hours(2, Date { year: 2024, month: 5, day: 22 }, 9, 18);
    let today = Date { year: 2024, month: 5, day: 15 };
    let keyboard = generate_calendar(5, 2024, &studio, None, UserType::Client, today);
    assert_eq!(keyboard[5][0].label, Label::Day(20));
    // photographer 2 offers nothing
    assert_eq!(keyboard[5][2].label, Label::ClosedDay(22));
    studio.offers.push(PhotographerService { id: 2, photographer_id: 2, service_id: 1 });
    let keyboard = generate_calendar(5, 2024, &studio, None, UserType::Client, today);
    assert_eq!(keyboard[5][2].label, Label::Day(22));
}

#[test]
fn days_of_years_without_four_digits_cannot_be_chosen() {
    let studio = studio();
    let today = Date { year: 2024, month: 5, day: 15 };
    let keyboard = generate_calendar(1, 10000, &studio, Some(1), UserType::Photographer, today);
    let days: Vec<&Button> = keyboard[2..keyboard.len() - 1].iter().flatten().collect();
    assert!(days.iter().all(|b| b.target == Target::Press(Action::Ignore)));
    assert!(days.iter().any(|b| b.label == Label::ClosedDay(31)));
}

#[test]
fn a_contact_link_is_the_address_as_the_url_crate_writes_it() {
    assert_eq!(contact_link("anna"), Some("https://t.me/anna".to_string()));
    assert_eq!(contact_link("a b"), Some("https://t.me/a%20b".to_string()));
    assert_eq!(contact_link("../x"), Some("https://t.me/x".to_string()));
    assert_eq!(contact_link("анна"), Some("https://t.me/%D0%B0%D0%BD%D0%BD%D0%B0".to_string()));
    assert_eq!(contact_link(""), None);
}

#[test]
fn inline_markup_marks_every_action() {
    let keyboard = generate_inline_markup(
        "confirming",
        vec!["Подтвердить".to_string(), "Изменить".to_string(), "Later".to_string()],
        vec!["yes".to_string(), "no".to_string()],
    );
    let rows: Vec<(String, String)> = keyboard
        .iter()
        .map(|row| {
            assert_eq!(row.len(), 1);
            (row[0].text.clone(), row[0].data.clone())
        })
        .collect();
    assert_eq!(
        rows,
        vec![
            ("Подтвердить".to_string(), "confirming:yes".to_string()),
            ("Изменить".to_string(), "confirming:no".to_string()),
            ("Later".to_string(), "confirming:ignore".to_string()),
            ("⟵ Назад".to_string(), "back".to_string()),
        ]
    );
    let alone = generate_inline_markup("x", vec![], vec!["unused".to_string()]);
    assert_eq!(alone.len(), 1);
    assert_eq!(alone[0][0].data, "back");
}

#[test]
fn commands_are_read_from_their_texts() {
    let all = [
        Command::Start,
        Command::ChooseService,
        Command::History,
        Command::ChangeName,
        Command::Cabinet,
        Command::RevokeConsent,
        Command::Back,
        Command::MySchedule,
        Command::MyBookings,
        Command::ChangePortfolio,
        Command::ChangeDescription,
    ];
    for command in all {
        assert_eq!(read_command(command_str(command)), command);
    }
    assert_eq!(command_str(Command::Start), "/start");
    assert_eq!(command_str(Command::Back), "⟵ Назад");
    assert_eq!(read_command("Выбрать услугу"), Command::ChooseService);
    assert_eq!(read_command("выбрать услугу"), Command::Other);
    assert_eq!(read_command("/start "), Command::Other);
    assert_eq!(read_command(""), Command::Other);
    assert!(equal_text("Назад", "Назад"));
    assert!(!equal_text("Назад", "Назао"));
    assert!(!equal_text("a", "ab"));
}

#[test]
fn typed_working_hours_are_two_times() {
    assert_eq!(read_hours("9:00-18:00"), Some((9, 18)));
    assert_eq!(read_hours("09:00-18:30"), Some((9, 18)));
    assert_eq!(read_hours("0:00-24:00"), Some((0, 24)));
    assert_eq!(read_hours("9:xx-18:"), Some((9, 18)));
    assert_eq!(read_hours("2147483647:00-1:00"), Some((2147483647, 1)));
    assert_eq!(read_hours("2147483648:00-1:00"), None);
    assert_eq!(read_hours("9-18"), None);
    assert_eq!(read_hours("9:00"), None);
    assert_eq!(read_hours("9:00-18:00-20:00"), None);
    assert_eq!(read_hours("9:00:00-18:00"), None);
    assert_eq!(read_hours(":00-18:00"), None);
    assert_eq!(read_hours("-9:00-18:00"), None);
    assert_eq!(read_hours("nine:00-18:00"), None);
    assert_eq!(read_hours("9:00–18:00"), None);
    assert_eq!(read_hours(""), None);
}

#[test]
fn questions_come_with_their_answers() {
    assert_eq!(consent_keyboard(), vec![vec![key(Label::Agree, Action::Agree)]]);
    assert_eq!(
        revocation_keyboard(),
        vec![
            vec![key(Label::Revoke, Action::RevokeConsent(true))],
            vec![key(Label::KeepConsent, Action::RevokeConsent(false))],
        ]
    );
    assert_eq!(
        service_info_keyboard(4),
        vec![
            vec![key(Label::ChooseService, Action::Service(4))],
            vec![key(Label::BackToServices, Action::BackToServices)],
        ]
    );
    assert_eq!(
        photographer_info_keyboard(),
        vec![vec![key(Label::BackToPhotographers, Action::BackToPhotographers)]]
    );
}

#[test]
fn every_button_of_a_keyboard_has_a_token() {
    let studio = studio();
    let today = Date { year: 2024, month: 5, day: 15 };
    let mut keyboards = vec![
        generate_calendar(5, 2024, &studio, Some(1), UserType::Client, today),
        generate_calendar(2, 10000, &studio, None, UserType::Photographer, today),
        show_time_slots(&vec![Slot { start_hour: 22, end_hour: 24 }, Slot { start_hour: 23, end_hour: 25 }]),
        add_working_day(),
        show_photographer_bookings(),
        consent_keyboard(),
        revocation_keyboard(),
        service_info_keyboard(-1),
    ];
    keyboards.push(show_client_bookings(&bookings(7), 1).unwrap().keyboard);
    for button in keyboards.iter().flatten().flatten() {
        if let Target::Press(action) = button.target {
            let token = action.token().unwrap();
            assert!(token.len() <= 64);
            assert_eq!(photo_booking::actions::parse_action(&token), action);
        }
    }
}
