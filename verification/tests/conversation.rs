use photo_booking::actions::{Action, BookingList};
use photo_booking::calendar::{Date, TimeOfDay};
use photo_booking::callbacks::{handle_action, handle_callback_query};
use photo_booking::effects::Effect;
use photo_booking::messages::handle_message;
use photo_booking::models::{BookingStatus, Photographer, PhotographerService, Service};
use photo_booking::session::{PhotographerChoice, SessionStore, UserSession, UserStep, UserType};
use photo_booking::studio::Studio;

const CLIENT: i64 = 700;
const OTHER: i64 = 701;
const VERA: i64 = 501;

fn today() -> Date {
    Date { year: 2024, month: 4, day: 20 }
}

fn day() -> Date {
    Date { year: 2024, month: 5, day: 1 }
}

fn clock(hour: u32) -> TimeOfDay {
    TimeOfDay { hour, minute: 0 }
}

fn studio() -> Studio {
    let mut studio = Studio::new();
    studio.photographers.push(Photographer { id: 1, telegram_id: Some(VERA), name: "Vera".to_string() });
    studio.photographers.push(Photographer { id: 2, telegram_id: Some(502), name: "Gleb".to_string() });
    studio.services.push(Service { id: 1, name: "Portrait".to_string(), cost: 5000, duration: 120 });
    studio.offers.push(PhotographerService { id: 1, photographer_id: 1, service_id: 1 });
    studio.offers.push(PhotographerService { id: 2, photographer_id: 2, service_id: 1 });
    studio.save_working_hours(1, day(), 9, 13);
    studio.save_working_hours(2, day(), 10, 12);
    studio
}

fn press(session: &mut UserSession, studio: &mut Studio, chat: i64, token: &str) -> Effect {
    handle_callback_query(session, studio, chat, token, today())
}

fn say(session: &mut UserSession, studio: &mut Studio, chat: i64, text: &str) -> Effect {
    handle_message(session, studio, chat, text, Some("handle"), today())
}

fn registered(studio: &mut Studio, chat: i64) -> UserSession {
    let mut session = UserSession::new();
    assert_eq!(say(&mut session, studio, chat, "/start"), Effect::AskName);
    assert_eq!(say(&mut session, studio, chat, "Anna"), Effect::AskConsent);
    let effect = press(&mut session, studio, chat, "agree");
    assert!(matches!(effect, Effect::Registered { .. }));
    session
}

#[test]
fn a_newcomer_registers_with_name_and_consent() {
    let mut studio = studio();
    let mut session = UserSession::new();
    assert_eq!(session.step, UserStep::Registration);
    assert_eq!(say(&mut session, &mut studio, CLIENT, "/start"), Effect::AskName);
    assert_eq!(session.step, UserStep::Registration);
    assert_eq!(say(&mut session, &mut studio, CLIENT, "Anna"), Effect::AskConsent);
    assert_eq!(session.client_name, "Anna");
    assert_eq!(session.client_username, "handle");
    assert_eq!(session.user_type, UserType::Client);
    assert_eq!(session.client_id, None);
    // no client before consent
    assert_eq!(studio.check_client(CLIENT), None);
    assert_eq!(press(&mut session, &mut studio, CLIENT, "agree"), Effect::Registered { client_id: 1 });
    assert_eq!(session.step, UserStep::MainMenu);
    assert_eq!(session.client_id, Some(1));
    assert!(session.agreement);
    assert_eq!(studio.check_client(CLIENT), Some(1));
    assert_eq!(studio.clients.clients()[0].name, "Anna");
    assert_eq!(studio.clients.clients()[0].username, "handle");
}

#[test]
fn consent_given_twice_registers_once() {
    let mut studio = studio();
    let mut session = registered(&mut studio, CLIENT);
    assert_eq!(press(&mut session, &mut studio, CLIENT, "agree"), Effect::Registered { client_id: 1 });
    assert_eq!(studio.clients.clients().len(), 1);
}

#[test]
fn a_name_without_a_handle_is_accepted() {
    let mut studio = studio();
    let mut session = UserSession::new();
    assert_eq!(handle_message(&mut session, &mut studio, CLIENT, "Anna", None, today()), Effect::AskConsent);
    assert_eq!(session.client_username, "");
}

#[test]
fn the_entry_command_recognises_photographers_first() {
    let mut studio = studio();
    studio.clients.register(VERA, "Vera".to_string(), "vera".to_string());
    let mut session = UserSession::new();
    assert_eq!(say(&mut session, &mut studio, VERA, "/start"), Effect::ShowPhotographerMenu);
    assert_eq!(session.user_type, UserType::Photographer);
    assert_eq!(session.photographer, PhotographerChoice::Specific(1));
    assert_eq!(session.step, UserStep::PhotographerMainMenu);
}

#[test]
fn the_entry_command_recognises_a_known_client_at_any_step() {
    let mut studio = studio();
    studio.clients.register(CLIENT, "Anna".to_string(), "anna".to_string());
    let mut session = UserSession::new();
    session.step = UserStep::CustomHours;
    session.user_type = UserType::Photographer;
    assert_eq!(say(&mut session, &mut studio, CLIENT, "/start"), Effect::Welcome);
    assert_eq!(session.step, UserStep::MainMenu);
    assert_eq!(session.user_type, UserType::Client);
    assert_eq!(session.client_id, Some(1));
}

#[test]
fn a_photographer_who_writes_a_name_is_recognised() {
    let mut studio = studio();
    let mut session = UserSession::new();
    assert_eq!(say(&mut session, &mut studio, VERA, "Vera"), Effect::ShowPhotographerMenu);
    assert_eq!(session.step, UserStep::PhotographerMainMenu);
    assert_eq!(session.client_name, "");
}

#[test]
fn a_client_books_a_slot_with_a_chosen_photographer() {
    let mut studio = studio();
    let mut session = registered(&mut studio, CLIENT);
    assert_eq!(say(&mut session, &mut studio, CLIENT, "Выбрать услугу"), Effect::ShowServices);
    assert_eq!(session.step, UserStep::SelectingService);
    assert_eq!(press(&mut session, &mut studio, CLIENT, "service:1"), Effect::ShowPhotographers { service_id: 1 });
    assert_eq!(session.step, UserStep::SelectingPhotographer);
    assert_eq!(
        press(&mut session, &mut studio, CLIENT, "photographer:1"),
        Effect::ShowCalendar { month: 4, year: 2024, photographer: Some(1), user_type: UserType::Client }
    );
    assert_eq!(session.step, UserStep::SelectingTime);
    assert_eq!(
        press(&mut session, &mut studio, CLIENT, "calendar:next_month:4:2024"),
        Effect::ShowCalendar { month: 5, year: 2024, photographer: Some(1), user_type: UserType::Client }
    );
    assert_eq!(
        press(&mut session, &mut studio, CLIENT, "calendar:select:2024-05-01"),
        Effect::ShowTimeSlots { photographer: Some(1), service_id: 1, date: day() }
    );
    assert_eq!(session.selected_date, Some(day()));
    assert_eq!(
        press(&mut session, &mut studio, CLIENT, "time-09:00-11:00"),
        Effect::ShowSummary { service_id: 1, photographer_id: 1, date: day(), start: clock(9), end: clock(11) }
    );
    assert_eq!(session.step, UserStep::ConfirmingBooking);
    assert_eq!(
        press(&mut session, &mut studio, CLIENT, "confirming:yes"),
        Effect::BookingCreated { booking_id: 1, photographer_id: 1 }
    );
    assert_eq!(session.step, UserStep::MainMenu);
    let booking = studio.ledger.find(1).unwrap();
    assert_eq!(booking.client_id, 1);
    assert_eq!(booking.photographer_id, 1);
    assert_eq!(booking.service_id, 1);
    assert_eq!(booking.date, day());
    assert_eq!(booking.booking_start, clock(9));
    assert_eq!(booking.booking_end, clock(11));
    assert_eq!(booking.status, BookingStatus::New);
    assert_eq!(studio.notify_photographer(1), Some(VERA));
}

#[test]
fn a_client_who_names_no_photographer_gets_one_assigned() {
    let mut studio = studio();
    let mut session = registered(&mut studio, CLIENT);
    press(&mut session, &mut studio, CLIENT, "service:1");
    assert_eq!(
        press(&mut session, &mut studio, CLIENT, "photographer:any"),
        Effect::ShowCalendar { month: 4, year: 2024, photographer: None, user_type: UserType::Client }
    );
    assert_eq!(session.photographer, PhotographerChoice::Any);
    assert_eq!(
        press(&mut session, &mut studio, CLIENT, "calendar:select:2024-05-01"),
        Effect::ShowTimeSlots { photographer: None, service_id: 1, date: day() }
    );
    assert_eq!(
        press(&mut session, &mut studio, CLIENT, "time-10:00-12:00"),
        Effect::ShowSummary { service_id: 1, photographer_id: 1, date: day(), start: clock(10), end: clock(12) }
    );
    assert_eq!(
        press(&mut session, &mut studio, CLIENT, "confirming:yes"),
        Effect::BookingCreated { booking_id: 1, photographer_id: 1 }
    );
    // the choice stays open in the session; the booking names the photographer
    assert_eq!(session.photographer, PhotographerChoice::Any);
    assert_eq!(studio.ledger.find(1).unwrap().photographer_id, 1);
}

#[test]
fn a_date_in_the_past_is_rejected_for_everyone() {
    let mut studio = studio();
    let yesterday = "calendar:select:2024-04-19";
    let mut client = registered(&mut studio, CLIENT);
    press(&mut client, &mut studio, CLIENT, "service:1");
    for choice in ["photographer:1", "photographer:any"] {
        press(&mut client, &mut studio, CLIENT, choice);
        let step = client.step;
        assert_eq!(press(&mut client, &mut studio, CLIENT, yesterday), Effect::DateInPast);
        assert_eq!(client.selected_date, None);
        assert_eq!(client.step, step);
    }
    let mut vera = UserSession::new();
    say(&mut vera, &mut studio, VERA, "/start");
    assert_eq!(press(&mut vera, &mut studio, VERA, yesterday), Effect::DateInPast);
    assert_eq!(vera.selected_date, None);
    let mut nobody = UserSession::new();
    assert_eq!(press(&mut nobody, &mut studio, OTHER, yesterday), Effect::DateInPast);
    assert_eq!(nobody.selected_date, None);
}

#[test]
fn today_itself_can_be_chosen() {
    let mut studio = studio();
    studio.save_working_hours(1, today(), 9, 11);
    let mut session = registered(&mut studio, CLIENT);
    press(&mut session, &mut studio, CLIENT, "service:1");
    press(&mut session, &mut studio, CLIENT, "photographer:1");
    assert_eq!(
        press(&mut session, &mut studio, CLIENT, "calendar:select:2024-04-20"),
        Effect::ShowTimeSlots { photographer: Some(1), service_id: 1, date: today() }
    );
}

#[test]
fn a_day_off_or_a_full_day_is_answered_without_leaving_the_step() {
    let mut studio = studio();
    let mut session = registered(&mut studio, CLIENT);
    press(&mut session, &mut studio, CLIENT, "service:1");
    press(&mut session, &mut studio, CLIENT, "photographer:1");
    assert_eq!(press(&mut session, &mut studio, CLIENT, "calendar:select:2024-05-02"), Effect::NotWorking);
    assert_eq!(session.step, UserStep::SelectingTime);
    assert_eq!(studio.ledger.create_booking(9, 1, 1, day(), clock(9), clock(13)), Ok(1));
    assert_eq!(press(&mut session, &mut studio, CLIENT, "calendar:select:2024-05-01"), Effect::NoFreeSlots);
    press(&mut session, &mut studio, CLIENT, "photographer:any");
    assert_eq!(press(&mut session, &mut studio, CLIENT, "calendar:select:2024-05-02"), Effect::NoFreeSlots);
}

#[test]
fn the_slower_of_two_clients_learns_that_the_slot_is_taken() {
    let mut studio = studio();
    let mut first = registered(&mut studio, CLIENT);
    let mut second = registered(&mut studio, OTHER);
    for (session, chat) in [(&mut first, CLIENT), (&mut second, OTHER)] {
        press(session, &mut studio, chat, "service:1");
        press(session, &mut studio, chat, "photographer:1");
        press(session, &mut studio, chat, "calendar:select:2024-05-01");
        // both are shown the same free slot
        assert!(matches!(
            press(session, &mut studio, chat, "time-09:00-11:00"),
            Effect::ShowSummary { .. }
        ));
    }
    assert_eq!(
        press(&mut second, &mut studio, OTHER, "confirming:yes"),
        Effect::BookingCreated { booking_id: 1, photographer_id: 1 }
    );
    assert_eq!(press(&mut first, &mut studio, CLIENT, "confirming:yes"), Effect::SlotTaken);
    assert_eq!(first.step, UserStep::SelectingTime);
    assert_eq!(studio.ledger.bookings().len(), 1);
    assert_eq!(studio.ledger.find(1).unwrap().client_id, 2);
}

#[test]
fn no_photographer_free_is_not_no_slot_free() {
    let mut studio = studio();
    let mut session = registered(&mut studio, CLIENT);
    press(&mut session, &mut studio, CLIENT, "service:1");
    press(&mut session, &mut studio, CLIENT, "photographer:any");
    press(&mut session, &mut studio, CLIENT, "calendar:select:2024-05-01");
    assert_eq!(studio.ledger.create_booking(9, 1, 1, day(), clock(9), clock(13)), Ok(1));
    assert_eq!(studio.ledger.create_booking(9, 2, 1, day(), clock(10), clock(12)), Ok(2));
    assert_eq!(press(&mut session, &mut studio, CLIENT, "time-10:00-12:00"), Effect::NoPhotographerAvailable);
    assert_eq!(session.step, UserStep::SelectingTime);
}

#[test]
fn changing_the_booking_leads_back_to_the_services() {
    let mut studio = studio();
    let mut session = registered(&mut studio, CLIENT);
    press(&mut session, &mut studio, CLIENT, "service:1");
    assert_eq!(press(&mut session, &mut studio, CLIENT, "confirming:no"), Effect::ShowServices);
    assert_eq!(session.step, UserStep::SelectingService);
    assert_eq!(studio.ledger.bookings().len(), 0);
}

#[test]
fn confirming_without_a_choice_does_nothing() {
    let mut studio = studio();
    let mut session = registered(&mut studio, CLIENT);
    assert_eq!(press(&mut session, &mut studio, CLIENT, "confirming:yes"), Effect::Nothing);
    assert_eq!(session.step, UserStep::MainMenu);
    assert_eq!(studio.ledger.bookings().len(), 0);
}

#[test]
fn malformed_tokens_change_nothing() {
    let mut studio = studio();
    let mut session = registered(&mut studio, CLIENT);
    press(&mut session, &mut studio, CLIENT, "service:1");
    let step = session.step;
    for token in ["", "ignore", "back", "nonsense", "service:x", "calendar:select:2024-02-30", "time-9-11"] {
        assert_eq!(press(&mut session, &mut studio, CLIENT, token), Effect::Nothing);
        assert_eq!(session.step, step);
        assert_eq!(session.service_id, Some(1));
    }
    assert_eq!(studio.ledger.bookings().len(), 0);
    assert_eq!(studio.hours.len(), 2);
    assert_eq!(studio.clients.clients().len(), 1);
}

fn booked(studio: &mut Studio) -> (UserSession, UserSession) {
    let mut client = registered(studio, CLIENT);
    let mut vera = UserSession::new();
    say(&mut vera, studio, VERA, "/start");
    press(&mut client, studio, CLIENT, "service:1");
    press(&mut client, studio, CLIENT, "photographer:1");
    press(&mut client, studio, CLIENT, "calendar:select:2024-05-01");
    press(&mut client, studio, CLIENT, "time-09:00-11:00");
    press(&mut client, studio, CLIENT, "confirming:yes");
    (client, vera)
}

#[test]
fn the_photographer_confirms_and_completes() {
    let mut studio = studio();
    let (_, mut vera) = booked(&mut studio);
    assert_eq!(
        press(&mut vera, &mut studio, VERA, "confirm_booking:1"),
        Effect::BookingConfirmed { booking_id: 1, client_id: 1 }
    );
    assert_eq!(studio.ledger.find(1).unwrap().status, BookingStatus::Confirmed);
    // asked again, the client is told again and nothing moves
    assert_eq!(
        press(&mut vera, &mut studio, VERA, "confirm_booking:1"),
        Effect::BookingConfirmed { booking_id: 1, client_id: 1 }
    );
    assert_eq!(
        press(&mut vera, &mut studio, VERA, "complete_booking:1"),
        Effect::BookingCompleted { booking_id: 1, client_id: 1 }
    );
    assert_eq!(studio.ledger.find(1).unwrap().status, BookingStatus::Completed);
    assert_eq!(press(&mut vera, &mut studio, VERA, "reject_booking:1"), Effect::Nothing);
    assert_eq!(press(&mut vera, &mut studio, VERA, "confirm_booking:1"), Effect::Nothing);
    assert_eq!(studio.ledger.find(1).unwrap().status, BookingStatus::Completed);
    assert_eq!(studio.notify_client(1), Some(CLIENT));
}

#[test]
fn a_new_booking_cannot_be_completed() {
    let mut studio = studio();
    let (_, mut vera) = booked(&mut studio);
    assert_eq!(press(&mut vera, &mut studio, VERA, "complete_booking:1"), Effect::Nothing);
    assert_eq!(studio.ledger.find(1).unwrap().status, BookingStatus::New);
}

#[test]
fn either_side_cancels_and_the_other_is_told() {
    let mut studio = studio();
    let (mut client, _) = booked(&mut studio);
    assert_eq!(
        press(&mut client, &mut studio, CLIENT, "client_reject_booking:1"),
        Effect::BookingCancelledByClient { booking_id: 1, photographer_id: 1 }
    );
    assert_eq!(studio.ledger.find(1).unwrap().status, BookingStatus::Cancelled);

    let mut studio = self::studio();
    let (_, mut vera) = booked(&mut studio);
    assert_eq!(
        press(&mut vera, &mut studio, VERA, "reject_booking:1"),
        Effect::BookingCancelledByPhotographer { booking_id: 1, client_id: 1 }
    );
    assert_eq!(studio.ledger.find(1).unwrap().status, BookingStatus::Cancelled);
    assert_eq!(press(&mut vera, &mut studio, VERA, "confirm_booking:1"), Effect::Nothing);
    assert_eq!(studio.ledger.find(1).unwrap().status, BookingStatus::Cancelled);
}

#[test]
fn nobody_moves_the_bookings_of_others() {
    let mut studio = studio();
    let (mut client, _) = booked(&mut studio);
    let mut gleb = UserSession::new();
    say(&mut gleb, &mut studio, 502, "/start");
    assert_eq!(press(&mut gleb, &mut studio, 502, "confirm_booking:1"), Effect::Nothing);
    assert_eq!(press(&mut gleb, &mut studio, 502, "reject_booking:1"), Effect::Nothing);
    let mut other = registered(&mut studio, OTHER);
    assert_eq!(press(&mut other, &mut studio, OTHER, "client_reject_booking:1"), Effect::Nothing);
    // a client has no say in what is the photographer's to decide
    assert_eq!(press(&mut client, &mut studio, CLIENT, "confirm_booking:1"), Effect::UnknownCommand);
    assert_eq!(press(&mut client, &mut studio, CLIENT, "complete_booking:1"), Effect::UnknownCommand);
    assert_eq!(press(&mut client, &mut studio, CLIENT, "confirm_booking:5"), Effect::UnknownCommand);
    assert_eq!(studio.ledger.find(1).unwrap().status, BookingStatus::New);
}

#[test]
fn a_photographer_sets_working_hours_for_a_chosen_day() {
    let mut studio = studio();
    let mut vera = UserSession::new();
    say(&mut vera, &mut studio, VERA, "/start");
    assert_eq!(
        say(&mut vera, &mut studio, VERA, "Моё расписание"),
        Effect::ShowCalendar { month: 4, year: 2024, photographer: Some(1), user_type: UserType::Photographer }
    );
    let date = Date { year: 2024, month: 5, day: 3 };
    assert_eq!(press(&mut vera, &mut studio, VERA, "working_hours:8:20"), Effect::Nothing);
    assert_eq!(
        press(&mut vera, &mut studio, VERA, "calendar:select:2024-05-03"),
        Effect::ChooseHours { photographer_id: 1, date }
    );
    assert_eq!(
        press(&mut vera, &mut studio, VERA, "working_hours:8:20"),
        Effect::HoursSaved { photographer_id: 1, date }
    );
    assert_eq!(studio.get_working_hours(1, date), Some((8, 20)));
    assert_eq!(press(&mut vera, &mut studio, VERA, "custom_hours"), Effect::AskHours);
    assert_eq!(vera.step, UserStep::CustomHours);
    assert_eq!(say(&mut vera, &mut studio, VERA, "from nine"), Effect::InvalidHours);
    assert_eq!(vera.step, UserStep::CustomHours);
    assert_eq!(studio.get_working_hours(1, date), Some((8, 20)));
    assert_eq!(
        say(&mut vera, &mut studio, VERA, "9:00-18:00"),
        Effect::HoursSaved { photographer_id: 1, date }
    );
    assert_eq!(vera.step, UserStep::PhotographerMainMenu);
    assert_eq!(studio.get_working_hours(1, date), Some((9, 18)));
}

#[test]
fn a_client_cannot_write_working_hours() {
    let mut studio = studio();
    let mut session = registered(&mut studio, CLIENT);
    press(&mut session, &mut studio, CLIENT, "service:1");
    press(&mut session, &mut studio, CLIENT, "photographer:1");
    press(&mut session, &mut studio, CLIENT, "calendar:select:2024-05-01");
    assert_eq!(press(&mut session, &mut studio, CLIENT, "working_hours:0:0"), Effect::UnknownCommand);
    assert_eq!(press(&mut session, &mut studio, CLIENT, "custom_hours"), Effect::UnknownCommand);
    assert_eq!(press(&mut session, &mut studio, CLIENT, "edit_schedule"), Effect::UnknownCommand);
    assert_eq!(press(&mut session, &mut studio, CLIENT, "new_bookings"), Effect::UnknownCommand);
    assert_eq!(studio.get_working_hours(1, day()), Some((9, 13)));
}

#[test]
fn a_photographer_opens_the_lists_of_bookings() {
    let mut studio = studio();
    let mut vera = UserSession::new();
    say(&mut vera, &mut studio, VERA, "/start");
    assert_eq!(say(&mut vera, &mut studio, VERA, "Мои записи"), Effect::ShowBookingLists);
    assert_eq!(
        press(&mut vera, &mut studio, VERA, "upcoming_bookings"),
        Effect::ShowBookings { list: BookingList::Upcoming, photographer_id: 1, page: 0 }
    );
    assert_eq!(
        press(&mut vera, &mut studio, VERA, "page_all:2"),
        Effect::ShowBookings { list: BookingList::All, photographer_id: 1, page: 2 }
    );
    assert_eq!(say(&mut vera, &mut studio, VERA, "Изменить портфолио"), Effect::AskPortfolio);
    assert_eq!(vera.step, UserStep::ChangePortfolio);
    assert_eq!(
        say(&mut vera, &mut studio, VERA, "https://example.org/vera"),
        Effect::PortfolioChanged { photographer_id: 1 }
    );
    say(&mut vera, &mut studio, VERA, "/start");
    assert_eq!(say(&mut vera, &mut studio, VERA, "Изменить свое описание"), Effect::AskDescription);
    assert_eq!(say(&mut vera, &mut studio, VERA, "Portraits"), Effect::DescriptionChanged { photographer_id: 1 });
}

#[test]
fn a_step_for_another_role_gets_the_fixed_answer() {
    let mut studio = studio();
    let mut session = registered(&mut studio, CLIENT);
    for step in [
        UserStep::PhotographerMainMenu,
        UserStep::ViewSchedule,
        UserStep::ViewBookings,
        UserStep::ChangeDescription,
        UserStep::ChangePortfolio,
        UserStep::CustomHours,
    ] {
        session.step = step;
        for text in ["Моё расписание", "9:00-18:00", "Выбрать услугу", "anything"] {
            assert_eq!(say(&mut session, &mut studio, CLIENT, text), Effect::UnknownCommand);
            assert_eq!(session.step, step);
        }
    }
    let mut vera = UserSession::new();
    say(&mut vera, &mut studio, VERA, "/start");
    vera.step = UserStep::ChangeName;
    assert_eq!(say(&mut vera, &mut studio, VERA, "Vera II"), Effect::UnknownCommand);
    assert_eq!(vera.step, UserStep::ChangeName);
    assert_eq!(studio.hours.len(), 2);
}

#[test]
fn the_cabinet_changes_the_name() {
    let mut studio = studio();
    let mut session = registered(&mut studio, CLIENT);
    assert_eq!(say(&mut session, &mut studio, CLIENT, "Личный кабинет"), Effect::ShowCabinet);
    assert_eq!(session.step, UserStep::PersonalCabinet);
    assert_eq!(say(&mut session, &mut studio, CLIENT, "История записей"), Effect::ShowClientHistory { client_id: 1 });
    assert_eq!(say(&mut session, &mut studio, CLIENT, "Изменить имя"), Effect::AskNewName);
    assert_eq!(session.step, UserStep::ChangeName);
    assert_eq!(say(&mut session, &mut studio, CLIENT, "A"), Effect::NameTooShort);
    assert_eq!(say(&mut session, &mut studio, CLIENT, ""), Effect::NameTooShort);
    assert_eq!(session.step, UserStep::ChangeName);
    assert_eq!(studio.clients.clients()[0].name, "Anna");
    assert_eq!(say(&mut session, &mut studio, CLIENT, "Я"), Effect::NameChanged);
    assert_eq!(session.step, UserStep::MainMenu);
    assert_eq!(studio.clients.clients()[0].name, "Я");
    assert_eq!(studio.clients.clients()[0].username, "handle");
    say(&mut session, &mut studio, CLIENT, "Личный кабинет");
    assert_eq!(say(&mut session, &mut studio, CLIENT, "⟵ Назад"), Effect::ShowMainMenu);
    assert_eq!(session.step, UserStep::MainMenu);
}

#[test]
fn revoking_consent_archives_the_client_and_starts_over() {
    let mut studio = studio();
    let mut session = registered(&mut studio, CLIENT);
    assert_eq!(say(&mut session, &mut studio, CLIENT, "Отозвать согласие"), Effect::AskRevocation);
    let step = session.step;
    assert_eq!(press(&mut session, &mut studio, CLIENT, "revoke_consent:cancel"), Effect::RevocationCancelled);
    assert_eq!(session.step, step);
    assert_eq!(session.client_id, Some(1));
    assert_eq!(studio.clients.clients().len(), 1);
    assert_eq!(press(&mut session, &mut studio, CLIENT, "revoke_consent:confirm"), Effect::ConsentRevoked);
    assert_eq!(session.step, UserStep::Registration);
    assert_eq!(session.client_id, None);
    assert!(!session.agreement);
    assert_eq!(studio.clients.clients().len(), 0);
    assert_eq!(studio.clients.archived().len(), 1);
    assert_eq!(studio.clients.archived()[0].name, "Anna");
    assert_eq!(studio.clients.archived()[0].username, "handle");
    assert_eq!(press(&mut session, &mut studio, CLIENT, "revoke_consent:confirm"), Effect::Nothing);
    assert_eq!(studio.clients.archived().len(), 1);
    assert_eq!(say(&mut session, &mut studio, CLIENT, "/start"), Effect::AskName);
    assert_eq!(session.step, UserStep::Registration);
    assert_eq!(say(&mut session, &mut studio, CLIENT, "Anna"), Effect::AskConsent);
    assert_eq!(press(&mut session, &mut studio, CLIENT, "agree"), Effect::Registered { client_id: 2 });
}

#[test]
fn the_menus_of_clients_send_others_through_detection() {
    let mut studio = studio();
    let mut nobody = UserSession::new();
    assert_eq!(say(&mut nobody, &mut studio, OTHER, "Личный кабинет"), Effect::AskName);
    assert_eq!(nobody.step, UserStep::Registration);
    let mut vera = UserSession::new();
    say(&mut vera, &mut studio, VERA, "/start");
    assert_eq!(say(&mut vera, &mut studio, VERA, "Выбрать услугу"), Effect::ShowPhotographerMenu);
    assert_eq!(vera.step, UserStep::PhotographerMainMenu);
}

#[test]
fn actions_can_be_handled_without_their_token() {
    let mut studio = studio();
    let mut session = registered(&mut studio, CLIENT);
    assert_eq!(
        handle_action(&mut session, &mut studio, CLIENT, Action::Service(1), today()),
        Effect::ShowPhotographers { service_id: 1 }
    );
    assert_eq!(
        handle_action(&mut session, &mut studio, CLIENT, Action::ServiceInfo(1), today()),
        Effect::ShowServiceInfo { service_id: 1 }
    );
    assert_eq!(
        handle_action(&mut session, &mut studio, CLIENT, Action::PhotographerInfo(2), today()),
        Effect::ShowPhotographerInfo { photographer_id: 2 }
    );
    assert_eq!(
        handle_action(&mut session, &mut studio, CLIENT, Action::BackToPhotographers, today()),
        Effect::ShowPhotographers { service_id: 1 }
    );
    assert_eq!(handle_action(&mut session, &mut studio, CLIENT, Action::BackToCalendar, today()), Effect::Nothing);
    handle_action(&mut session, &mut studio, CLIENT, Action::AnyPhotographer, today());
    assert_eq!(
        handle_action(&mut session, &mut studio, CLIENT, Action::BackToCalendar, today()),
        Effect::ShowCalendar { month: 4, year: 2024, photographer: None, user_type: UserType::Client }
    );
    assert_eq!(
        handle_action(&mut session, &mut studio, CLIENT, Action::ClientBookings(1), today()),
        Effect::ShowClientBookings { client_id: 1, page: 1 }
    );
    // a time that is no time of day is passed over
    let odd = Action::Time { start: TimeOfDay { hour: 30, minute: 0 }, end: clock(11) };
    handle_action(&mut session, &mut studio, CLIENT, Action::CalendarSelect(day()), today());
    assert_eq!(handle_action(&mut session, &mut studio, CLIENT, odd, today()), Effect::Nothing);
    assert_eq!(session.selected_time_start, None);
}

#[test]
fn the_store_keeps_one_session_per_chat() {
    let mut store = SessionStore::new();
    assert!(!store.contains(CLIENT));
    let mut session = store.take(CLIENT);
    assert_eq!(session.step, UserStep::Registration);
    assert_eq!(session.user_type, UserType::Unknown);
    session.step = UserStep::MainMenu;
    session.service_id = Some(3);
    store.put(CLIENT, session);
    assert!(store.contains(CLIENT));
    assert!(!store.contains(OTHER));
    let other = store.take(OTHER);
    assert_eq!(other.step, UserStep::Registration);
    store.put(OTHER, other);
    let again = store.take(CLIENT);
    assert_eq!(again.step, UserStep::MainMenu);
    assert_eq!(again.service_id, Some(3));
    assert!(!store.contains(CLIENT));
    assert!(store.contains(OTHER));
}
