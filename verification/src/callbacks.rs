//! The conversation when a button is pressed: what each action does to the
//! session and to the studio, and what is answered.

use crate::actions::{decoded, parse_action, Action};
use crate::calendar::{following_month, month_after, month_before, preceding_month, Date, TimeOfDay};
use crate::clients::{registers, revokes};
use crate::effects::{stay, Effect, Reaction};
use crate::ledger::{after_transition, judge, refusal, BookingError, Transition};
use crate::models::{Booking, BookingStatus, WorkingHours};
use crate::session::{fresh_session, PhotographerChoice, SessionState, UserSession, UserStep, UserType};
use crate::studio::{hours_after_save, Studio};
use vstd::prelude::*;
use vstd::string::*;

verus! {

/// The photographer who acts in the session: the session is a
/// photographer's and names the photographer.
pub open spec fn acting_photographer(s: SessionState) -> Option<i32> {
    if s.user_type == UserType::Photographer {
        s.photographer.named()
    } else {
        None
    }
}

/// The client who acts in the session: the session is a client's and names the client.
pub open spec fn acting_client(s: SessionState) -> Option<i32> {
    if s.user_type == UserType::Client {
        s.client_id
    } else {
        None
    }
}

/// The photographer that a booking of the session goes to: the one the
/// client named, else the one the studio assigns for the service and date.
pub open spec fn resolved_photographer(s: SessionState, studio: &Studio, service_id: i32, date: Date) -> Option<
    i32,
> {
    match s.photographer {
        PhotographerChoice::Specific(id) => Some(id),
        _ => studio.assigned(service_id, date),
    }
}

/// The booking that the session asks for when the client confirms: the
/// session is a client's and holds service, date and both times, and a
/// photographer can be found. The booking carries the number it would get.
pub open spec fn requested_booking(s: SessionState, studio: &Studio) -> Option<Booking> {
    match (acting_client(s), s.service_id, s.selected_date, s.selected_time_start, s.selected_time_end) {
        (Some(client_id), Some(service_id), Some(date), Some(start), Some(end)) => match resolved_photographer(
            s,
            studio,
            service_id,
            date,
        ) {
            Some(photographer_id) => Some(
                Booking {
                    id: (studio.ledger@.len() + 1) as i32,
                    client_id,
                    photographer_id,
                    service_id,
                    date,
                    booking_start: start,
                    booking_end: end,
                    status: BookingStatus::New,
                },
            ),
            None => None,
        },
        _ => None,
    }
}

/// Whether the session holds everything a booking needs but the photographer.
pub open spec fn is_ready_to_book(s: SessionState) -> bool {
    acting_client(s) is Some && s.service_id is Some && s.selected_date is Some
        && s.selected_time_start is Some && s.selected_time_end is Some
}

/// The answer to the client's confirmation of the summary.
pub open spec fn on_confirmed(s: SessionState, studio: &Studio) -> Reaction {
    if !is_ready_to_book(s) {
        stay(s, Effect::Nothing)
    } else {
        match requested_booking(s, studio) {
            None => stay(s, Effect::NoPhotographerAvailable),
            Some(booking) => match refusal(
                studio.ledger@,
                booking.photographer_id,
                booking.date,
                booking.booking_start,
                booking.booking_end,
            ) {
                None => Reaction {
                    session: SessionState { step: UserStep::MainMenu, ..s },
                    effect: Effect::BookingCreated {
                        booking_id: booking.id,
                        photographer_id: booking.photographer_id,
                    },
                },
                Some(BookingError::SlotTaken) => Reaction {
                    session: SessionState { step: UserStep::SelectingTime, ..s },
                    effect: Effect::SlotTaken,
                },
                Some(_) => Reaction {
                    session: SessionState { step: UserStep::MainMenu, ..s },
                    effect: Effect::BookingFailed,
                },
            },
        }
    }
}

/// The answer to the choice of a day of the calendar.
pub open spec fn on_date(s: SessionState, studio: &Studio, date: Date, today: Date) -> Reaction {
    let chosen = SessionState { selected_date: Some(date), ..s };
    if date.earlier_than(today) {
        stay(s, Effect::DateInPast)
    } else if s.user_type == UserType::Photographer {
        match s.photographer.named() {
            Some(photographer_id) => stay(chosen, Effect::ChooseHours { photographer_id, date }),
            None => stay(s, Effect::UnknownCommand),
        }
    } else {
        match s.service_id {
            None => stay(s, Effect::Nothing),
            Some(service_id) => match s.photographer {
                PhotographerChoice::Specific(photographer_id) => if !studio.works_on(
                    photographer_id,
                    date,
                ) {
                    stay(chosen, Effect::NotWorking)
                } else if !studio.has_free_slot(photographer_id, service_id, date) {
                    stay(chosen, Effect::NoFreeSlots)
                } else {
                    Reaction {
                        session: SessionState { step: UserStep::SelectingTime, ..chosen },
                        effect: Effect::ShowTimeSlots {
                            photographer: Some(photographer_id),
                            service_id,
                            date,
                        },
                    }
                },
                _ => if exists|slot: crate::availability::Slot|
                    studio.is_free_with_anyone(service_id, date, slot) {
                    Reaction {
                        session: SessionState { step: UserStep::SelectingTime, ..chosen },
                        effect: Effect::ShowTimeSlots { photographer: None, service_id, date },
                    }
                } else {
                    stay(chosen, Effect::NoFreeSlots)
                },
            },
        }
    }
}

/// The answer to the choice of a time slot.
pub open spec fn on_time(s: SessionState, studio: &Studio, start: TimeOfDay, end: TimeOfDay) -> Reaction {
    match (s.service_id, s.selected_date) {
        (Some(service_id), Some(date)) => if start.is_valid() && end.is_valid() && s.user_type
            != UserType::Photographer {
            let timed = SessionState {
                selected_time_start: Some(start),
                selected_time_end: Some(end),
                ..s
            };
            match resolved_photographer(s, studio, service_id, date) {
                Some(photographer_id) => Reaction {
                    session: SessionState { step: UserStep::ConfirmingBooking, ..timed },
                    effect: Effect::ShowSummary { service_id, photographer_id, date, start, end },
                },
                None => stay(timed, Effect::NoPhotographerAvailable),
            }
        } else {
            stay(s, Effect::Nothing)
        },
        _ => stay(s, Effect::Nothing),
    }
}

/// The booking that the one who acts in the session may move to `target`:
/// a photographer's own booking, or a client's own where `by_client` is set.
pub open spec fn own_booking(s: SessionState, studio: &Studio, id: i32, by_client: bool) -> Option<
    Booking,
> {
    if 1 <= id <= studio.ledger@.len() {
        let booking = studio.ledger@[id - 1];
        if by_client {
            if acting_client(s) == Some(booking.client_id) {
                Some(booking)
            } else {
                None
            }
        } else {
            if acting_photographer(s) == Some(booking.photographer_id) {
                Some(booking)
            } else {
                None
            }
        }
    } else {
        None
    }
}

/// What is answered when a booking has moved, or was asked again to move, to `target`.
pub open spec fn moved_effect(booking: Booking, target: BookingStatus, by_client: bool) -> Effect {
    match target {
        BookingStatus::Confirmed => Effect::BookingConfirmed {
            booking_id: booking.id,
            client_id: booking.client_id,
        },
        BookingStatus::Completed => Effect::BookingCompleted {
            booking_id: booking.id,
            client_id: booking.client_id,
        },
        _ => if by_client {
            Effect::BookingCancelledByClient {
                booking_id: booking.id,
                photographer_id: booking.photographer_id,
            }
        } else {
            Effect::BookingCancelledByPhotographer {
                booking_id: booking.id,
                client_id: booking.client_id,
            }
        },
    }
}

/// The answer to a request to move a booking to `target`.
pub open spec fn on_move(
    s: SessionState,
    studio: &Studio,
    id: i32,
    target: BookingStatus,
    by_client: bool,
) -> Reaction {
    let role_ok = if by_client {
        acting_client(s) is Some
    } else {
        acting_photographer(s) is Some
    };
    if !role_ok {
        stay(s, Effect::UnknownCommand)
    } else {
        match own_booking(s, studio, id, by_client) {
            Some(booking) => if judge(booking.status, target) == Transition::Refused {
                stay(s, Effect::Nothing)
            } else {
                stay(s, moved_effect(booking, target, by_client))
            },
            None => stay(s, Effect::Nothing),
        }
    }
}

/// The move of a booking that an action asks for: the number of the
/// booking, the status it is to get, and whether the client asks.
pub open spec fn requested_move(action: Action) -> Option<(i32, BookingStatus, bool)> {
    match action {
        Action::ConfirmBooking(id) => Some((id, BookingStatus::Confirmed, false)),
        Action::RejectBooking(id) => Some((id, BookingStatus::Cancelled, false)),
        Action::CompleteBooking(id) => Some((id, BookingStatus::Completed, false)),
        Action::ClientRejectBooking(id) => Some((id, BookingStatus::Cancelled, true)),
        _ => None,
    }
}

/// The calendar of this month for the session.
pub open spec fn calendar_of(s: SessionState, today: Date, user_type: UserType) -> Effect {
    Effect::ShowCalendar {
        month: today.month,
        year: today.year,
        photographer: s.photographer.named(),
        user_type,
    }
}

/// What pressing a button comes to: the session afterwards and the effect.
pub open spec fn callback_reaction(
    s: SessionState,
    studio: &Studio,
    chat_id: i64,
    action: Action,
    today: Date,
) -> Reaction {
    match action {
        Action::Ignore => stay(s, Effect::Nothing),
        Action::Back => stay(s, Effect::Nothing),
        Action::Agree => if s.user_type == UserType::Photographer {
            stay(s, Effect::UnknownCommand)
        } else {
            match studio.clients.number_for(chat_id) {
                Some(client_id) => Reaction {
                    session: SessionState {
                        agreement: true,
                        client_id: Some(client_id),
                        user_type: UserType::Client,
                        step: UserStep::MainMenu,
                        ..s
                    },
                    effect: Effect::Registered { client_id },
                },
                None => stay(s, Effect::RegistrationFailed),
            }
        },
        Action::Bookings(list) => match acting_photographer(s) {
            Some(photographer_id) => stay(s, Effect::ShowBookings { list, photographer_id, page: 0 }),
            None => stay(s, Effect::UnknownCommand),
        },
        Action::BookingsPage(list, page) => match acting_photographer(s) {
            Some(photographer_id) => stay(s, Effect::ShowBookings { list, photographer_id, page }),
            None => stay(s, Effect::UnknownCommand),
        },
        Action::ClientBookings(page) => match acting_client(s) {
            Some(client_id) => stay(s, Effect::ShowClientBookings { client_id, page }),
            None => stay(s, Effect::UnknownCommand),
        },
        Action::CalendarSelect(date) => on_date(s, studio, date, today),
        Action::CalendarNext { month, year } => match following_month(month, year) {
            Some(next) => stay(
                s,
                Effect::ShowCalendar {
                    month: next.0,
                    year: next.1,
                    photographer: s.photographer.named(),
                    user_type: s.user_type,
                },
            ),
            None => stay(s, Effect::Nothing),
        },
        Action::CalendarPrev { month, year } => match preceding_month(month, year) {
            Some(previous) => stay(
                s,
                Effect::ShowCalendar {
                    month: previous.0,
                    year: previous.1,
                    photographer: s.photographer.named(),
                    user_type: s.user_type,
                },
            ),
            None => stay(s, Effect::Nothing),
        },
        Action::PhotographerInfo(photographer_id) => stay(
            s,
            Effect::ShowPhotographerInfo { photographer_id },
        ),
        Action::Time { start, end } => on_time(s, studio, start, end),
        Action::Service(service_id) => if s.user_type == UserType::Photographer {
            stay(s, Effect::UnknownCommand)
        } else {
            Reaction {
                session: SessionState {
                    service_id: Some(service_id),
                    step: UserStep::SelectingPhotographer,
                    ..s
                },
                effect: Effect::ShowPhotographers { service_id },
            }
        },
        Action::ServiceInfo(service_id) => stay(s, Effect::ShowServiceInfo { service_id }),
        Action::Photographer(photographer_id) => if s.user_type == UserType::Photographer {
            stay(s, Effect::UnknownCommand)
        } else {
            Reaction {
                session: SessionState {
                    photographer: PhotographerChoice::Specific(photographer_id),
                    step: UserStep::SelectingTime,
                    ..s
                },
                effect: Effect::ShowCalendar {
                    month: today.month,
                    year: today.year,
                    photographer: Some(photographer_id),
                    user_type: UserType::Client,
                },
            }
        },
        Action::AnyPhotographer => if s.user_type == UserType::Photographer {
            stay(s, Effect::UnknownCommand)
        } else {
            Reaction {
                session: SessionState {
                    photographer: PhotographerChoice::Any,
                    step: UserStep::SelectingTime,
                    ..s
                },
                effect: Effect::ShowCalendar {
                    month: today.month,
                    year: today.year,
                    photographer: None,
                    user_type: UserType::Client,
                },
            }
        },
        Action::Confirming(true) => on_confirmed(s, studio),
        Action::Confirming(false) => if s.user_type == UserType::Photographer {
            stay(s, Effect::UnknownCommand)
        } else {
            Reaction {
                session: SessionState { step: UserStep::SelectingService, ..s },
                effect: Effect::ShowServices,
            }
        },
        Action::WorkingHours { start_hour, end_hour } => match (acting_photographer(s), s.selected_date) {
            (Some(photographer_id), Some(date)) => stay(s, Effect::HoursSaved { photographer_id, date }),
            (Some(_), None) => stay(s, Effect::Nothing),
            _ => stay(s, Effect::UnknownCommand),
        },
        Action::CustomHours => match acting_photographer(s) {
            Some(_) => Reaction {
                session: SessionState { step: UserStep::CustomHours, ..s },
                effect: Effect::AskHours,
            },
            None => stay(s, Effect::UnknownCommand),
        },
        Action::EditSchedule => match acting_photographer(s) {
            Some(_) => stay(s, calendar_of(s, today, UserType::Photographer)),
            None => stay(s, Effect::UnknownCommand),
        },
        Action::AddWorkingDay => match acting_photographer(s) {
            Some(_) => stay(s, calendar_of(s, today, UserType::Photographer)),
            None => stay(s, Effect::UnknownCommand),
        },
        Action::ConfirmBooking(id) => on_move(s, studio, id, BookingStatus::Confirmed, false),
        Action::RejectBooking(id) => on_move(s, studio, id, BookingStatus::Cancelled, false),
        Action::CompleteBooking(id) => on_move(s, studio, id, BookingStatus::Completed, false),
        Action::ClientRejectBooking(id) => on_move(s, studio, id, BookingStatus::Cancelled, true),
        Action::BackToServices => if s.user_type == UserType::Photographer {
            stay(s, Effect::UnknownCommand)
        } else {
            Reaction {
                session: SessionState { step: UserStep::SelectingService, ..s },
                effect: Effect::ShowServices,
            }
        },
        Action::BackToPhotographers => match s.service_id {
            Some(service_id) => if s.user_type == UserType::Photographer {
                stay(s, Effect::UnknownCommand)
            } else {
                Reaction {
                    session: SessionState { step: UserStep::SelectingPhotographer, ..s },
                    effect: Effect::ShowPhotographers { service_id },
                }
            },
            None => stay(s, Effect::Nothing),
        },
        Action::BackToCalendar => if s.user_type == UserType::Photographer {
            stay(s, Effect::UnknownCommand)
        } else if s.service_id is Some && s.photographer != PhotographerChoice::Unselected {
            Reaction {
                session: SessionState { step: UserStep::SelectingTime, ..s },
                effect: calendar_of(s, today, UserType::Client),
            }
        } else {
            stay(s, Effect::Nothing)
        },
        Action::RevokeConsent(true) => if studio.clients.client_of(chat_id) is Some {
            Reaction { session: fresh_session(), effect: Effect::ConsentRevoked }
        } else {
            stay(s, Effect::Nothing)
        },
        Action::RevokeConsent(false) => stay(s, Effect::RevocationCancelled),
    }
}

/// The bookings after a button was pressed: one more where the client
/// confirmed a booking that the ledger accepts, one moved where its
/// photographer or client asked for a move that is allowed, else the same.
pub open spec fn ledger_after_callback(s: SessionState, studio: &Studio, action: Action) -> Seq<Booking> {
    match action {
        Action::Confirming(true) => match requested_booking(s, studio) {
            Some(booking) => if refusal(
                studio.ledger@,
                booking.photographer_id,
                booking.date,
                booking.booking_start,
                booking.booking_end,
            ) is None {
                studio.ledger@.push(booking)
            } else {
                studio.ledger@
            },
            None => studio.ledger@,
        },
        _ => match requested_move(action) {
            Some((id, target, by_client)) => if own_booking(s, studio, id, by_client) is Some {
                after_transition(studio.ledger@, id, target)
            } else {
                studio.ledger@
            },
            None => studio.ledger@,
        },
    }
}

/// The working hours after a button was pressed: written where a
/// photographer chose hours for the selected date, else the same.
pub open spec fn hours_after_callback(s: SessionState, studio: &Studio, action: Action) -> Seq<
    WorkingHours,
> {
    match action {
        Action::WorkingHours { start_hour, end_hour } => match (acting_photographer(s), s.selected_date) {
            (Some(photographer_id), Some(date)) => hours_after_save(
                studio.hours@,
                WorkingHours { photographer_id, date, start_hour, end_hour },
            ),
            _ => studio.hours@,
        },
        _ => studio.hours@,
    }
}

/// Whether the clients `after` are what pressing the button makes of the
/// clients `before`: the client registered on consent, moved to the archive
/// where consent is revoked, else the same.
pub open spec fn clients_follow(
    s: SessionState,
    before: &Studio,
    after: &Studio,
    chat_id: i64,
    action: Action,
) -> bool {
    match action {
        Action::Agree => if s.user_type == UserType::Photographer {
            after.clients == before.clients
        } else {
            registers(
                before.clients,
                after.clients,
                chat_id,
                s.client_name,
                s.client_username,
                before.clients.number_for(chat_id),
            )
        },
        Action::RevokeConsent(true) => revokes(
            before.clients,
            after.clients,
            chat_id,
            before.clients.client_of(chat_id) is Some,
        ),
        _ => after.clients == before.clients,
    }
}

/// Whether photographers, services and offers are the same in both.
pub open spec fn same_catalogue(before: &Studio, after: &Studio) -> bool {
    &&& after.photographers == before.photographers
    &&& after.services == before.services
    &&& after.offers == before.offers
}

/// The client confirms the summary: the booking is made if the ledger accepts it now.
fn confirm_booking(session: &mut UserSession, studio: &mut Studio) -> (effect: Effect)
    requires
        old(studio).well_formed(),
    ensures
        final(studio).well_formed(),
        final(session)@ == on_confirmed(old(session)@, old(studio)).session,
        effect == on_confirmed(old(session)@, old(studio)).effect,
        final(studio).ledger@ == ledger_after_callback(old(session)@, old(studio), Action::Confirming(true)),
        final(studio).hours == old(studio).hours,
        final(studio).clients == old(studio).clients,
        same_catalogue(old(studio), final(studio)),
{
    let client = match session.user_type {
        UserType::Client => session.client_id,
        _ => None,
    };
    match (client, session.service_id, session.selected_date, session.selected_time_start, session.selected_time_end) {
        (Some(client_id), Some(service_id), Some(date), Some(start), Some(end)) => {
            let photographer = match session.photographer {
                PhotographerChoice::Specific(id) => Some(id),
                _ => studio.find_available_photographer(service_id, date),
            };
            match photographer {
                Some(photographer_id) => {
                    match studio.ledger.create_booking(client_id, photographer_id, service_id, date, start, end) {
                        Ok(booking_id) => {
                            session.step = UserStep::MainMenu;
                            Effect::BookingCreated { booking_id, photographer_id }
                        },
                        Err(BookingError::SlotTaken) => {
                            session.step = UserStep::SelectingTime;
                            Effect::SlotTaken
                        },
                        Err(_) => {
                            session.step = UserStep::MainMenu;
                            Effect::BookingFailed
                        },
                    }
                },
                None => Effect::NoPhotographerAvailable,
            }
        },
        _ => Effect::Nothing,
    }
}

/// A day of the calendar is chosen.
fn select_date(session: &mut UserSession, studio: &Studio, date: Date, today: Date) -> (effect: Effect)
    ensures
        final(session)@ == on_date(old(session)@, studio, date, today).session,
        effect == on_date(old(session)@, studio, date, today).effect,
{
    if date.is_before(&today) {
        return Effect::DateInPast;
    }
    match session.user_type {
        UserType::Photographer => match session.photographer.id() {
            Some(photographer_id) => {
                session.selected_date = Some(date);
                Effect::ChooseHours { photographer_id, date }
            },
            None => Effect::UnknownCommand,
        },
        _ => match session.service_id {
            None => Effect::Nothing,
            Some(service_id) => {
                session.selected_date = Some(date);
                match session.photographer {
                    PhotographerChoice::Specific(photographer_id) => {
                        if !studio.check_working_day(Some(photographer_id), date) {
                            Effect::NotWorking
                        } else if studio.get_free_slots(photographer_id, service_id, date).len() == 0 {
                            Effect::NoFreeSlots
                        } else {
                            session.step = UserStep::SelectingTime;
                            Effect::ShowTimeSlots { photographer: Some(photographer_id), service_id, date }
                        }
                    },
                    _ => {
                        let slots = studio.get_available_photographers(service_id, date);
                        proof {
                            if slots@.len() > 0 {
                                assert(slots@.contains(slots@[0]));
                                assert(studio.is_free_with_anyone(service_id, date, slots@[0]));
                            }
                            if exists|slot: crate::availability::Slot|
                                studio.is_free_with_anyone(service_id, date, slot) {
                                let slot = choose|slot: crate::availability::Slot|
                                    studio.is_free_with_anyone(service_id, date, slot);
                                assert(slots@.contains(slot));
                            }
                        }
                        if slots.len() == 0 {
                            Effect::NoFreeSlots
                        } else {
                            session.step = UserStep::SelectingTime;
                            Effect::ShowTimeSlots { photographer: None, service_id, date }
                        }
                    },
                }
            },
        },
    }
}

/// A time slot is chosen.
fn select_time(session: &mut UserSession, studio: &Studio, start: TimeOfDay, end: TimeOfDay) -> (effect:
    Effect)
    ensures
        final(session)@ == on_time(old(session)@, studio, start, end).session,
        effect == on_time(old(session)@, studio, start, end).effect,
{
    match (session.service_id, session.selected_date) {
        (Some(service_id), Some(date)) => {
            let by_photographer = match session.user_type {
                UserType::Photographer => true,
                _ => false,
            };
            if start.check() && end.check() && !by_photographer {
                session.selected_time_start = Some(start);
                session.selected_time_end = Some(end);
                let photographer = match session.photographer {
                    PhotographerChoice::Specific(id) => Some(id),
                    _ => studio.find_available_photographer(service_id, date),
                };
                match photographer {
                    Some(photographer_id) => {
                        session.step = UserStep::ConfirmingBooking;
                        Effect::ShowSummary { service_id, photographer_id, date, start, end }
                    },
                    None => Effect::NoPhotographerAvailable,
                }
            } else {
                Effect::Nothing
            }
        },
        _ => Effect::Nothing,
    }
}

/// The photographer or the client of a booking asks to move it to another status.
fn move_booking(session: &UserSession, studio: &mut Studio, id: i32, target: BookingStatus, by_client: bool) -> (effect:
    Effect)
    requires
        old(studio).well_formed(),
        target != BookingStatus::New,
    ensures
        final(studio).well_formed(),
        effect == on_move(session@, old(studio), id, target, by_client).effect,
        final(studio).ledger@ == if own_booking(session@, old(studio), id, by_client) is Some {
            after_transition(old(studio).ledger@, id, target)
        } else {
            old(studio).ledger@
        },
        final(studio).hours == old(studio).hours,
        final(studio).clients == old(studio).clients,
        same_catalogue(old(studio), final(studio)),
{
    let actor = if by_client {
        match session.user_type {
            UserType::Client => session.client_id,
            _ => None,
        }
    } else {
        match session.user_type {
            UserType::Photographer => session.photographer.id(),
            _ => None,
        }
    };
    match actor {
        None => Effect::UnknownCommand,
        Some(actor_id) => match studio.ledger.find(id) {
            None => Effect::Nothing,
            Some(booking) => {
                let owner = if by_client {
                    booking.client_id
                } else {
                    booking.photographer_id
                };
                if owner != actor_id {
                    return Effect::Nothing;
                }
                match studio.ledger.transition(id, target) {
                    Transition::Applied | Transition::Repeated => match target {
                        BookingStatus::Confirmed => Effect::BookingConfirmed {
                            booking_id: booking.id,
                            client_id: booking.client_id,
                        },
                        BookingStatus::Completed => Effect::BookingCompleted {
                            booking_id: booking.id,
                            client_id: booking.client_id,
                        },
                        _ => if by_client {
                            Effect::BookingCancelledByClient {
                                booking_id: booking.id,
                                photographer_id: booking.photographer_id,
                            }
                        } else {
                            Effect::BookingCancelledByPhotographer {
                                booking_id: booking.id,
                                client_id: booking.client_id,
                            }
                        },
                    },
                    _ => Effect::Nothing,
                }
            },
        },
    }
}

/// Consent is given: the client is registered.
fn give_consent(session: &mut UserSession, studio: &mut Studio, chat_id: i64) -> (effect: Effect)
    requires
        old(studio).well_formed(),
    ensures
        final(studio).well_formed(),
        final(session)@ == callback_reaction(
            old(session)@,
            old(studio),
            chat_id,
            Action::Agree,
            Date { year: 0, month: 0, day: 0 },
        ).session,
        effect == callback_reaction(
            old(session)@,
            old(studio),
            chat_id,
            Action::Agree,
            Date { year: 0, month: 0, day: 0 },
        ).effect,
        clients_follow(old(session)@, old(studio), final(studio), chat_id, Action::Agree),
        final(studio).ledger == old(studio).ledger,
        final(studio).hours == old(studio).hours,
        same_catalogue(old(studio), final(studio)),
{
    match session.user_type {
        UserType::Photographer => {
            return Effect::UnknownCommand;
        },
        _ => {},
    }
    let name = session.client_name.clone();
    let username = session.client_username.clone();
    match studio.clients.register(chat_id, name, username) {
        Some(client_id) => {
            session.agreement = true;
            session.client_id = Some(client_id);
            session.user_type = UserType::Client;
            session.step = UserStep::MainMenu;
            Effect::Registered { client_id }
        },
        None => Effect::RegistrationFailed,
    }
}

/// Consent is revoked: the client moves to the archive and the session starts over.
fn revoke_consent(session: &mut UserSession, studio: &mut Studio, chat_id: i64) -> (effect: Effect)
    requires
        old(studio).well_formed(),
    ensures
        final(studio).well_formed(),
        final(session)@ == callback_reaction(
            old(session)@,
            old(studio),
            chat_id,
            Action::RevokeConsent(true),
            Date { year: 0, month: 0, day: 0 },
        ).session,
        effect == callback_reaction(
            old(session)@,
            old(studio),
            chat_id,
            Action::RevokeConsent(true),
            Date { year: 0, month: 0, day: 0 },
        ).effect,
        clients_follow(old(session)@, old(studio), final(studio), chat_id, Action::RevokeConsent(true)),
        final(studio).ledger == old(studio).ledger,
        final(studio).hours == old(studio).hours,
        same_catalogue(old(studio), final(studio)),
{
    if studio.clients.revoke(chat_id) {
        *session = UserSession::new();
        Effect::ConsentRevoked
    } else {
        Effect::Nothing
    }
}

/// Carries out the action of a pressed button.
///
/// The session and the effect are those of `callback_reaction`. The studio
/// changes only where the action writes: a confirmed booking that the ledger
/// accepts is added, a booking moves where its own photographer or client
/// asks for an allowed move, working hours are written for the selected
/// date, a client is registered on consent or archived on revocation.
pub fn handle_action(
    session: &mut UserSession,
    studio: &mut Studio,
    chat_id: i64,
    action: Action,
    today: Date,
) -> (effect: Effect)
    requires
        old(studio).well_formed(),
    ensures
        final(studio).well_formed(),
        final(session)@ == callback_reaction(old(session)@, old(studio), chat_id, action, today).session,
        effect == callback_reaction(old(session)@, old(studio), chat_id, action, today).effect,
        final(studio).ledger@ == ledger_after_callback(old(session)@, old(studio), action),
        final(studio).hours@ == hours_after_callback(old(session)@, old(studio), action),
        clients_follow(old(session)@, old(studio), final(studio), chat_id, action),
        same_catalogue(old(studio), final(studio)),
{
    let by_photographer = match session.user_type {
        UserType::Photographer => true,
        _ => false,
    };
    let photographer = if by_photographer {
        session.photographer.id()
    } else {
        None
    };
    let client = match session.user_type {
        UserType::Client => session.client_id,
        _ => None,
    };
    match action {
        Action::Ignore => Effect::Nothing,
        Action::Back => Effect::Nothing,
        Action::Agree => give_consent(session, studio, chat_id),
        Action::Bookings(list) => match photographer {
            Some(photographer_id) => Effect::ShowBookings { list, photographer_id, page: 0 },
            None => Effect::UnknownCommand,
        },
        Action::BookingsPage(list, page) => match photographer {
            Some(photographer_id) => Effect::ShowBookings { list, photographer_id, page },
            None => Effect::UnknownCommand,
        },
        Action::ClientBookings(page) => match client {
            Some(client_id) => Effect::ShowClientBookings { client_id, page },
            None => Effect::UnknownCommand,
        },
        Action::CalendarSelect(date) => select_date(session, studio, date, today),
        Action::CalendarNext { month, year } => match month_after(month, year) {
            Some((month, year)) => Effect::ShowCalendar {
                month,
                year,
                photographer: session.photographer.id(),
                user_type: session.user_type,
            },
            None => Effect::Nothing,
        },
        Action::CalendarPrev { month, year } => match month_before(month, year) {
            Some((month, year)) => Effect::ShowCalendar {
                month,
                year,
                photographer: session.photographer.id(),
                user_type: session.user_type,
            },
            None => Effect::Nothing,
        },
        Action::PhotographerInfo(photographer_id) => Effect::ShowPhotographerInfo { photographer_id },
        Action::Time { start, end } => select_time(session, studio, start, end),
        Action::Service(service_id) => if by_photographer {
            Effect::UnknownCommand
        } else {
            session.service_id = Some(service_id);
            session.step = UserStep::SelectingPhotographer;
            Effect::ShowPhotographers { service_id }
        },
        Action::ServiceInfo(service_id) => Effect::ShowServiceInfo { service_id },
        Action::Photographer(photographer_id) => if by_photographer {
            Effect::UnknownCommand
        } else {
            session.photographer = PhotographerChoice::Specific(photographer_id);
            session.step = UserStep::SelectingTime;
            Effect::ShowCalendar {
                month: today.month,
                year: today.year,
                photographer: Some(photographer_id),
                user_type: UserType::Client,
            }
        },
        Action::AnyPhotographer => if by_photographer {
            Effect::UnknownCommand
        } else {
            session.photographer = PhotographerChoice::Any;
            session.step = UserStep::SelectingTime;
            Effect::ShowCalendar {
                month: today.month,
                year: today.year,
                photographer: None,
                user_type: UserType::Client,
            }
        },
        Action::Confirming(true) => confirm_booking(session, studio),
        Action::Confirming(false) => if by_photographer {
            Effect::UnknownCommand
        } else {
            session.step = UserStep::SelectingService;
            Effect::ShowServices
        },
        Action::WorkingHours { start_hour, end_hour } => match (photographer, session.selected_date) {
            (Some(photographer_id), Some(date)) => {
                studio.save_working_hours(photographer_id, date, start_hour, end_hour);
                Effect::HoursSaved { photographer_id, date }
            },
            (Some(_), None) => Effect::Nothing,
            _ => Effect::UnknownCommand,
        },
        Action::CustomHours => match photographer {
            Some(_) => {
                session.step = UserStep::CustomHours;
                Effect::AskHours
            },
            None => Effect::UnknownCommand,
        },
        Action::EditSchedule => match photographer {
            Some(_) => Effect::ShowCalendar {
                month: today.month,
                year: today.year,
                photographer: session.photographer.id(),
                user_type: UserType::Photographer,
            },
            None => Effect::UnknownCommand,
        },
        Action::AddWorkingDay => match photographer {
            Some(_) => Effect::ShowCalendar {
                month: today.month,
                year: today.year,
                photographer: session.photographer.id(),
                user_type: UserType::Photographer,
            },
            None => Effect::UnknownCommand,
        },
        Action::ConfirmBooking(id) => move_booking(session, studio, id, BookingStatus::Confirmed, false),
        Action::RejectBooking(id) => move_booking(session, studio, id, BookingStatus::Cancelled, false),
        Action::CompleteBooking(id) => move_booking(session, studio, id, BookingStatus::Completed, false),
        Action::ClientRejectBooking(id) => move_booking(session, studio, id, BookingStatus::Cancelled, true),
        Action::BackToServices => if by_photographer {
            Effect::UnknownCommand
        } else {
            session.step = UserStep::SelectingService;
            Effect::ShowServices
        },
        Action::BackToPhotographers => match session.service_id {
            Some(service_id) => if by_photographer {
                Effect::UnknownCommand
            } else {
                session.step = UserStep::SelectingPhotographer;
                Effect::ShowPhotographers { service_id }
            },
            None => Effect::Nothing,
        },
        Action::BackToCalendar => {
            let chosen = match session.photographer {
                PhotographerChoice::Unselected => false,
                _ => true,
            };
            if by_photographer {
                Effect::UnknownCommand
            } else if session.service_id.is_some() && chosen {
                session.step = UserStep::SelectingTime;
                Effect::ShowCalendar {
                    month: today.month,
                    year: today.year,
                    photographer: session.photographer.id(),
                    user_type: UserType::Client,
                }
            } else {
                Effect::Nothing
            }
        },
        Action::RevokeConsent(true) => revoke_consent(session, studio, chat_id),
        Action::RevokeConsent(false) => Effect::RevocationCancelled,
    }
}

/// Handles a pressed button by its token. A token that is the token of no
/// action is passed over: nothing changes and nothing is answered.
pub fn handle_callback_query(
    session: &mut UserSession,
    studio: &mut Studio,
    chat_id: i64,
    data: &str,
    today: Date,
) -> (effect: Effect)
    requires
        old(studio).well_formed(),
    ensures
        final(studio).well_formed(),
        same_catalogue(old(studio), final(studio)),
        final(session)@ == callback_reaction(
            old(session)@,
            old(studio),
            chat_id,
            decoded(data@),
            today,
        ).session,
        effect == callback_reaction(old(session)@, old(studio), chat_id, decoded(data@), today).effect,
        final(studio).ledger@ == ledger_after_callback(old(session)@, old(studio), decoded(data@)),
        final(studio).hours@ == hours_after_callback(old(session)@, old(studio), decoded(data@)),
        clients_follow(old(session)@, old(studio), final(studio), chat_id, decoded(data@)),
{
    let action = parse_action(data);
    handle_action(session, studio, chat_id, action, today)
}

/// A day before today is never accepted, whoever chooses it and whatever
/// was chosen before: the session stays as it was and nothing is written.
pub proof fn lemma_past_date_is_rejected(
    s: SessionState,
    studio: &Studio,
    chat_id: i64,
    date: Date,
    today: Date,
)
    requires
        date.earlier_than(today),
    ensures
        callback_reaction(s, studio, chat_id, Action::CalendarSelect(date), today) == stay(
            s,
            Effect::DateInPast,
        ),
        ledger_after_callback(s, studio, Action::CalendarSelect(date)) == studio.ledger@,
        hours_after_callback(s, studio, Action::CalendarSelect(date)) == studio.hours@,
{
}

/// The date of a session is never set to a day before today: after any
/// action it is the date it was, or a day that is not before today, or
/// the session was reset.
pub proof fn lemma_selected_date_is_not_past(
    s: SessionState,
    studio: &Studio,
    chat_id: i64,
    action: Action,
    today: Date,
)
    ensures
        ({
            let after = callback_reaction(s, studio, chat_id, action, today).session;
            ||| after.selected_date == s.selected_date
            ||| after.selected_date matches Some(date) && !date.earlier_than(today)
            ||| after == fresh_session()
        }),
{
}

/// A token that is the token of no action changes nothing and is answered by nothing.
pub proof fn lemma_unknown_token_is_ignored(
    s: SessionState,
    before: &Studio,
    after: &Studio,
    chat_id: i64,
    data: Seq<char>,
    today: Date,
)
    requires
        forall|action: Action| action.encodable() ==> #[trigger] action.token_text() != data,
        clients_follow(s, before, after, chat_id, decoded(data)),
    ensures
        decoded(data) == Action::Ignore,
        callback_reaction(s, before, chat_id, decoded(data), today) == stay(s, Effect::Nothing),
        ledger_after_callback(s, before, decoded(data)) == before.ledger@,
        hours_after_callback(s, before, decoded(data)) == before.hours@,
        after.clients == before.clients,
{
}

/// Once a booking is made, the same time with the same photographer is
/// refused to whoever asks next, whatever free slots were shown before.
pub proof fn lemma_booked_time_is_taken(s: SessionState, studio: &Studio, later: SessionState, after: &Studio)
    requires
        on_confirmed(s, studio).effect is BookingCreated,
        after.ledger@ == ledger_after_callback(s, studio, Action::Confirming(true)),
        is_ready_to_book(later),
        requested_booking(later, after) matches Some(second) && requested_booking(s, studio) matches Some(
            first,
        ) && second.photographer_id == first.photographer_id && second.date == first.date
            && second.booking_start == first.booking_start && second.booking_end == first.booking_end,
    ensures
        on_confirmed(later, after).effect == Effect::SlotTaken,
        ledger_after_callback(later, after, Action::Confirming(true)) == after.ledger@,
{
    let first = requested_booking(s, studio).unwrap();
    let bookings = after.ledger@;
    assert(bookings[bookings.len() - 1] == first);
    assert(first.blocks(
        first.photographer_id,
        first.date,
        first.booking_start.minutes(),
        first.booking_end.minutes(),
    ));
}

/// Only a booking's own photographer or client moves it, and only along
/// the allowed moves: after any action every booking that was there has its
/// old status or has made an allowed move, and nothing else about it changed.
pub proof fn lemma_actions_move_status_forward(s: SessionState, studio: &Studio, action: Action, i: int)
    requires
        0 <= i < studio.ledger@.len(),
    ensures
        ({
            let before = studio.ledger@[i];
            let after = ledger_after_callback(s, studio, action);
            &&& after.len() >= studio.ledger@.len()
            &&& after[i] == Booking { status: after[i].status, ..before }
            &&& (after[i].status == before.status || before.status.permits(after[i].status))
        }),
{
    match requested_move(action) {
        Some((id, target, by_client)) => {
            crate::ledger::lemma_status_moves_forward(studio.ledger@, id, target);
        },
        None => {},
    }
}

} // verus!
