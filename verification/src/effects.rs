//! What the studio answers to an event: one effect for the chat transport
//! and the store to carry out.

use crate::actions::BookingList;
use crate::calendar::{Date, TimeOfDay};
use crate::session::{SessionState, UserType};
use vstd::prelude::*;

verus! {

/// What is to be shown, sent or written in answer to an event.
#[derive(Clone, Copy, Debug, PartialEq, Eq, Structural)]
pub enum Effect {
    /// Nothing: the event is passed over in silence.
    Nothing,
    /// The fixed answer to a command that the user may not give.
    UnknownCommand,
    /// Ask a newcomer for a name.
    AskName,
    /// Ask for consent; the name and handle are in the session.
    AskConsent,
    /// Greet a known client with the main menu.
    Welcome,
    /// The client is registered under this number; show the main menu.
    Registered { client_id: i32 },
    /// The registration could not be written.
    RegistrationFailed,
    /// The main menu of a client.
    ShowMainMenu,
    /// The main menu of a photographer.
    ShowPhotographerMenu,
    /// The personal cabinet of a client.
    ShowCabinet,
    /// Ask for a new name.
    AskNewName,
    /// The new name is too short; ask again.
    NameTooShort,
    /// The client's name was changed to the text of the message; show the main menu.
    NameChanged,
    /// Ask whether consent is really to be revoked.
    AskRevocation,
    /// Consent stays.
    RevocationCancelled,
    /// Consent was revoked and the client moved to the archive.
    ConsentRevoked,
    /// The list of services.
    ShowServices,
    /// More about a service.
    ShowServiceInfo { service_id: i32 },
    /// The photographers who offer the service.
    ShowPhotographers { service_id: i32 },
    /// More about a photographer.
    ShowPhotographerInfo { photographer_id: i32 },
    /// The calendar of a month; `photographer` is `None` for a client who named none.
    ShowCalendar { month: u32, year: i32, photographer: Option<i32>, user_type: UserType },
    /// The chosen date lies in the past.
    DateInPast,
    /// The photographer does not work on the chosen date.
    NotWorking,
    /// Nothing is free on the chosen date.
    NoFreeSlots,
    /// The free slots of the date; `photographer` is `None` for a client who named none.
    ShowTimeSlots { photographer: Option<i32>, service_id: i32, date: Date },
    /// No photographer is free for a client who named none.
    NoPhotographerAvailable,
    /// The summary of the booking that is about to be made.
    ShowSummary { service_id: i32, photographer_id: i32, date: Date, start: TimeOfDay, end: TimeOfDay },
    /// The booking was made; the photographer is to be told.
    BookingCreated { booking_id: i32, photographer_id: i32 },
    /// The slot was taken in the meantime; the client chooses another.
    SlotTaken,
    /// The booking could not be made.
    BookingFailed,
    /// A page of the client's bookings.
    ShowClientBookings { client_id: i32, page: u32 },
    /// The first page of the client's bookings, and the personal cabinet.
    ShowClientHistory { client_id: i32 },
    /// The kinds of lists of bookings that a photographer can open.
    ShowBookingLists,
    /// A page of a list of the photographer's bookings.
    ShowBookings { list: BookingList, photographer_id: i32, page: u32 },
    /// The choice of working hours for the date.
    ChooseHours { photographer_id: i32, date: Date },
    /// Ask the photographer to type working hours.
    AskHours,
    /// The typed working hours were not understood.
    InvalidHours,
    /// The working hours of the date were written.
    HoursSaved { photographer_id: i32, date: Date },
    /// Ask for a link to the portfolio.
    AskPortfolio,
    /// Ask for a description.
    AskDescription,
    /// The text of the message is the photographer's new portfolio link.
    PortfolioChanged { photographer_id: i32 },
    /// The text of the message is the photographer's new description.
    DescriptionChanged { photographer_id: i32 },
    /// The booking was confirmed; the client is to be told.
    BookingConfirmed { booking_id: i32, client_id: i32 },
    /// The client called the booking off; the photographer is to be told.
    BookingCancelledByClient { booking_id: i32, photographer_id: i32 },
    /// The photographer called the booking off; the client is to be told.
    BookingCancelledByPhotographer { booking_id: i32, client_id: i32 },
    /// The booking was marked as done; the client is to be told.
    BookingCompleted { booking_id: i32, client_id: i32 },
}

/// What an event comes to: the session after it and the effect.
pub struct Reaction {
    pub session: SessionState,
    pub effect: Effect,
}

/// The reaction that leaves the session as it is.
pub open spec fn stay(session: SessionState, effect: Effect) -> Reaction {
    Reaction { session, effect }
}

} // verus!
