//! The records of the studio: who works there, who books, what is offered
//! and what has been booked.

use crate::calendar::{Date, TimeOfDay};
use crate::text::equal_text;
use vstd::prelude::*;

verus! {

/// A photographer of the studio. `telegram_id` is the chat identity by which
/// the photographer is recognised, where one is known.
#[derive(Debug)]
pub struct Photographer {
    pub id: i32,
    pub telegram_id: Option<i64>,
    pub name: String,
}

/// A registered client. `username` is the contact handle.
#[derive(Debug)]
pub struct Client {
    pub id: i32,
    pub telegram_id: i64,
    pub name: String,
    pub username: String,
}

/// What is kept of a client who revoked consent.
#[derive(Debug)]
pub struct ArchivedClient {
    pub telegram_id: i64,
    pub name: String,
    pub username: String,
}

/// A file delivered for a booking.
#[derive(Debug)]
pub struct Material {
    pub id: i32,
    pub booking_id: i32,
    pub file_url: String,
}

/// A service: its price and its duration in minutes.
#[derive(Debug)]
pub struct Service {
    pub id: i32,
    pub name: String,
    pub cost: i32,
    pub duration: i32,
}

/// One photographer offers one service.
#[derive(Clone, Copy, Debug, PartialEq, Eq, Structural)]
pub struct PhotographerService {
    pub id: i32,
    pub photographer_id: i32,
    pub service_id: i32,
}

/// The hours that a photographer works on one date, as whole hours of the day.
#[derive(Clone, Copy, Debug, PartialEq, Eq, Structural)]
pub struct WorkingHours {
    pub photographer_id: i32,
    pub date: Date,
    pub start_hour: i32,
    pub end_hour: i32,
}

impl WorkingHours {
    /// A date counts as a working day when both hours are positive.
    pub open spec fn is_working(self) -> bool {
        self.start_hour > 0 && self.end_hour > 0
    }

    /// Whether both hours are positive.
    pub fn check_working(&self) -> (working: bool)
        ensures
            working == self.is_working(),
    {
        self.start_hour > 0 && self.end_hour > 0
    }
}

/// Where a booking stands.
#[derive(Clone, Copy, Debug, PartialEq, Eq, Structural)]
pub enum BookingStatus {
    New,
    Confirmed,
    Completed,
    Cancelled,
}

impl BookingStatus {
    /// The moves that a booking may make: forward from new to confirmed to
    /// completed, or to cancelled from new or confirmed.
    pub open spec fn permits(self, target: BookingStatus) -> bool {
        match (self, target) {
            (BookingStatus::New, BookingStatus::Confirmed) => true,
            (BookingStatus::New, BookingStatus::Cancelled) => true,
            (BookingStatus::Confirmed, BookingStatus::Cancelled) => true,
            (BookingStatus::Confirmed, BookingStatus::Completed) => true,
            _ => false,
        }
    }

    /// Whether a booking in this status may move to `target`.
    pub fn may_become(&self, target: BookingStatus) -> (allowed: bool)
        ensures
            allowed == self.permits(target),
    {
        match (*self, target) {
            (BookingStatus::New, BookingStatus::Confirmed) => true,
            (BookingStatus::New, BookingStatus::Cancelled) => true,
            (BookingStatus::Confirmed, BookingStatus::Cancelled) => true,
            (BookingStatus::Confirmed, BookingStatus::Completed) => true,
            _ => false,
        }
    }

    /// The word under which the status is written down.
    pub open spec fn code_text(self) -> Seq<char> {
        match self {
            BookingStatus::New => "new"@,
            BookingStatus::Confirmed => "confirmed"@,
            BookingStatus::Completed => "completed"@,
            BookingStatus::Cancelled => "cancelled"@,
        }
    }

    /// The word under which the status is written down.
    pub fn code(&self) -> (text: &'static str)
        ensures
            text@ == self.code_text(),
    {
        match self {
            BookingStatus::New => "new",
            BookingStatus::Confirmed => "confirmed",
            BookingStatus::Completed => "completed",
            BookingStatus::Cancelled => "cancelled",
        }
    }

    /// The status that a word stands for, `None` for a word that stands for none.
    pub fn from_code(code: &str) -> (status: Option<BookingStatus>)
        ensures
            match status {
                Some(status) => code@ == status.code_text(),
                None => forall|other: BookingStatus| code@ != #[trigger] other.code_text(),
            },
    {
        if equal_text(code, "new") {
            Some(BookingStatus::New)
        } else if equal_text(code, "confirmed") {
            Some(BookingStatus::Confirmed)
        } else if equal_text(code, "completed") {
            Some(BookingStatus::Completed)
        } else if equal_text(code, "cancelled") {
            Some(BookingStatus::Cancelled)
        } else {
            None
        }
    }

    /// The label under which the status is shown.
    pub open spec fn label(self) -> Seq<char> {
        match self {
            BookingStatus::New => "🆕 Новый"@,
            BookingStatus::Confirmed => "✅ Подтвержден"@,
            BookingStatus::Completed => "✅ Выполнен"@,
            BookingStatus::Cancelled => "❌ Отменен"@,
        }
    }

    /// The label under which the status is shown.
    pub fn to_string(&self) -> (text: &'static str)
        ensures
            text@ == self.label(),
    {
        match self {
            BookingStatus::New => "🆕 Новый",
            BookingStatus::Confirmed => "✅ Подтвержден",
            BookingStatus::Completed => "✅ Выполнен",
            BookingStatus::Cancelled => "❌ Отменен",
        }
    }
}

/// A reservation of a photographer for a service, within one day.
#[derive(Clone, Copy, Debug, PartialEq, Eq, Structural)]
pub struct Booking {
    pub id: i32,
    pub client_id: i32,
    pub photographer_id: i32,
    pub service_id: i32,
    pub date: Date,
    pub booking_start: TimeOfDay,
    pub booking_end: TimeOfDay,
    pub status: BookingStatus,
}

impl Booking {
    /// Whether the booking keeps its photographer busy: every status but cancelled does.
    pub open spec fn is_live(self) -> bool {
        self.status != BookingStatus::Cancelled
    }

    /// Whether the booking keeps the given photographer busy on the given
    /// date at some moment of the minutes from `from` up to, not including, `until`.
    pub open spec fn blocks(self, photographer_id: i32, date: Date, from: int, until: int) -> bool {
        &&& self.is_live()
        &&& self.photographer_id == photographer_id
        &&& self.date == date
        &&& overlaps(from, until, self.booking_start.minutes(), self.booking_end.minutes())
    }

    /// Whether the booking keeps the given photographer busy in the given minutes.
    pub fn check_blocks(&self, photographer_id: i32, date: Date, from: i128, until: i128) -> (busy: bool)
        ensures
            busy == self.blocks(photographer_id, date, from as int, until as int),
    {
        let start: i128 = self.booking_start.minute_of_day() as i128;
        let end: i128 = self.booking_end.minute_of_day() as i128;
        self.status != BookingStatus::Cancelled && self.photographer_id == photographer_id
            && self.date == date && from < end && until > start
    }
}

/// Whether the half-open stretches `[a_start, a_end)` and `[b_start, b_end)` share a moment.
pub open spec fn overlaps(a_start: int, a_end: int, b_start: int, b_end: int) -> bool {
    a_start < b_end && a_end > b_start
}

/// Overlapping does not depend on which stretch is named first.
pub proof fn lemma_overlaps_symmetric(a_start: int, a_end: int, b_start: int, b_end: int)
    ensures
        overlaps(a_start, a_end, b_start, b_end) == overlaps(b_start, b_end, a_start, a_end),
{
}

} // verus!
