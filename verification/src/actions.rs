//! The actions that the buttons of a conversation carry, and their tokens.
//!
//! A token is the text that travels with a button: words and arguments
//! with a colon between them, such as `calendar:select:2024-05-01` or
//! `confirm_booking:17`. The token of a time slot is written with minus
//! signs instead, as `time-09:00-11:00`.

use crate::args::{
    arg_ok, arg_text, arg_texts, lemma_arg_separators, lemma_reading_unique, read_args, reads_as,
    render_arg, Arg,
};
use crate::calendar::{Date, TimeOfDay};
use crate::fields::{
    free_of, join, join_texts, lemma_join_first, lemma_join_split, lemma_split_join, split, split_text,
    texts,
};
use crate::words::Word;
use vstd::prelude::*;
use vstd::string::*;
use vstd::utf8::is_ascii_chars;

verus! {

/// The lists of bookings that a photographer can open.
#[derive(Clone, Copy, Debug, PartialEq, Eq, Structural)]
pub enum BookingList {
    /// Bookings that wait for the photographer's answer.
    New,
    /// Bookings that are still to come.
    Upcoming,
    /// Every booking.
    All,
}

/// What a pressed button asks for.
#[derive(Clone, Copy, Debug, PartialEq, Eq, Structural)]
pub enum Action {
    /// Nothing: the button is a label, or the token was not understood.
    Ignore,
    /// One step back.
    Back,
    /// The client consents to the studio's rules.
    Agree,
    /// The first page of a list of the photographer's bookings.
    Bookings(BookingList),
    /// A page of a list of the photographer's bookings.
    BookingsPage(BookingList, u32),
    /// A page of the client's own bookings.
    ClientBookings(u32),
    /// A day of the calendar was chosen.
    CalendarSelect(Date),
    /// The month after the one shown.
    CalendarNext { month: u32, year: i32 },
    /// The month before the one shown.
    CalendarPrev { month: u32, year: i32 },
    /// More about a photographer.
    PhotographerInfo(i32),
    /// A time slot was chosen.
    Time { start: TimeOfDay, end: TimeOfDay },
    /// A service was chosen.
    Service(i32),
    /// More about a service.
    ServiceInfo(i32),
    /// A photographer was chosen.
    Photographer(i32),
    /// The client leaves the choice of the photographer to the studio.
    AnyPhotographer,
    /// The answer to the summary of a booking: confirm it, or change it.
    Confirming(bool),
    /// Working hours for the chosen day.
    WorkingHours { start_hour: i32, end_hour: i32 },
    /// The photographer wants to type working hours in.
    CustomHours,
    /// The photographer opens the schedule to change it.
    EditSchedule,
    /// The photographer adds a working day.
    AddWorkingDay,
    /// The photographer accepts a booking.
    ConfirmBooking(i32),
    /// The client calls a booking off.
    ClientRejectBooking(i32),
    /// The photographer calls a booking off.
    RejectBooking(i32),
    /// The photographer marks a booking as done.
    CompleteBooking(i32),
    /// Back to the list of services.
    BackToServices,
    /// Back to the list of photographers.
    BackToPhotographers,
    /// Back to the calendar.
    BackToCalendar,
    /// The answer to the question whether consent is to be revoked.
    RevokeConsent(bool),
}

/// The action of a token of one word.
pub open spec fn single(word: Word) -> Action {
    match word {
        Word::Ignore => Action::Ignore,
        Word::Back => Action::Back,
        Word::Agree => Action::Agree,
        Word::NewBookings => Action::Bookings(BookingList::New),
        Word::UpcomingBookings => Action::Bookings(BookingList::Upcoming),
        Word::AllBookings => Action::Bookings(BookingList::All),
        Word::CustomHours => Action::CustomHours,
        Word::EditSchedule => Action::EditSchedule,
        Word::AddWorkingDay => Action::AddWorkingDay,
        Word::BackToServices => Action::BackToServices,
        Word::BackToPhotographers => Action::BackToPhotographers,
        Word::BackToCalendar => Action::BackToCalendar,
        _ => Action::Ignore,
    }
}

/// The action of a token of two words.
pub open spec fn paired(head: Word, value: Word) -> Action {
    match (head, value) {
        (Word::Photographer, Word::Any) => Action::AnyPhotographer,
        (Word::Confirming, Word::Yes) => Action::Confirming(true),
        (Word::Confirming, Word::No) => Action::Confirming(false),
        (Word::RevokeConsent, Word::Confirm) => Action::RevokeConsent(true),
        (Word::RevokeConsent, Word::Cancel) => Action::RevokeConsent(false),
        _ => Action::Ignore,
    }
}

/// Whether `number` is the number of a record.
pub open spec fn is_id(number: i64) -> bool {
    i32::MIN <= number <= i32::MAX
}

/// Whether `number` is the number of a page or of a month.
pub open spec fn is_count(number: i64) -> bool {
    0 <= number <= u32::MAX
}

/// The action of a token of a word and a number.
pub open spec fn numbered(head: Word, number: i64) -> Action {
    match head {
        Word::PageNew => if is_count(number) {
            Action::BookingsPage(BookingList::New, number as u32)
        } else {
            Action::Ignore
        },
        Word::PageUpcoming => if is_count(number) {
            Action::BookingsPage(BookingList::Upcoming, number as u32)
        } else {
            Action::Ignore
        },
        Word::PageAll => if is_count(number) {
            Action::BookingsPage(BookingList::All, number as u32)
        } else {
            Action::Ignore
        },
        Word::ClientBookings => if is_count(number) {
            Action::ClientBookings(number as u32)
        } else {
            Action::Ignore
        },
        Word::PhotographerInfo => if is_id(number) {
            Action::PhotographerInfo(number as i32)
        } else {
            Action::Ignore
        },
        Word::Service => if is_id(number) {
            Action::Service(number as i32)
        } else {
            Action::Ignore
        },
        Word::ServiceInfo => if is_id(number) {
            Action::ServiceInfo(number as i32)
        } else {
            Action::Ignore
        },
        Word::Photographer => if is_id(number) {
            Action::Photographer(number as i32)
        } else {
            Action::Ignore
        },
        Word::ConfirmBooking => if is_id(number) {
            Action::ConfirmBooking(number as i32)
        } else {
            Action::Ignore
        },
        Word::ClientRejectBooking => if is_id(number) {
            Action::ClientRejectBooking(number as i32)
        } else {
            Action::Ignore
        },
        Word::RejectBooking => if is_id(number) {
            Action::RejectBooking(number as i32)
        } else {
            Action::Ignore
        },
        Word::CompleteBooking => if is_id(number) {
            Action::CompleteBooking(number as i32)
        } else {
            Action::Ignore
        },
        _ => Action::Ignore,
    }
}

/// The action of a token of three parts.
pub open spec fn of_three(first: Arg, second: Arg, third: Arg) -> Action {
    match (first, second, third) {
        (Arg::Word(Word::Calendar), Arg::Word(Word::Select), Arg::Day(date)) => Action::CalendarSelect(
            date,
        ),
        (Arg::Word(Word::WorkingHours), Arg::Number(start), Arg::Number(end)) => if is_id(start)
            && is_id(end) {
            Action::WorkingHours { start_hour: start as i32, end_hour: end as i32 }
        } else {
            Action::Ignore
        },
        _ => Action::Ignore,
    }
}

/// The action of a token of four parts.
pub open spec fn of_four(first: Arg, second: Arg, third: Arg, fourth: Arg) -> Action {
    match (first, second, third, fourth) {
        (Arg::Word(Word::Calendar), Arg::Word(Word::NextMonth), Arg::Number(month), Arg::Number(year)) => if is_count(
            month,
        ) && is_id(year) {
            Action::CalendarNext { month: month as u32, year: year as i32 }
        } else {
            Action::Ignore
        },
        (Arg::Word(Word::Calendar), Arg::Word(Word::PrevMonth), Arg::Number(month), Arg::Number(year)) => if is_count(
            month,
        ) && is_id(year) {
            Action::CalendarPrev { month: month as u32, year: year as i32 }
        } else {
            Action::Ignore
        },
        _ => Action::Ignore,
    }
}

/// The action of a token written with minus signs.
pub open spec fn of_dashed(args: Seq<Arg>) -> Action {
    if args.len() == 3 {
        match (args[0], args[1], args[2]) {
            (Arg::Word(Word::Time), Arg::Clock(start), Arg::Clock(end)) => Action::Time { start, end },
            _ => Action::Ignore,
        }
    } else {
        Action::Ignore
    }
}

/// The action of a token written with colons.
pub open spec fn of_colons(args: Seq<Arg>) -> Action {
    if args.len() == 1 {
        match args[0] {
            Arg::Word(word) => single(word),
            _ => Action::Ignore,
        }
    } else if args.len() == 2 {
        match (args[0], args[1]) {
            (Arg::Word(head), Arg::Word(value)) => paired(head, value),
            (Arg::Word(head), Arg::Number(number)) => numbered(head, number),
            _ => Action::Ignore,
        }
    } else if args.len() == 3 {
        of_three(args[0], args[1], args[2])
    } else if args.len() == 4 {
        of_four(args[0], args[1], args[2], args[3])
    } else {
        Action::Ignore
    }
}

/// The action of a token of one word.
fn assemble_single(word: Word) -> (action: Action)
    ensures
        action == single(word),
{
    match word {
        Word::Ignore => Action::Ignore,
        Word::Back => Action::Back,
        Word::Agree => Action::Agree,
        Word::NewBookings => Action::Bookings(BookingList::New),
        Word::UpcomingBookings => Action::Bookings(BookingList::Upcoming),
        Word::AllBookings => Action::Bookings(BookingList::All),
        Word::CustomHours => Action::CustomHours,
        Word::EditSchedule => Action::EditSchedule,
        Word::AddWorkingDay => Action::AddWorkingDay,
        Word::BackToServices => Action::BackToServices,
        Word::BackToPhotographers => Action::BackToPhotographers,
        Word::BackToCalendar => Action::BackToCalendar,
        _ => Action::Ignore,
    }
}

/// The action of a token of two words.
fn assemble_paired(head: Word, value: Word) -> (action: Action)
    ensures
        action == paired(head, value),
{
    match (head, value) {
        (Word::Photographer, Word::Any) => Action::AnyPhotographer,
        (Word::Confirming, Word::Yes) => Action::Confirming(true),
        (Word::Confirming, Word::No) => Action::Confirming(false),
        (Word::RevokeConsent, Word::Confirm) => Action::RevokeConsent(true),
        (Word::RevokeConsent, Word::Cancel) => Action::RevokeConsent(false),
        _ => Action::Ignore,
    }
}

/// The action of a token of a word and a number.
fn assemble_numbered(head: Word, number: i64) -> (action: Action)
    ensures
        action == numbered(head, number),
{
    let count = 0 <= number && number <= 4294967295;
    let id = -2147483648 <= number && number <= 2147483647;
    match head {
        Word::PageNew => if count {
            Action::BookingsPage(BookingList::New, number as u32)
        } else {
            Action::Ignore
        },
        Word::PageUpcoming => if count {
            Action::BookingsPage(BookingList::Upcoming, number as u32)
        } else {
            Action::Ignore
        },
        Word::PageAll => if count {
            Action::BookingsPage(BookingList::All, number as u32)
        } else {
            Action::Ignore
        },
        Word::ClientBookings => if count {
            Action::ClientBookings(number as u32)
        } else {
            Action::Ignore
        },
        Word::PhotographerInfo => if id {
            Action::PhotographerInfo(number as i32)
        } else {
            Action::Ignore
        },
        Word::Service => if id {
            Action::Service(number as i32)
        } else {
            Action::Ignore
        },
        Word::ServiceInfo => if id {
            Action::ServiceInfo(number as i32)
        } else {
            Action::Ignore
        },
        Word::Photographer => if id {
            Action::Photographer(number as i32)
        } else {
            Action::Ignore
        },
        Word::ConfirmBooking => if id {
            Action::ConfirmBooking(number as i32)
        } else {
            Action::Ignore
        },
        Word::ClientRejectBooking => if id {
            Action::ClientRejectBooking(number as i32)
        } else {
            Action::Ignore
        },
        Word::RejectBooking => if id {
            Action::RejectBooking(number as i32)
        } else {
            Action::Ignore
        },
        Word::CompleteBooking => if id {
            Action::CompleteBooking(number as i32)
        } else {
            Action::Ignore
        },
        _ => Action::Ignore,
    }
}

/// The action of a token of three parts.
fn assemble_three(first: Arg, second: Arg, third: Arg) -> (action: Action)
    ensures
        action == of_three(first, second, third),
{
    match (first, second, third) {
        (Arg::Word(Word::Calendar), Arg::Word(Word::Select), Arg::Day(date)) => Action::CalendarSelect(
            date,
        ),
        (Arg::Word(Word::WorkingHours), Arg::Number(start), Arg::Number(end)) => if -2147483648
            <= start && start <= 2147483647 && -2147483648 <= end && end <= 2147483647 {
            Action::WorkingHours { start_hour: start as i32, end_hour: end as i32 }
        } else {
            Action::Ignore
        },
        _ => Action::Ignore,
    }
}

/// The action of a token of four parts.
fn assemble_four(first: Arg, second: Arg, third: Arg, fourth: Arg) -> (action: Action)
    ensures
        action == of_four(first, second, third, fourth),
{
    match (first, second, third, fourth) {
        (Arg::Word(Word::Calendar), Arg::Word(Word::NextMonth), Arg::Number(month), Arg::Number(year)) => if 0
            <= month && month <= 4294967295 && -2147483648 <= year && year <= 2147483647 {
            Action::CalendarNext { month: month as u32, year: year as i32 }
        } else {
            Action::Ignore
        },
        (Arg::Word(Word::Calendar), Arg::Word(Word::PrevMonth), Arg::Number(month), Arg::Number(year)) => if 0
            <= month && month <= 4294967295 && -2147483648 <= year && year <= 2147483647 {
            Action::CalendarPrev { month: month as u32, year: year as i32 }
        } else {
            Action::Ignore
        },
        _ => Action::Ignore,
    }
}

/// The action of a token written with minus signs.
fn assemble_dashed(args: &Vec<Arg>) -> (action: Action)
    ensures
        action == of_dashed(args@),
{
    if args.len() == 3 {
        match (args[0], args[1], args[2]) {
            (Arg::Word(Word::Time), Arg::Clock(start), Arg::Clock(end)) => Action::Time { start, end },
            _ => Action::Ignore,
        }
    } else {
        Action::Ignore
    }
}

/// The action of a token written with colons.
fn assemble_colons(args: &Vec<Arg>) -> (action: Action)
    ensures
        action == of_colons(args@),
{
    if args.len() == 1 {
        match args[0] {
            Arg::Word(word) => assemble_single(word),
            _ => Action::Ignore,
        }
    } else if args.len() == 2 {
        match (args[0], args[1]) {
            (Arg::Word(head), Arg::Word(value)) => assemble_paired(head, value),
            (Arg::Word(head), Arg::Number(number)) => assemble_numbered(head, number),
            _ => Action::Ignore,
        }
    } else if args.len() == 3 {
        assemble_three(args[0], args[1], args[2])
    } else if args.len() == 4 {
        assemble_four(args[0], args[1], args[2], args[3])
    } else {
        Action::Ignore
    }
}

/// The word that opens a list of bookings, or a page of it.
fn list_word(list: BookingList, paged: bool) -> (word: Word)
    ensures
        word == match (list, paged) {
            (BookingList::New, false) => Word::NewBookings,
            (BookingList::Upcoming, false) => Word::UpcomingBookings,
            (BookingList::All, false) => Word::AllBookings,
            (BookingList::New, true) => Word::PageNew,
            (BookingList::Upcoming, true) => Word::PageUpcoming,
            (BookingList::All, true) => Word::PageAll,
        },
{
    match (list, paged) {
        (BookingList::New, false) => Word::NewBookings,
        (BookingList::Upcoming, false) => Word::UpcomingBookings,
        (BookingList::All, false) => Word::AllBookings,
        (BookingList::New, true) => Word::PageNew,
        (BookingList::Upcoming, true) => Word::PageUpcoming,
        (BookingList::All, true) => Word::PageAll,
    }
}

impl Action {
    /// The parts of the action's token.
    pub open spec fn shape(self) -> Seq<Arg> {
        match self {
            Action::Ignore => seq![Arg::Word(Word::Ignore)],
            Action::Back => seq![Arg::Word(Word::Back)],
            Action::Agree => seq![Arg::Word(Word::Agree)],
            Action::Bookings(BookingList::New) => seq![Arg::Word(Word::NewBookings)],
            Action::Bookings(BookingList::Upcoming) => seq![Arg::Word(Word::UpcomingBookings)],
            Action::Bookings(BookingList::All) => seq![Arg::Word(Word::AllBookings)],
            Action::BookingsPage(BookingList::New, page) => seq![
                Arg::Word(Word::PageNew),
                Arg::Number(page as i64),
            ],
            Action::BookingsPage(BookingList::Upcoming, page) => seq![
                Arg::Word(Word::PageUpcoming),
                Arg::Number(page as i64),
            ],
            Action::BookingsPage(BookingList::All, page) => seq![
                Arg::Word(Word::PageAll),
                Arg::Number(page as i64),
            ],
            Action::ClientBookings(page) => seq![Arg::Word(Word::ClientBookings), Arg::Number(page as i64)],
            Action::CalendarSelect(date) => seq![
                Arg::Word(Word::Calendar),
                Arg::Word(Word::Select),
                Arg::Day(date),
            ],
            Action::CalendarNext { month, year } => seq![
                Arg::Word(Word::Calendar),
                Arg::Word(Word::NextMonth),
                Arg::Number(month as i64),
                Arg::Number(year as i64),
            ],
            Action::CalendarPrev { month, year } => seq![
                Arg::Word(Word::Calendar),
                Arg::Word(Word::PrevMonth),
                Arg::Number(month as i64),
                Arg::Number(year as i64),
            ],
            Action::PhotographerInfo(id) => seq![Arg::Word(Word::PhotographerInfo), Arg::Number(id as i64)],
            Action::Time { start, end } => seq![
                Arg::Word(Word::Time),
                Arg::Clock(start),
                Arg::Clock(end),
            ],
            Action::Service(id) => seq![Arg::Word(Word::Service), Arg::Number(id as i64)],
            Action::ServiceInfo(id) => seq![Arg::Word(Word::ServiceInfo), Arg::Number(id as i64)],
            Action::Photographer(id) => seq![Arg::Word(Word::Photographer), Arg::Number(id as i64)],
            Action::AnyPhotographer => seq![Arg::Word(Word::Photographer), Arg::Word(Word::Any)],
            Action::Confirming(true) => seq![Arg::Word(Word::Confirming), Arg::Word(Word::Yes)],
            Action::Confirming(false) => seq![Arg::Word(Word::Confirming), Arg::Word(Word::No)],
            Action::WorkingHours { start_hour, end_hour } => seq![
                Arg::Word(Word::WorkingHours),
                Arg::Number(start_hour as i64),
                Arg::Number(end_hour as i64),
            ],
            Action::CustomHours => seq![Arg::Word(Word::CustomHours)],
            Action::EditSchedule => seq![Arg::Word(Word::EditSchedule)],
            Action::AddWorkingDay => seq![Arg::Word(Word::AddWorkingDay)],
            Action::ConfirmBooking(id) => seq![Arg::Word(Word::ConfirmBooking), Arg::Number(id as i64)],
            Action::ClientRejectBooking(id) => seq![
                Arg::Word(Word::ClientRejectBooking),
                Arg::Number(id as i64),
            ],
            Action::RejectBooking(id) => seq![Arg::Word(Word::RejectBooking), Arg::Number(id as i64)],
            Action::CompleteBooking(id) => seq![Arg::Word(Word::CompleteBooking), Arg::Number(id as i64)],
            Action::BackToServices => seq![Arg::Word(Word::BackToServices)],
            Action::BackToPhotographers => seq![Arg::Word(Word::BackToPhotographers)],
            Action::BackToCalendar => seq![Arg::Word(Word::BackToCalendar)],
            Action::RevokeConsent(true) => seq![Arg::Word(Word::RevokeConsent), Arg::Word(Word::Confirm)],
            Action::RevokeConsent(false) => seq![Arg::Word(Word::RevokeConsent), Arg::Word(Word::Cancel)],
        }
    }

    /// The character between the parts of the action's token.
    pub open spec fn separator(self) -> char {
        if self is Time {
            '-'
        } else {
            ':'
        }
    }

    /// Whether the action has a token: its date is on the calendar with a
    /// year of four digits, its times are times of day.
    pub open spec fn encodable(self) -> bool {
        match self {
            Action::CalendarSelect(date) => arg_ok(Arg::Day(date)),
            Action::Time { start, end } => arg_ok(Arg::Clock(start)) && arg_ok(Arg::Clock(end)),
            _ => true,
        }
    }

    /// The token of the action.
    pub open spec fn token_text(self) -> Seq<char> {
        join(arg_texts(self.shape()), self.separator())
    }

    /// Whether the action has a token.
    pub fn check_encodable(&self) -> (ok: bool)
        ensures
            ok == self.encodable(),
    {
        match self {
            Action::CalendarSelect(date) => {
                0 <= date.year && date.year <= 9999 && Date::from_ymd(date.year, date.month, date.day).is_some()
            },
            Action::Time { start, end } => start.check() && end.check(),
            _ => true,
        }
    }

    /// The parts of the action's token.
    fn parts(&self) -> (args: Vec<Arg>)
        ensures
            args@ == self.shape(),
    {
        let mut args: Vec<Arg> = Vec::new();
        match *self {
            Action::Ignore => {
                args.push(Arg::Word(Word::Ignore));
            },
            Action::Back => {
                args.push(Arg::Word(Word::Back));
            },
            Action::Agree => {
                args.push(Arg::Word(Word::Agree));
            },
            Action::Bookings(list) => {
                args.push(Arg::Word(list_word(list, false)));
            },
            Action::BookingsPage(list, page) => {
                args.push(Arg::Word(list_word(list, true)));
                args.push(Arg::Number(page as i64));
            },
            Action::ClientBookings(page) => {
                args.push(Arg::Word(Word::ClientBookings));
                args.push(Arg::Number(page as i64));
            },
            Action::CalendarSelect(date) => {
                args.push(Arg::Word(Word::Calendar));
                args.push(Arg::Word(Word::Select));
                args.push(Arg::Day(date));
            },
            Action::CalendarNext { month, year } => {
                args.push(Arg::Word(Word::Calendar));
                args.push(Arg::Word(Word::NextMonth));
                args.push(Arg::Number(month as i64));
                args.push(Arg::Number(year as i64));
            },
            Action::CalendarPrev { month, year } => {
                args.push(Arg::Word(Word::Calendar));
                args.push(Arg::Word(Word::PrevMonth));
                args.push(Arg::Number(month as i64));
                args.push(Arg::Number(year as i64));
            },
            Action::PhotographerInfo(id) => {
                args.push(Arg::Word(Word::PhotographerInfo));
                args.push(Arg::Number(id as i64));
            },
            Action::Time { start, end } => {
                args.push(Arg::Word(Word::Time));
                args.push(Arg::Clock(start));
                args.push(Arg::Clock(end));
            },
            Action::Service(id) => {
                args.push(Arg::Word(Word::Service));
                args.push(Arg::Number(id as i64));
            },
            Action::ServiceInfo(id) => {
                args.push(Arg::Word(Word::ServiceInfo));
                args.push(Arg::Number(id as i64));
            },
            Action::Photographer(id) => {
                args.push(Arg::Word(Word::Photographer));
                args.push(Arg::Number(id as i64));
            },
            Action::AnyPhotographer => {
                args.push(Arg::Word(Word::Photographer));
                args.push(Arg::Word(Word::Any));
            },
            Action::Confirming(yes) => {
                args.push(Arg::Word(Word::Confirming));
                args.push(Arg::Word(if yes { Word::Yes } else { Word::No }));
            },
            Action::WorkingHours { start_hour, end_hour } => {
                args.push(Arg::Word(Word::WorkingHours));
                args.push(Arg::Number(start_hour as i64));
                args.push(Arg::Number(end_hour as i64));
            },
            Action::CustomHours => {
                args.push(Arg::Word(Word::CustomHours));
            },
            Action::EditSchedule => {
                args.push(Arg::Word(Word::EditSchedule));
            },
            Action::AddWorkingDay => {
                args.push(Arg::Word(Word::AddWorkingDay));
            },
            Action::ConfirmBooking(id) => {
                args.push(Arg::Word(Word::ConfirmBooking));
                args.push(Arg::Number(id as i64));
            },
            Action::ClientRejectBooking(id) => {
                args.push(Arg::Word(Word::ClientRejectBooking));
                args.push(Arg::Number(id as i64));
            },
            Action::RejectBooking(id) => {
                args.push(Arg::Word(Word::RejectBooking));
                args.push(Arg::Number(id as i64));
            },
            Action::CompleteBooking(id) => {
                args.push(Arg::Word(Word::CompleteBooking));
                args.push(Arg::Number(id as i64));
            },
            Action::BackToServices => {
                args.push(Arg::Word(Word::BackToServices));
            },
            Action::BackToPhotographers => {
                args.push(Arg::Word(Word::BackToPhotographers));
            },
            Action::BackToCalendar => {
                args.push(Arg::Word(Word::BackToCalendar));
            },
            Action::RevokeConsent(yes) => {
                args.push(Arg::Word(Word::RevokeConsent));
                args.push(Arg::Word(if yes { Word::Confirm } else { Word::Cancel }));
            },
        }
        assert(args@ =~= self.shape());
        args
    }

    /// Writes the token of the action. `None` for an action that has none.
    pub fn token(&self) -> (text: Option<String>)
        ensures
            match text {
                Some(text) => self.encodable() && text@ == self.token_text(),
                None => !self.encodable(),
            },
    {
        if !self.check_encodable() {
            return None;
        }
        let args = self.parts();
        let mut rendered: Vec<String> = Vec::new();
        let mut i: usize = 0;
        proof {
            lemma_shape(*self);
        }
        while i < args.len()
            invariant
                i <= args.len(),
                rendered@.len() == i,
                forall|k: int| 0 <= k < args.len() ==> arg_ok(#[trigger] args@[k]),
                forall|k: int| 0 <= k < i ==> (#[trigger] rendered@[k])@ == arg_text(args@[k]),
            decreases args.len() - i,
        {
            rendered.push(render_arg(args[i]));
            i += 1;
        }
        let dashed = match self {
            Action::Time { .. } => true,
            _ => false,
        };
        proof {
            reveal_strlit("-");
            reveal_strlit(":");
            assert(Seq::new(rendered@.len(), |k: int| rendered@[k]@) =~= arg_texts(self.shape()));
        }
        if dashed {
            Some(join_texts(&rendered, "-"))
        } else {
            Some(join_texts(&rendered, ":"))
        }
    }
}

/// The parts of an action that has a token can be written, and they give the action back.
pub proof fn lemma_shape(action: Action)
    requires
        action.encodable(),
    ensures
        action.shape().len() >= 1,
        forall|i: int| 0 <= i < action.shape().len() ==> arg_ok(#[trigger] action.shape()[i]),
        action.shape()[0] is Word,
        action is Time ==> of_dashed(action.shape()) == action,
        !(action is Time) ==> of_colons(action.shape()) == action,
        !(action is Time) ==> action.shape()[0] != Arg::Word(Word::Time),
        !(action is Time) ==> forall|i: int|
            0 <= i < action.shape().len() ==> !((#[trigger] action.shape()[i]) is Clock),
        action is Time ==> forall|i: int|
            0 <= i < action.shape().len() ==> (#[trigger] action.shape()[i]) is Clock
                || action.shape()[i] is Word,
{
}

/// Parts that make an action other than `Ignore` are the parts of that action.
pub proof fn lemma_assembled(args: Seq<Arg>, dashed: bool)
    requires
        forall|i: int| 0 <= i < args.len() ==> arg_ok(#[trigger] args[i]),
    ensures
        ({
            let action = if dashed {
                of_dashed(args)
            } else {
                of_colons(args)
            };
            action != Action::Ignore ==> action.shape() == args && action.encodable() && (action
                is Time) == dashed
        }),
{
    let action = if dashed {
        of_dashed(args)
    } else {
        of_colons(args)
    };
    if action != Action::Ignore {
        if args.len() >= 1 {
            assert(arg_ok(args[0]));
        }
        if args.len() >= 2 {
            assert(arg_ok(args[1]));
        }
        if args.len() >= 3 {
            assert(arg_ok(args[2]));
        }
        if args.len() >= 4 {
            assert(arg_ok(args[3]));
        }
        assert(action.shape() =~= args);
    }
}

/// The token of an action splits into the texts of its parts.
pub proof fn lemma_token_fields(action: Action)
    requires
        action.encodable(),
    ensures
        split(action.token_text(), action.separator()) == arg_texts(action.shape()),
        reads_as(split(action.token_text(), action.separator()), action.shape()),
        action.token_text().len() >= 1,
        97 <= action.token_text()[0] as int <= 122,
        !(action is Time) ==> action.token_text()[0] != 't',
{
    lemma_shape(action);
    let args = action.shape();
    let fields = arg_texts(args);
    assert forall|i: int| 0 <= i < fields.len() implies free_of(
        #[trigger] fields[i],
        action.separator(),
    ) by {
        lemma_arg_separators(args[i]);
    }
    lemma_split_join(fields, action.separator());
    lemma_arg_separators(args[0]);
    lemma_join_first(fields, action.separator());
    match args[0] {
        Arg::Word(word) => {
            crate::words::lemma_first_letter(word);
        },
        _ => {},
    }
}

/// The action whose token the text is, `Ignore` where it is the token of none.
pub open spec fn decoded(data: Seq<char>) -> Action {
    if exists|action: Action| action.encodable() && #[trigger] action.token_text() == data {
        choose|action: Action| action.encodable() && #[trigger] action.token_text() == data
    } else {
        Action::Ignore
    }
}

/// Reads a token. A text that is the token of no action reads as `Ignore`.
pub fn parse_action(data: &str) -> (action: Action)
    ensures
        action == decoded(data@),
        action != Action::Ignore ==> action.encodable() && action.token_text() == data@,
        forall|other: Action|
            other.encodable() && #[trigger] other.token_text() == data@ ==> action == other,
{
    let action = read_action(data);
    proof {
        if exists|other: Action| other.encodable() && #[trigger] other.token_text() == data@ {
            let chosen = choose|other: Action| other.encodable() && #[trigger] other.token_text() == data@;
            assert(action == chosen);
        }
    }
    action
}

/// Reads a token: first as one written with minus signs, then as one written with colons.
fn read_action(data: &str) -> (action: Action)
    ensures
        action != Action::Ignore ==> action.encodable() && action.token_text() == data@,
        forall|other: Action|
            other.encodable() && #[trigger] other.token_text() == data@ ==> action == other,
{
    if !data.is_ascii() {
        proof {
            assert forall|other: Action| other.encodable() implies #[trigger] other.token_text()
                != data@ by {
                lemma_token_is_ascii(other);
            }
        }
        return Action::Ignore;
    }
    let dashed = split_text(data, 45);
    let dashed_args = read_args(&dashed);
    let timed = match &dashed_args {
        Some(args) => assemble_dashed(args),
        None => Action::Ignore,
    };
    proof {
        lemma_join_split(data@, '-');
        match dashed_args {
            Some(args) => {
                lemma_assembled(args@, true);
                assert(arg_texts(args@) =~= split(data@, '-'));
            },
            None => {},
        }
        assert forall|other: Action|
            other.encodable() && other is Time && #[trigger] other.token_text()
                == data@ implies timed == other by {
            lemma_token_fields(other);
            lemma_shape(other);
            match dashed_args {
                Some(args) => {
                    lemma_reading_unique(split(data@, '-'), other.shape(), args@);
                },
                None => {
                    assert(reads_as(texts(dashed@), other.shape()));
                },
            }
        }
    }
    if timed != Action::Ignore {
        proof {
            assert forall|other: Action| other.encodable() && #[trigger] other.token_text()
                == data@ implies timed == other by {
                lemma_token_fields(other);
                if !(other is Time) {
                    lemma_not_timed(data@, timed);
                }
            }
        }
        return timed;
    }
    let colons = split_text(data, 58);
    let colon_args = read_args(&colons);
    let action = match &colon_args {
        Some(args) => assemble_colons(args),
        None => Action::Ignore,
    };
    proof {
        lemma_join_split(data@, ':');
        match colon_args {
            Some(args) => {
                lemma_assembled(args@, false);
                assert(arg_texts(args@) =~= split(data@, ':'));
            },
            None => {},
        }
        assert forall|other: Action| other.encodable() && #[trigger] other.token_text()
            == data@ implies action == other by {
            lemma_token_fields(other);
            lemma_shape(other);
            if !(other is Time) {
                match colon_args {
                    Some(args) => {
                        lemma_reading_unique(split(data@, ':'), other.shape(), args@);
                    },
                    None => {
                        assert(reads_as(texts(colons@), other.shape()));
                    },
                }
            }
        }
    }
    action
}

/// A text that begins with another letter than `t` is not the token of a time slot.
proof fn lemma_not_timed(data: Seq<char>, timed: Action)
    requires
        timed is Time,
        timed.encodable(),
        timed.token_text() == data,
        data.len() >= 1,
    ensures
        data[0] == 't',
{
    lemma_token_fields(timed);
    lemma_shape(timed);
    let fields = arg_texts(timed.shape());
    lemma_arg_separators(timed.shape()[0]);
    lemma_join_first(fields, '-');
    crate::words::lemma_first_letter(Word::Time);
}

/// A token is made of ASCII characters.
pub proof fn lemma_token_is_ascii(action: Action)
    requires
        action.encodable(),
    ensures
        is_ascii_chars(action.token_text()),
{
    lemma_shape(action);
    let args = action.shape();
    let fields = arg_texts(args);
    assert forall|i: int| 0 <= i < fields.len() implies is_ascii_chars(#[trigger] fields[i]) by {
        crate::args::lemma_arg_is_ascii(args[i]);
    }
    crate::fields::lemma_join_ascii(fields, action.separator());
}

/// Reading the token of an action gives the action back.
pub proof fn lemma_token_round_trip(action: Action)
    requires
        action.encodable(),
    ensures
        decoded(action.token_text()) == action,
{
    let read = decoded(action.token_text());
    lemma_token_text_injective(read, action);
}

/// Two actions with the same token are the same action.
pub proof fn lemma_token_text_injective(a: Action, b: Action)
    requires
        a.encodable(),
        b.encodable(),
        a.token_text() == b.token_text(),
    ensures
        a == b,
{
    lemma_token_fields(a);
    lemma_token_fields(b);
    lemma_shape(a);
    lemma_shape(b);
    if a is Time && b is Time {
        lemma_reading_unique(split(a.token_text(), '-'), a.shape(), b.shape());
    } else if !(a is Time) && !(b is Time) {
        lemma_reading_unique(split(a.token_text(), ':'), a.shape(), b.shape());
    } else if a is Time {
        lemma_not_timed(a.token_text(), a);
    } else {
        lemma_not_timed(b.token_text(), b);
    }
}

/// The longest token that a button may carry.
pub const TOKEN_LIMIT: usize = 64;

/// Every token fits into what a button may carry.
pub proof fn lemma_token_fits(action: Action)
    requires
        action.encodable(),
    ensures
        1 <= action.token_text().len() <= TOKEN_LIMIT,
{
    let args = action.shape();
    let fields = arg_texts(args);
    let sep = action.separator();
    lemma_shape(action);
    lemma_token_fields(action);
    assert forall|i: int| 0 <= i < args.len() implies #[trigger] fields[i] == arg_text(args[i]) by {}
    crate::args::lemma_arg_length(args[0]);
    crate::words::lemma_word_letters(args[0]->Word_0);
    if args.len() == 1 {
    } else if args.len() == 2 {
        crate::args::lemma_arg_length(args[1]);
        assert(fields =~= seq![fields[0], fields[1]]);
        crate::fields::lemma_join_two(fields[0], fields[1], sep);
    } else if args.len() == 3 {
        crate::args::lemma_arg_length(args[1]);
        crate::args::lemma_arg_length(args[2]);
        assert(fields =~= seq![fields[0], fields[1], fields[2]]);
        crate::fields::lemma_join_three(fields[0], fields[1], fields[2], sep);
    } else {
        crate::args::lemma_arg_length(args[1]);
        crate::args::lemma_arg_length(args[2]);
        crate::args::lemma_arg_length(args[3]);
        assert(fields =~= seq![fields[0], fields[1], fields[2], fields[3]]);
        crate::fields::lemma_join_four(fields[0], fields[1], fields[2], fields[3], sep);
    }
}

} // verus!
