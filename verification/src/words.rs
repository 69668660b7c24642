//! The words that action tokens are made of.

use crate::text::same_text;
use vstd::prelude::*;
use vstd::string::*;

verus! {

/// A word of the token vocabulary.
#[derive(Clone, Copy, Debug, PartialEq, Eq, Structural)]
pub enum Word {
    /// `ignore`
    Ignore,
    /// `back`
    Back,
    /// `agree`
    Agree,
    /// `new_bookings`
    NewBookings,
    /// `upcoming_bookings`
    UpcomingBookings,
    /// `all_bookings`
    AllBookings,
    /// `page_new`
    PageNew,
    /// `page_upcoming`
    PageUpcoming,
    /// `page_all`
    PageAll,
    /// `client_bookings`
    ClientBookings,
    /// `calendar`
    Calendar,
    /// `select`
    Select,
    /// `next_month`
    NextMonth,
    /// `prev_month`
    PrevMonth,
    /// `photographer_info`
    PhotographerInfo,
    /// `time`
    Time,
    /// `service`
    Service,
    /// `service_info`
    ServiceInfo,
    /// `photographer`
    Photographer,
    /// `any`
    Any,
    /// `confirming`
    Confirming,
    /// `yes`
    Yes,
    /// `no`
    No,
    /// `working_hours`
    WorkingHours,
    /// `custom_hours`
    CustomHours,
    /// `edit_schedule`
    EditSchedule,
    /// `add_working_day`
    AddWorkingDay,
    /// `confirm_booking`
    ConfirmBooking,
    /// `client_reject_booking`
    ClientRejectBooking,
    /// `reject_booking`
    RejectBooking,
    /// `complete_booking`
    CompleteBooking,
    /// `back_to_services`
    BackToServices,
    /// `back_to_photographers`
    BackToPhotographers,
    /// `back_to_calendar`
    BackToCalendar,
    /// `revoke_consent`
    RevokeConsent,
    /// `confirm`
    Confirm,
    /// `cancel`
    Cancel,
}

/// Whether `c` may occur in a word: a small letter or an underscore.
pub open spec fn is_word_char(c: char) -> bool {
    (97 <= c as int <= 122) || c == '_'
}

/// The text of a word.
pub open spec fn word_text(word: Word) -> Seq<char> {
    match word {
        Word::Ignore => "ignore"@,
        Word::Back => "back"@,
        Word::Agree => "agree"@,
        Word::NewBookings => "new_bookings"@,
        Word::UpcomingBookings => "upcoming_bookings"@,
        Word::AllBookings => "all_bookings"@,
        Word::PageNew => "page_new"@,
        Word::PageUpcoming => "page_upcoming"@,
        Word::PageAll => "page_all"@,
        Word::ClientBookings => "client_bookings"@,
        Word::Calendar => "calendar"@,
        Word::Select => "select"@,
        Word::NextMonth => "next_month"@,
        Word::PrevMonth => "prev_month"@,
        Word::PhotographerInfo => "photographer_info"@,
        Word::Time => "time"@,
        Word::Service => "service"@,
        Word::ServiceInfo => "service_info"@,
        Word::Photographer => "photographer"@,
        Word::Any => "any"@,
        Word::Confirming => "confirming"@,
        Word::Yes => "yes"@,
        Word::No => "no"@,
        Word::WorkingHours => "working_hours"@,
        Word::CustomHours => "custom_hours"@,
        Word::EditSchedule => "edit_schedule"@,
        Word::AddWorkingDay => "add_working_day"@,
        Word::ConfirmBooking => "confirm_booking"@,
        Word::ClientRejectBooking => "client_reject_booking"@,
        Word::RejectBooking => "reject_booking"@,
        Word::CompleteBooking => "complete_booking"@,
        Word::BackToServices => "back_to_services"@,
        Word::BackToPhotographers => "back_to_photographers"@,
        Word::BackToCalendar => "back_to_calendar"@,
        Word::RevokeConsent => "revoke_consent"@,
        Word::Confirm => "confirm"@,
        Word::Cancel => "cancel"@,
    }
}

/// The text of a word.
pub fn word_str(word: Word) -> (text: &'static str)
    ensures
        text@ == word_text(word),
        is_ascii(text),
{
    proof {
        lemma_word_chars(word);
    }
    match word {
        Word::Ignore => "ignore",
        Word::Back => "back",
        Word::Agree => "agree",
        Word::NewBookings => "new_bookings",
        Word::UpcomingBookings => "upcoming_bookings",
        Word::AllBookings => "all_bookings",
        Word::PageNew => "page_new",
        Word::PageUpcoming => "page_upcoming",
        Word::PageAll => "page_all",
        Word::ClientBookings => "client_bookings",
        Word::Calendar => "calendar",
        Word::Select => "select",
        Word::NextMonth => "next_month",
        Word::PrevMonth => "prev_month",
        Word::PhotographerInfo => "photographer_info",
        Word::Time => "time",
        Word::Service => "service",
        Word::ServiceInfo => "service_info",
        Word::Photographer => "photographer",
        Word::Any => "any",
        Word::Confirming => "confirming",
        Word::Yes => "yes",
        Word::No => "no",
        Word::WorkingHours => "working_hours",
        Word::CustomHours => "custom_hours",
        Word::EditSchedule => "edit_schedule",
        Word::AddWorkingDay => "add_working_day",
        Word::ConfirmBooking => "confirm_booking",
        Word::ClientRejectBooking => "client_reject_booking",
        Word::RejectBooking => "reject_booking",
        Word::CompleteBooking => "complete_booking",
        Word::BackToServices => "back_to_services",
        Word::BackToPhotographers => "back_to_photographers",
        Word::BackToCalendar => "back_to_calendar",
        Word::RevokeConsent => "revoke_consent",
        Word::Confirm => "confirm",
        Word::Cancel => "cancel",
    }
}

/// A word is made of small letters and underscores and begins with a letter.
pub proof fn lemma_word_chars(word: Word)
    ensures
        word_text(word).len() >= 2,
        97 <= word_text(word)[0] as int <= 122,
        forall|i: int| 0 <= i < word_text(word).len() ==> is_word_char(#[trigger] word_text(word)[i]),
{
    lemma_word_letters(word);
    let text = word_text(word);
    assert forall|i: int| 0 <= i < text.len() implies is_word_char(#[trigger] text[i]) by {
        lemma_word_letter(word, i);
    }
}

/// Only the word `time` begins with the letter `t`.
pub proof fn lemma_first_letter(word: Word)
    ensures
        word_text(word).len() >= 1,
        (word_text(word)[0] == 't') == (word == Word::Time),
{
    lemma_word_letters(word);
}

/// The length and the first letter of each word.
pub proof fn lemma_word_letters(word: Word)
    ensures
        word_text(word).len() == match word {
            Word::Ignore => 6nat,
            Word::Back => 4nat,
            Word::Agree => 5nat,
            Word::NewBookings => 12nat,
            Word::UpcomingBookings => 17nat,
            Word::AllBookings => 12nat,
            Word::PageNew => 8nat,
            Word::PageUpcoming => 13nat,
            Word::PageAll => 8nat,
            Word::ClientBookings => 15nat,
            Word::Calendar => 8nat,
            Word::Select => 6nat,
            Word::NextMonth => 10nat,
            Word::PrevMonth => 10nat,
            Word::PhotographerInfo => 17nat,
            Word::Time => 4nat,
            Word::Service => 7nat,
            Word::ServiceInfo => 12nat,
            Word::Photographer => 12nat,
            Word::Any => 3nat,
            Word::Confirming => 10nat,
            Word::Yes => 3nat,
            Word::No => 2nat,
            Word::WorkingHours => 13nat,
            Word::CustomHours => 12nat,
            Word::EditSchedule => 13nat,
            Word::AddWorkingDay => 15nat,
            Word::ConfirmBooking => 15nat,
            Word::ClientRejectBooking => 21nat,
            Word::RejectBooking => 14nat,
            Word::CompleteBooking => 16nat,
            Word::BackToServices => 16nat,
            Word::BackToPhotographers => 21nat,
            Word::BackToCalendar => 16nat,
            Word::RevokeConsent => 14nat,
            Word::Confirm => 7nat,
            Word::Cancel => 6nat,
        },
        word_text(word)[0] == match word {
            Word::Ignore => 'i',
            Word::Back => 'b',
            Word::Agree => 'a',
            Word::NewBookings => 'n',
            Word::UpcomingBookings => 'u',
            Word::AllBookings => 'a',
            Word::PageNew => 'p',
            Word::PageUpcoming => 'p',
            Word::PageAll => 'p',
            Word::ClientBookings => 'c',
            Word::Calendar => 'c',
            Word::Select => 's',
            Word::NextMonth => 'n',
            Word::PrevMonth => 'p',
            Word::PhotographerInfo => 'p',
            Word::Time => 't',
            Word::Service => 's',
            Word::ServiceInfo => 's',
            Word::Photographer => 'p',
            Word::Any => 'a',
            Word::Confirming => 'c',
            Word::Yes => 'y',
            Word::No => 'n',
            Word::WorkingHours => 'w',
            Word::CustomHours => 'c',
            Word::EditSchedule => 'e',
            Word::AddWorkingDay => 'a',
            Word::ConfirmBooking => 'c',
            Word::ClientRejectBooking => 'c',
            Word::RejectBooking => 'r',
            Word::CompleteBooking => 'c',
            Word::BackToServices => 'b',
            Word::BackToPhotographers => 'b',
            Word::BackToCalendar => 'b',
            Word::RevokeConsent => 'r',
            Word::Confirm => 'c',
            Word::Cancel => 'c',
        },
{
    reveal_strlit("ignore");
    reveal_strlit("back");
    reveal_strlit("agree");
    reveal_strlit("new_bookings");
    reveal_strlit("upcoming_bookings");
    reveal_strlit("all_bookings");
    reveal_strlit("page_new");
    reveal_strlit("page_upcoming");
    reveal_strlit("page_all");
    reveal_strlit("client_bookings");
    reveal_strlit("calendar");
    reveal_strlit("select");
    reveal_strlit("next_month");
    reveal_strlit("prev_month");
    reveal_strlit("photographer_info");
    reveal_strlit("time");
    reveal_strlit("service");
    reveal_strlit("service_info");
    reveal_strlit("photographer");
    reveal_strlit("any");
    reveal_strlit("confirming");
    reveal_strlit("yes");
    reveal_strlit("no");
    reveal_strlit("working_hours");
    reveal_strlit("custom_hours");
    reveal_strlit("edit_schedule");
    reveal_strlit("add_working_day");
    reveal_strlit("confirm_booking");
    reveal_strlit("client_reject_booking");
    reveal_strlit("reject_booking");
    reveal_strlit("complete_booking");
    reveal_strlit("back_to_services");
    reveal_strlit("back_to_photographers");
    reveal_strlit("back_to_calendar");
    reveal_strlit("revoke_consent");
    reveal_strlit("confirm");
    reveal_strlit("cancel");
}

/// Each character of a word is a small letter or an underscore.
proof fn lemma_word_letter(word: Word, i: int)
    requires
        0 <= i < word_text(word).len(),
    ensures
        is_word_char(word_text(word)[i]),
{
    lemma_word_letters(word);
    match word {
        Word::Ignore => {
            reveal_strlit("ignore");
            assert(is_word_char("ignore"@[i]));
        },
        Word::Back => {
            reveal_strlit("back");
            assert(is_word_char("back"@[i]));
        },
        Word::Agree => {
            reveal_strlit("agree");
            assert(is_word_char("agree"@[i]));
        },
        Word::NewBookings => {
            reveal_strlit("new_bookings");
            assert(is_word_char("new_bookings"@[i]));
        },
        Word::UpcomingBookings => {
            reveal_strlit("upcoming_bookings");
            assert(is_word_char("upcoming_bookings"@[i]));
        },
        Word::AllBookings => {
            reveal_strlit("all_bookings");
            assert(is_word_char("all_bookings"@[i]));
        },
        Word::PageNew => {
            reveal_strlit("page_new");
            assert(is_word_char("page_new"@[i]));
        },
        Word::PageUpcoming => {
            reveal_strlit("page_upcoming");
            assert(is_word_char("page_upcoming"@[i]));
        },
        Word::PageAll => {
            reveal_strlit("page_all");
            assert(is_word_char("page_all"@[i]));
        },
        Word::ClientBookings => {
            reveal_strlit("client_bookings");
            assert(is_word_char("client_bookings"@[i]));
        },
        Word::Calendar => {
            reveal_strlit("calendar");
            assert(is_word_char("calendar"@[i]));
        },
        Word::Select => {
            reveal_strlit("select");
            assert(is_word_char("select"@[i]));
        },
        Word::NextMonth => {
            reveal_strlit("next_month");
            assert(is_word_char("next_month"@[i]));
        },
        Word::PrevMonth => {
            reveal_strlit("prev_month");
            assert(is_word_char("prev_month"@[i]));
        },
        Word::PhotographerInfo => {
            reveal_strlit("photographer_info");
            assert(is_word_char("photographer_info"@[i]));
        },
        Word::Time => {
            reveal_strlit("time");
            assert(is_word_char("time"@[i]));
        },
        Word::Service => {
            reveal_strlit("service");
            assert(is_word_char("service"@[i]));
        },
        Word::ServiceInfo => {
            reveal_strlit("service_info");
            assert(is_word_char("service_info"@[i]));
        },
        Word::Photographer => {
            reveal_strlit("photographer");
            assert(is_word_char("photographer"@[i]));
        },
        Word::Any => {
            reveal_strlit("any");
            assert(is_word_char("any"@[i]));
        },
        Word::Confirming => {
            reveal_strlit("confirming");
            assert(is_word_char("confirming"@[i]));
        },
        Word::Yes => {
            reveal_strlit("yes");
            assert(is_word_char("yes"@[i]));
        },
        Word::No => {
            reveal_strlit("no");
            assert(is_word_char("no"@[i]));
        },
        Word::WorkingHours => {
            reveal_strlit("working_hours");
            assert(is_word_char("working_hours"@[i]));
        },
        Word::CustomHours => {
            reveal_strlit("custom_hours");
            assert(is_word_char("custom_hours"@[i]));
        },
        Word::EditSchedule => {
            reveal_strlit("edit_schedule");
            assert(is_word_char("edit_schedule"@[i]));
        },
        Word::AddWorkingDay => {
            reveal_strlit("add_working_day");
            assert(is_word_char("add_working_day"@[i]));
        },
        Word::ConfirmBooking => {
            reveal_strlit("confirm_booking");
            assert(is_word_char("confirm_booking"@[i]));
        },
        Word::ClientRejectBooking => {
            reveal_strlit("client_reject_booking");
            assert(is_word_char("client_reject_booking"@[i]));
        },
        Word::RejectBooking => {
            reveal_strlit("reject_booking");
            assert(is_word_char("reject_booking"@[i]));
        },
        Word::CompleteBooking => {
            reveal_strlit("complete_booking");
            assert(is_word_char("complete_booking"@[i]));
        },
        Word::BackToServices => {
            reveal_strlit("back_to_services");
            assert(is_word_char("back_to_services"@[i]));
        },
        Word::BackToPhotographers => {
            reveal_strlit("back_to_photographers");
            assert(is_word_char("back_to_photographers"@[i]));
        },
        Word::BackToCalendar => {
            reveal_strlit("back_to_calendar");
            assert(is_word_char("back_to_calendar"@[i]));
        },
        Word::RevokeConsent => {
            reveal_strlit("revoke_consent");
            assert(is_word_char("revoke_consent"@[i]));
        },
        Word::Confirm => {
            reveal_strlit("confirm");
            assert(is_word_char("confirm"@[i]));
        },
        Word::Cancel => {
            reveal_strlit("cancel");
            assert(is_word_char("cancel"@[i]));
        },
    }
}

/// Different words have different texts.
pub proof fn lemma_word_text_injective(a: Word, b: Word)
    requires
        word_text(a) == word_text(b),
    ensures
        a == b,
{
    lemma_word_letters(a);
    lemma_word_letters(b);
    let text = word_text(a);
    if text.len() == 3 {
        reveal_strlit("any");
        reveal_strlit("yes");
        assert("any"@[0] == 'a');
        assert("yes"@[0] == 'y');
    }
    if text.len() == 4 {
        reveal_strlit("back");
        reveal_strlit("time");
        assert("back"@[0] == 'b');
        assert("time"@[0] == 't');
    }
    if text.len() == 6 {
        reveal_strlit("ignore");
        reveal_strlit("select");
        reveal_strlit("cancel");
        assert("ignore"@[0] == 'i');
        assert("select"@[0] == 's');
        assert("cancel"@[0] == 'c');
    }
    if text.len() == 7 {
        reveal_strlit("service");
        reveal_strlit("confirm");
        assert("service"@[0] == 's');
        assert("confirm"@[0] == 'c');
    }
    if text.len() == 8 {
        reveal_strlit("page_new");
        reveal_strlit("page_all");
        reveal_strlit("calendar");
        assert("page_new"@[5] == 'n');
        assert("page_all"@[5] == 'a');
        assert("calendar"@[5] == 'd');
    }
    if text.len() == 10 {
        reveal_strlit("next_month");
        reveal_strlit("prev_month");
        reveal_strlit("confirming");
        assert("next_month"@[0] == 'n');
        assert("prev_month"@[0] == 'p');
        assert("confirming"@[0] == 'c');
    }
    if text.len() == 12 {
        reveal_strlit("new_bookings");
        reveal_strlit("all_bookings");
        reveal_strlit("service_info");
        reveal_strlit("photographer");
        reveal_strlit("custom_hours");
        assert("new_bookings"@[0] == 'n');
        assert("all_bookings"@[0] == 'a');
        assert("service_info"@[0] == 's');
        assert("photographer"@[0] == 'p');
        assert("custom_hours"@[0] == 'c');
    }
    if text.len() == 13 {
        reveal_strlit("page_upcoming");
        reveal_strlit("working_hours");
        reveal_strlit("edit_schedule");
        assert("page_upcoming"@[0] == 'p');
        assert("working_hours"@[0] == 'w');
        assert("edit_schedule"@[0] == 'e');
    }
    if text.len() == 14 {
        reveal_strlit("reject_booking");
        reveal_strlit("revoke_consent");
        assert("reject_booking"@[2] == 'j');
        assert("revoke_consent"@[2] == 'v');
    }
    if text.len() == 15 {
        reveal_strlit("client_bookings");
        reveal_strlit("add_working_day");
        reveal_strlit("confirm_booking");
        assert("client_bookings"@[1] == 'l');
        assert("add_working_day"@[1] == 'd');
        assert("confirm_booking"@[1] == 'o');
    }
    if text.len() == 16 {
        reveal_strlit("complete_booking");
        reveal_strlit("back_to_services");
        reveal_strlit("back_to_calendar");
        assert("complete_booking"@[8] == '_');
        assert("back_to_services"@[8] == 's');
        assert("back_to_calendar"@[8] == 'c');
    }
    if text.len() == 17 {
        reveal_strlit("upcoming_bookings");
        reveal_strlit("photographer_info");
        assert("upcoming_bookings"@[0] == 'u');
        assert("photographer_info"@[0] == 'p');
    }
    if text.len() == 21 {
        reveal_strlit("client_reject_booking");
        reveal_strlit("back_to_photographers");
        assert("client_reject_booking"@[0] == 'c');
        assert("back_to_photographers"@[0] == 'b');
    }
}

/// Reads a word.
pub fn read_word(text: &str) -> (word: Option<Word>)
    requires
        is_ascii(text),
    ensures
        match word {
            Some(word) => text@ == word_text(word),
            None => forall|other: Word| text@ != #[trigger] word_text(other),
        },
{
    if same_text(text, word_str(Word::Ignore)) {
        return Some(Word::Ignore);
    }
    if same_text(text, word_str(Word::Back)) {
        return Some(Word::Back);
    }
    if same_text(text, word_str(Word::Agree)) {
        return Some(Word::Agree);
    }
    if same_text(text, word_str(Word::NewBookings)) {
        return Some(Word::NewBookings);
    }
    if same_text(text, word_str(Word::UpcomingBookings)) {
        return Some(Word::UpcomingBookings);
    }
    if same_text(text, word_str(Word::AllBookings)) {
        return Some(Word::AllBookings);
    }
    if same_text(text, word_str(Word::PageNew)) {
        return Some(Word::PageNew);
    }
    if same_text(text, word_str(Word::PageUpcoming)) {
        return Some(Word::PageUpcoming);
    }
    if same_text(text, word_str(Word::PageAll)) {
        return Some(Word::PageAll);
    }
    if same_text(text, word_str(Word::ClientBookings)) {
        return Some(Word::ClientBookings);
    }
    if same_text(text, word_str(Word::Calendar)) {
        return Some(Word::Calendar);
    }
    if same_text(text, word_str(Word::Select)) {
        return Some(Word::Select);
    }
    if same_text(text, word_str(Word::NextMonth)) {
        return Some(Word::NextMonth);
    }
    if same_text(text, word_str(Word::PrevMonth)) {
        return Some(Word::PrevMonth);
    }
    if same_text(text, word_str(Word::PhotographerInfo)) {
        return Some(Word::PhotographerInfo);
    }
    if same_text(text, word_str(Word::Time)) {
        return Some(Word::Time);
    }
    if same_text(text, word_str(Word::Service)) {
        return Some(Word::Service);
    }
    if same_text(text, word_str(Word::ServiceInfo)) {
        return Some(Word::ServiceInfo);
    }
    if same_text(text, word_str(Word::Photographer)) {
        return Some(Word::Photographer);
    }
    if same_text(text, word_str(Word::Any)) {
        return Some(Word::Any);
    }
    if same_text(text, word_str(Word::Confirming)) {
        return Some(Word::Confirming);
    }
    if same_text(text, word_str(Word::Yes)) {
        return Some(Word::Yes);
    }
    if same_text(text, word_str(Word::No)) {
        return Some(Word::No);
    }
    if same_text(text, word_str(Word::WorkingHours)) {
        return Some(Word::WorkingHours);
    }
    if same_text(text, word_str(Word::CustomHours)) {
        return Some(Word::CustomHours);
    }
    if same_text(text, word_str(Word::EditSchedule)) {
        return Some(Word::EditSchedule);
    }
    if same_text(text, word_str(Word::AddWorkingDay)) {
        return Some(Word::AddWorkingDay);
    }
    if same_text(text, word_str(Word::ConfirmBooking)) {
        return Some(Word::ConfirmBooking);
    }
    if same_text(text, word_str(Word::ClientRejectBooking)) {
        return Some(Word::ClientRejectBooking);
    }
    if same_text(text, word_str(Word::RejectBooking)) {
        return Some(Word::RejectBooking);
    }
    if same_text(text, word_str(Word::CompleteBooking)) {
        return Some(Word::CompleteBooking);
    }
    if same_text(text, word_str(Word::BackToServices)) {
        return Some(Word::BackToServices);
    }
    if same_text(text, word_str(Word::BackToPhotographers)) {
        return Some(Word::BackToPhotographers);
    }
    if same_text(text, word_str(Word::BackToCalendar)) {
        return Some(Word::BackToCalendar);
    }
    if same_text(text, word_str(Word::RevokeConsent)) {
        return Some(Word::RevokeConsent);
    }
    if same_text(text, word_str(Word::Confirm)) {
        return Some(Word::Confirm);
    }
    if same_text(text, word_str(Word::Cancel)) {
        return Some(Word::Cancel);
    }
    None
}

} // verus!
