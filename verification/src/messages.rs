//! The conversation when a message is typed: registration, the menus of
//! clients and photographers, and what is typed in answer to a question.

use crate::callbacks::{acting_client, calendar_of, same_catalogue};
use crate::calendar::Date;
use crate::clients::renames;
use crate::commands::{command_of, read_command, read_hours, typed_hours, Command};
use crate::effects::{stay, Effect, Reaction};
use crate::models::WorkingHours;
use crate::session::{PhotographerChoice, SessionState, UserSession, UserStep, UserType};
use crate::studio::{hours_after_save, Studio};
use vstd::prelude::*;
use vstd::string::*;
use vstd::utf8::encode_utf8;

verus! {

/// The role that a step is for, `None` for the steps that anyone may be at.
pub open spec fn required_role(step: UserStep) -> Option<UserType> {
    match step {
        UserStep::Registration => None,
        UserStep::Start => None,
        UserStep::MainMenu => Some(UserType::Client),
        UserStep::SelectingService => Some(UserType::Client),
        UserStep::SelectingPhotographer => Some(UserType::Client),
        UserStep::SelectingTime => Some(UserType::Client),
        UserStep::ConfirmingBooking => Some(UserType::Client),
        UserStep::PersonalCabinet => Some(UserType::Client),
        UserStep::ChangeName => Some(UserType::Client),
        UserStep::PhotographerMainMenu => Some(UserType::Photographer),
        UserStep::ViewSchedule => Some(UserType::Photographer),
        UserStep::ViewBookings => Some(UserType::Photographer),
        UserStep::ChangeDescription => Some(UserType::Photographer),
        UserStep::ChangePortfolio => Some(UserType::Photographer),
        UserStep::CustomHours => Some(UserType::Photographer),
    }
}

/// Whether the session stands at a step that is for another role than its own.
pub open spec fn role_mismatch(s: SessionState) -> bool {
    required_role(s.step) matches Some(role) && role != s.user_type
}

/// Whether the command belongs to the menus of a registered client.
pub open spec fn is_client_command(command: Command) -> bool {
    command == Command::ChooseService || command == Command::History || command == Command::ChangeName
        || command == Command::Cabinet || command == Command::RevokeConsent
}

/// Finds out who is in the chat: a photographer first, then a client; anyone
/// else is sent to registration.
pub open spec fn detected(s: SessionState, studio: &Studio, chat_id: i64) -> Reaction {
    match studio.photographer_of(chat_id) {
        Some(photographer_id) => Reaction {
            session: SessionState {
                user_type: UserType::Photographer,
                photographer: PhotographerChoice::Specific(photographer_id),
                step: UserStep::PhotographerMainMenu,
                ..s
            },
            effect: Effect::ShowPhotographerMenu,
        },
        None => match studio.clients.client_of(chat_id) {
            Some(client_id) => Reaction {
                session: SessionState {
                    user_type: UserType::Client,
                    client_id: Some(client_id),
                    step: UserStep::MainMenu,
                    ..s
                },
                effect: Effect::Welcome,
            },
            None => Reaction {
                session: SessionState { step: UserStep::Registration, ..s },
                effect: Effect::AskName,
            },
        },
    }
}

/// What a command of the client menus comes to for the registered client.
pub open spec fn client_command(s: SessionState, client_id: i32, command: Command) -> Reaction {
    match command {
        Command::ChooseService => Reaction {
            session: SessionState { step: UserStep::SelectingService, ..s },
            effect: Effect::ShowServices,
        },
        Command::History => Reaction {
            session: SessionState { step: UserStep::PersonalCabinet, ..s },
            effect: Effect::ShowClientHistory { client_id },
        },
        Command::ChangeName => Reaction {
            session: SessionState { step: UserStep::ChangeName, ..s },
            effect: Effect::AskNewName,
        },
        Command::Cabinet => Reaction {
            session: SessionState { step: UserStep::PersonalCabinet, ..s },
            effect: Effect::ShowCabinet,
        },
        _ => stay(s, Effect::AskRevocation),
    }
}

/// The working hours that a typed message writes: the photographer is at
/// the step for typing them, the text names hours, and a date is selected.
pub open spec fn typed_row(s: SessionState, text: Seq<char>) -> Option<WorkingHours> {
    if s.step == UserStep::CustomHours && s.user_type == UserType::Photographer && command_of(text)
        == Command::Other && vstd::utf8::is_ascii_chars(text) {
        match (typed_hours(text), s.photographer.named(), s.selected_date) {
            (Some(hours), Some(photographer_id), Some(date)) => Some(
                WorkingHours { photographer_id, date, start_hour: hours.0, end_hour: hours.1 },
            ),
            _ => None,
        }
    } else {
        None
    }
}

/// Whether a typed message is a new name that is taken: the client is at
/// the step for it and the text has two bytes or more.
pub open spec fn is_new_name(s: SessionState, text: Seq<char>) -> bool {
    s.step == UserStep::ChangeName && s.user_type == UserType::Client && !is_client_command(
        command_of(text),
    ) && command_of(text) != Command::Start && encode_utf8(text).len() >= 2
}

/// What a text typed at the step of the session comes to.
pub open spec fn step_reaction(
    s: SessionState,
    studio: &Studio,
    chat_id: i64,
    text: Seq<char>,
    username: Option<Seq<char>>,
    today: Date,
) -> Reaction {
    let command = command_of(text);
    match s.step {
        UserStep::Registration => match studio.photographer_of(chat_id) {
            Some(_) => detected(s, studio, chat_id),
            None => Reaction {
                session: SessionState {
                    client_id: None,
                    user_type: UserType::Client,
                    client_name: text,
                    client_username: match username {
                        Some(handle) => handle,
                        None => Seq::empty(),
                    },
                    step: UserStep::Start,
                    ..s
                },
                effect: Effect::AskConsent,
            },
        },
        UserStep::Start => detected(s, studio, chat_id),
        UserStep::PhotographerMainMenu => match command {
            Command::MySchedule => match s.photographer.named() {
                Some(_) => stay(s, calendar_of(s, today, UserType::Photographer)),
                None => stay(s, Effect::Nothing),
            },
            Command::MyBookings => stay(s, Effect::ShowBookingLists),
            Command::ChangePortfolio => Reaction {
                session: SessionState { step: UserStep::ChangePortfolio, ..s },
                effect: Effect::AskPortfolio,
            },
            Command::ChangeDescription => Reaction {
                session: SessionState { step: UserStep::ChangeDescription, ..s },
                effect: Effect::AskDescription,
            },
            _ => stay(s, Effect::Nothing),
        },
        UserStep::ChangePortfolio => match s.photographer.named() {
            Some(photographer_id) => stay(s, Effect::PortfolioChanged { photographer_id }),
            None => stay(s, Effect::Nothing),
        },
        UserStep::ChangeDescription => match s.photographer.named() {
            Some(photographer_id) => stay(s, Effect::DescriptionChanged { photographer_id }),
            None => stay(s, Effect::Nothing),
        },
        UserStep::ViewSchedule => match s.photographer.named() {
            Some(_) => stay(s, calendar_of(s, today, UserType::Photographer)),
            None => stay(s, Effect::Nothing),
        },
        UserStep::ViewBookings => stay(s, Effect::ShowBookingLists),
        UserStep::CustomHours => match typed_row(s, text) {
            Some(row) => Reaction {
                session: SessionState { step: UserStep::PhotographerMainMenu, ..s },
                effect: Effect::HoursSaved { photographer_id: row.photographer_id, date: row.date },
            },
            None => stay(s, Effect::InvalidHours),
        },
        UserStep::PersonalCabinet => match command {
            Command::Back => Reaction {
                session: SessionState { step: UserStep::MainMenu, ..s },
                effect: Effect::ShowMainMenu,
            },
            _ => stay(s, Effect::Nothing),
        },
        UserStep::ChangeName => if encode_utf8(text).len() < 2 {
            stay(s, Effect::NameTooShort)
        } else {
            Reaction {
                session: SessionState { step: UserStep::MainMenu, ..s },
                effect: Effect::NameChanged,
            }
        },
        _ => stay(s, Effect::Nothing),
    }
}

/// What a typed message comes to: the session afterwards and the effect.
///
/// The entry command always finds out anew who is in the chat, whatever
/// the step. At a step that is for another role the answer is the fixed
/// one and the session stays. The commands of the client menus work at any
/// step for a registered client, and send anyone else through detection.
pub open spec fn message_reaction(
    s: SessionState,
    studio: &Studio,
    chat_id: i64,
    text: Seq<char>,
    username: Option<Seq<char>>,
    today: Date,
) -> Reaction {
    let command = command_of(text);
    if command == Command::Start {
        detected(s, studio, chat_id)
    } else if role_mismatch(s) {
        stay(s, Effect::UnknownCommand)
    } else if is_client_command(command) {
        match acting_client(s) {
            Some(client_id) => client_command(s, client_id, command),
            None => detected(s, studio, chat_id),
        }
    } else {
        step_reaction(s, studio, chat_id, text, username, today)
    }
}

/// The working hours after a typed message.
pub open spec fn hours_after_message(s: SessionState, studio: &Studio, text: Seq<char>) -> Seq<
    WorkingHours,
> {
    match typed_row(s, text) {
        Some(row) => hours_after_save(studio.hours@, row),
        None => studio.hours@,
    }
}

/// Whether the clients `after` are what the typed message makes of the
/// clients `before`: renamed where the message is a new name, else the same.
pub open spec fn clients_follow_message(s: SessionState, before: &Studio, after: &Studio, chat_id: i64, text: Seq<
    char,
>) -> bool {
    if is_new_name(s, text) {
        renames(
            before.clients,
            after.clients,
            chat_id,
            text,
            before.clients.client_of(chat_id) is Some,
        )
    } else {
        after.clients == before.clients
    }
}

/// Finds out who is in the chat.
fn detect(session: &mut UserSession, studio: &Studio, chat_id: i64) -> (effect: Effect)
    requires
        studio.well_formed(),
    ensures
        final(session)@ == detected(old(session)@, studio, chat_id).session,
        effect == detected(old(session)@, studio, chat_id).effect,
{
    match studio.check_photographer(chat_id) {
        Some(photographer_id) => {
            session.user_type = UserType::Photographer;
            session.photographer = PhotographerChoice::Specific(photographer_id);
            session.step = UserStep::PhotographerMainMenu;
            Effect::ShowPhotographerMenu
        },
        None => match studio.check_client(chat_id) {
            Some(client_id) => {
                session.user_type = UserType::Client;
                session.client_id = Some(client_id);
                session.step = UserStep::MainMenu;
                Effect::Welcome
            },
            None => {
                session.step = UserStep::Registration;
                Effect::AskName
            },
        },
    }
}

/// Whether the session stands at a step that is for another role than its own.
fn check_role(session: &UserSession) -> (mismatch: bool)
    ensures
        mismatch == role_mismatch(session@),
{
    let for_client = match session.step {
        UserStep::MainMenu | UserStep::SelectingService | UserStep::SelectingPhotographer
        | UserStep::SelectingTime | UserStep::ConfirmingBooking | UserStep::PersonalCabinet
        | UserStep::ChangeName => true,
        _ => false,
    };
    let for_photographer = match session.step {
        UserStep::PhotographerMainMenu | UserStep::ViewSchedule | UserStep::ViewBookings
        | UserStep::ChangeDescription | UserStep::ChangePortfolio | UserStep::CustomHours => true,
        _ => false,
    };
    let is_client = match session.user_type {
        UserType::Client => true,
        _ => false,
    };
    let is_photographer = match session.user_type {
        UserType::Photographer => true,
        _ => false,
    };
    (for_client && !is_client) || (for_photographer && !is_photographer)
}

/// Handles a text typed at the step of the session.
fn at_step(
    session: &mut UserSession,
    studio: &mut Studio,
    chat_id: i64,
    text: &str,
    username: Option<&str>,
    today: Date,
    command: Command,
) -> (effect: Effect)
    requires
        old(studio).well_formed(),
        command == command_of(text@),
        command != Command::Start,
        !is_client_command(command),
        !role_mismatch(old(session)@),
    ensures
        final(studio).well_formed(),
        final(session)@ == step_reaction(
            old(session)@,
            old(studio),
            chat_id,
            text@,
            match username {
                Some(handle) => Some(handle@),
                None => None,
            },
            today,
        ).session,
        effect == step_reaction(
            old(session)@,
            old(studio),
            chat_id,
            text@,
            match username {
                Some(handle) => Some(handle@),
                None => None,
            },
            today,
        ).effect,
        final(studio).hours@ == hours_after_message(old(session)@, old(studio), text@),
        clients_follow_message(old(session)@, old(studio), final(studio), chat_id, text@),
        final(studio).ledger == old(studio).ledger,
        same_catalogue(old(studio), final(studio)),
{
    match session.step {
        UserStep::Registration => match studio.check_photographer(chat_id) {
            Some(_) => detect(session, studio, chat_id),
            None => {
                session.client_id = None;
                session.user_type = UserType::Client;
                session.client_name = String::from_str(text);
                session.client_username = match username {
                    Some(handle) => String::from_str(handle),
                    None => String::new(),
                };
                session.step = UserStep::Start;
                Effect::AskConsent
            },
        },
        UserStep::Start => detect(session, studio, chat_id),
        UserStep::PhotographerMainMenu => match command {
            Command::MySchedule => match session.photographer.id() {
                Some(photographer_id) => Effect::ShowCalendar {
                    month: today.month,
                    year: today.year,
                    photographer: Some(photographer_id),
                    user_type: UserType::Photographer,
                },
                None => Effect::Nothing,
            },
            Command::MyBookings => Effect::ShowBookingLists,
            Command::ChangePortfolio => {
                session.step = UserStep::ChangePortfolio;
                Effect::AskPortfolio
            },
            Command::ChangeDescription => {
                session.step = UserStep::ChangeDescription;
                Effect::AskDescription
            },
            _ => Effect::Nothing,
        },
        UserStep::ChangePortfolio => match session.photographer.id() {
            Some(photographer_id) => Effect::PortfolioChanged { photographer_id },
            None => Effect::Nothing,
        },
        UserStep::ChangeDescription => match session.photographer.id() {
            Some(photographer_id) => Effect::DescriptionChanged { photographer_id },
            None => Effect::Nothing,
        },
        UserStep::ViewSchedule => match session.photographer.id() {
            Some(photographer_id) => Effect::ShowCalendar {
                month: today.month,
                year: today.year,
                photographer: Some(photographer_id),
                user_type: UserType::Photographer,
            },
            None => Effect::Nothing,
        },
        UserStep::ViewBookings => Effect::ShowBookingLists,
        UserStep::CustomHours => {
            let other = match command {
                Command::Other => true,
                _ => false,
            };
            match (read_hours(text), session.photographer.id(), session.selected_date) {
                (Some((start_hour, end_hour)), Some(photographer_id), Some(date)) => {
                    if other {
                        studio.save_working_hours(photographer_id, date, start_hour, end_hour);
                        session.step = UserStep::PhotographerMainMenu;
                        Effect::HoursSaved { photographer_id, date }
                    } else {
                        Effect::InvalidHours
                    }
                },
                _ => Effect::InvalidHours,
            }
        },
        UserStep::PersonalCabinet => match command {
            Command::Back => {
                session.step = UserStep::MainMenu;
                Effect::ShowMainMenu
            },
            _ => Effect::Nothing,
        },
        UserStep::ChangeName => {
            if text.as_bytes().len() < 2 {
                Effect::NameTooShort
            } else {
                studio.clients.rename(chat_id, String::from_str(text));
                session.step = UserStep::MainMenu;
                Effect::NameChanged
            }
        },
        _ => Effect::Nothing,
    }
}

/// Handles a typed message.
///
/// The session and the effect are those of `message_reaction`. The studio
/// changes only where the message writes: working hours typed by a
/// photographer, and the new name of a client.
pub fn handle_message(
    session: &mut UserSession,
    studio: &mut Studio,
    chat_id: i64,
    text: &str,
    username: Option<&str>,
    today: Date,
) -> (effect: Effect)
    requires
        old(studio).well_formed(),
    ensures
        final(studio).well_formed(),
        final(session)@ == message_reaction(
            old(session)@,
            old(studio),
            chat_id,
            text@,
            match username {
                Some(handle) => Some(handle@),
                None => None,
            },
            today,
        ).session,
        effect == message_reaction(
            old(session)@,
            old(studio),
            chat_id,
            text@,
            match username {
                Some(handle) => Some(handle@),
                None => None,
            },
            today,
        ).effect,
        final(studio).hours@ == if command_of(text@) != Command::Start && !role_mismatch(old(session)@) {
            hours_after_message(old(session)@, old(studio), text@)
        } else {
            old(studio).hours@
        },
        if command_of(text@) != Command::Start && !role_mismatch(old(session)@) {
            clients_follow_message(old(session)@, old(studio), final(studio), chat_id, text@)
        } else {
            final(studio).clients == old(studio).clients
        },
        final(studio).ledger == old(studio).ledger,
        same_catalogue(old(studio), final(studio)),
{
    let command = read_command(text);
    match command {
        Command::Start => {
            return detect(session, studio, chat_id);
        },
        _ => {},
    }
    if check_role(session) {
        return Effect::UnknownCommand;
    }
    let client = match session.user_type {
        UserType::Client => session.client_id,
        _ => None,
    };
    match command {
        Command::ChooseService | Command::History | Command::ChangeName | Command::Cabinet
        | Command::RevokeConsent => match client {
            Some(client_id) => match command {
                Command::ChooseService => {
                    session.step = UserStep::SelectingService;
                    Effect::ShowServices
                },
                Command::History => {
                    session.step = UserStep::PersonalCabinet;
                    Effect::ShowClientHistory { client_id }
                },
                Command::ChangeName => {
                    session.step = UserStep::ChangeName;
                    Effect::AskNewName
                },
                Command::Cabinet => {
                    session.step = UserStep::PersonalCabinet;
                    Effect::ShowCabinet
                },
                _ => Effect::AskRevocation,
            },
            None => detect(session, studio, chat_id),
        },
        _ => at_step(session, studio, chat_id, text, username, today, command),
    }
}

/// At a step that is for another role, whatever is typed but the entry
/// command gets the fixed answer and changes nothing.
pub proof fn lemma_wrong_role_changes_nothing(
    s: SessionState,
    studio: &Studio,
    chat_id: i64,
    text: Seq<char>,
    username: Option<Seq<char>>,
    today: Date,
)
    requires
        role_mismatch(s),
        command_of(text) != Command::Start,
    ensures
        message_reaction(s, studio, chat_id, text, username, today) == stay(s, Effect::UnknownCommand),
        typed_row(s, text) is None,
        !is_new_name(s, text),
{
}

/// The entry command finds out anew who is in the chat, whatever the step of the session.
pub proof fn lemma_entry_command_detects(
    s: SessionState,
    studio: &Studio,
    chat_id: i64,
    username: Option<Seq<char>>,
    today: Date,
)
    ensures
        message_reaction(s, studio, chat_id, "/start"@, username, today) == detected(s, studio, chat_id),
{
}

/// After consent was revoked the one in the chat is no client any more:
/// the next entry command leads to registration, unless the chat is a photographer's.
pub proof fn lemma_revoked_client_registers_again(
    s: SessionState,
    before: &Studio,
    after: &Studio,
    chat_id: i64,
    username: Option<Seq<char>>,
    today: Date,
)
    requires
        crate::clients::revokes(
            before.clients,
            after.clients,
            chat_id,
            before.clients.client_of(chat_id) is Some,
        ),
        after.photographer_of(chat_id) is None,
    ensures
        crate::clients::active_rows(after.clients.active(), chat_id) == 0,
        message_reaction(s, after, chat_id, "/start"@, username, today).session.step
            == UserStep::Registration,
        message_reaction(s, after, chat_id, "/start"@, username, today).effect == Effect::AskName,
{
}

} // verus!
