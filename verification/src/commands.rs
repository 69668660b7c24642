//! What a typed message asks for: the texts of the menu buttons, and the
//! working hours that a photographer types in.

use crate::fields::{split, split_text, texts};
use crate::text::{all_digits, digits_value, equal_text, parse_digits};
use vstd::prelude::*;
use vstd::string::*;

verus! {

/// The commands that a menu button types for the user.
#[derive(Clone, Copy, Debug, PartialEq, Eq, Structural)]
pub enum Command {
    /// The entry command.
    Start,
    ChooseService,
    History,
    ChangeName,
    Cabinet,
    RevokeConsent,
    Back,
    MySchedule,
    MyBookings,
    ChangePortfolio,
    ChangeDescription,
    /// Any other text.
    Other,
}

/// The text of a command. `Other` has none; the empty text stands for it.
pub open spec fn command_text(command: Command) -> Seq<char> {
    match command {
        Command::Start => "/start"@,
        Command::ChooseService => "Выбрать услугу"@,
        Command::History => "История записей"@,
        Command::ChangeName => "Изменить имя"@,
        Command::Cabinet => "Личный кабинет"@,
        Command::RevokeConsent => "Отозвать согласие"@,
        Command::Back => "⟵ Назад"@,
        Command::MySchedule => "Моё расписание"@,
        Command::MyBookings => "Мои записи"@,
        Command::ChangePortfolio => "Изменить портфолио"@,
        Command::ChangeDescription => "Изменить свое описание"@,
        Command::Other => Seq::empty(),
    }
}

/// The text of a command.
pub fn command_str(command: Command) -> (text: &'static str)
    ensures
        command != Command::Other ==> text@ == command_text(command),
{
    match command {
        Command::Start => "/start",
        Command::ChooseService => "Выбрать услугу",
        Command::History => "История записей",
        Command::ChangeName => "Изменить имя",
        Command::Cabinet => "Личный кабинет",
        Command::RevokeConsent => "Отозвать согласие",
        Command::Back => "⟵ Назад",
        Command::MySchedule => "Моё расписание",
        Command::MyBookings => "Мои записи",
        Command::ChangePortfolio => "Изменить портфолио",
        Command::ChangeDescription => "Изменить свое описание",
        Command::Other => "",
    }
}

/// The first command, in the order of their declaration, that has the given text.
pub open spec fn command_of(text: Seq<char>) -> Command {
    if text == command_text(Command::Start) {
        Command::Start
    } else if text == command_text(Command::ChooseService) {
        Command::ChooseService
    } else if text == command_text(Command::History) {
        Command::History
    } else if text == command_text(Command::ChangeName) {
        Command::ChangeName
    } else if text == command_text(Command::Cabinet) {
        Command::Cabinet
    } else if text == command_text(Command::RevokeConsent) {
        Command::RevokeConsent
    } else if text == command_text(Command::Back) {
        Command::Back
    } else if text == command_text(Command::MySchedule) {
        Command::MySchedule
    } else if text == command_text(Command::MyBookings) {
        Command::MyBookings
    } else if text == command_text(Command::ChangePortfolio) {
        Command::ChangePortfolio
    } else if text == command_text(Command::ChangeDescription) {
        Command::ChangeDescription
    } else {
        Command::Other
    }
}

/// Reads a typed message as a command: the command whose text it is, `Other` for any other text.
pub fn read_command(text: &str) -> (command: Command)
    ensures
        command == command_of(text@),
        command != Command::Other ==> text@ == command_text(command),
{
    if equal_text(text, command_str(Command::Start)) {
        Command::Start
    } else if equal_text(text, command_str(Command::ChooseService)) {
        Command::ChooseService
    } else if equal_text(text, command_str(Command::History)) {
        Command::History
    } else if equal_text(text, command_str(Command::ChangeName)) {
        Command::ChangeName
    } else if equal_text(text, command_str(Command::Cabinet)) {
        Command::Cabinet
    } else if equal_text(text, command_str(Command::RevokeConsent)) {
        Command::RevokeConsent
    } else if equal_text(text, command_str(Command::Back)) {
        Command::Back
    } else if equal_text(text, command_str(Command::MySchedule)) {
        Command::MySchedule
    } else if equal_text(text, command_str(Command::MyBookings)) {
        Command::MyBookings
    } else if equal_text(text, command_str(Command::ChangePortfolio)) {
        Command::ChangePortfolio
    } else if equal_text(text, command_str(Command::ChangeDescription)) {
        Command::ChangeDescription
    } else {
        Command::Other
    }
}

/// Whether a field of typed working hours names an hour: one digit or
/// more, nothing else, worth at most `i32::MAX`.
pub open spec fn is_hour(field: Seq<char>) -> bool {
    field.len() >= 1 && all_digits(field) && digits_value(field) <= i32::MAX
}

/// The working hours that a text such as `9:00-18:00` names: two times
/// with a minus sign between them, each an hour, a colon and whatever is
/// typed for the minutes, of which only the hours count.
pub open spec fn typed_hours(text: Seq<char>) -> Option<(i32, i32)> {
    let times = split(text, '-');
    if times.len() == 2 {
        let from = split(times[0], ':');
        let until = split(times[1], ':');
        if from.len() == 2 && until.len() == 2 && is_hour(from[0]) && is_hour(until[0]) {
            Some((digits_value(from[0]) as i32, digits_value(until[0]) as i32))
        } else {
            None
        }
    } else {
        None
    }
}

/// Reads the hour of a typed time.
fn read_hour(field: &str) -> (hour: Option<i32>)
    requires
        is_ascii(field),
    ensures
        hour == if is_hour(field@) {
            Some(digits_value(field@) as i32)
        } else {
            None
        },
{
    if field.unicode_len() == 0 {
        return None;
    }
    match parse_digits(field, 2147483647) {
        Some(value) => Some(value as i32),
        None => None,
    }
}

/// Reads typed working hours. `None` for a text of another form, and for
/// one that holds other than ASCII characters.
pub fn read_hours(text: &str) -> (hours: Option<(i32, i32)>)
    ensures
        hours == if is_ascii(text) {
            typed_hours(text@)
        } else {
            None
        },
{
    if !text.is_ascii() {
        return None;
    }
    let times = split_text(text, 45);
    if times.len() != 2 {
        return None;
    }
    assert(texts(times@)[0] == times@[0]@ && texts(times@)[1] == times@[1]@);
    let from = split_text(times[0], 58);
    let until = split_text(times[1], 58);
    if from.len() != 2 || until.len() != 2 {
        return None;
    }
    assert(texts(from@)[0] == from@[0]@ && texts(until@)[0] == until@[0]@);
    match (read_hour(from[0]), read_hour(until[0])) {
        (Some(start), Some(end)) => Some((start, end)),
        _ => None,
    }
}

/// The commands on the main menu of a client.
pub fn main_menu() -> (menu: Vec<Command>)
    ensures
        menu@ == seq![Command::ChooseService, Command::Cabinet],
{
    let mut menu: Vec<Command> = Vec::new();
    menu.push(Command::ChooseService);
    menu.push(Command::Cabinet);
    menu
}

/// The commands in the personal cabinet of a client.
pub fn cabinet_menu() -> (menu: Vec<Command>)
    ensures
        menu@ == seq![Command::History, Command::ChangeName, Command::RevokeConsent, Command::Back],
{
    let mut menu: Vec<Command> = Vec::new();
    menu.push(Command::History);
    menu.push(Command::ChangeName);
    menu.push(Command::RevokeConsent);
    menu.push(Command::Back);
    menu
}

/// The commands on the main menu of a photographer.
pub fn show_photographer_menu() -> (menu: Vec<Command>)
    ensures
        menu@ == seq![
            Command::MySchedule,
            Command::MyBookings,
            Command::ChangePortfolio,
            Command::ChangeDescription,
        ],
{
    let mut menu: Vec<Command> = Vec::new();
    menu.push(Command::MySchedule);
    menu.push(Command::MyBookings);
    menu.push(Command::ChangePortfolio);
    menu.push(Command::ChangeDescription);
    menu
}

} // verus!
