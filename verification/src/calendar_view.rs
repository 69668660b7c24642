//! The calendar of a month as a keyboard: a title, the weekdays, the days in
//! rows of a week, and the way to the neighbouring months.

use crate::actions::Action;
use crate::calendar::{days_in_month, is_calendar_date, month_length, weekday_from_monday, Date};
use crate::keyboard::{button, grid, has_token, idle, lemma_grid_push, press, single_row, Button, Label};
use crate::session::UserType;
use crate::studio::Studio;
use vstd::prelude::*;

verus! {

/// The number of cells before the first day of the month: the weekday of the first, from Monday.
pub open spec fn leading_blanks(month: u32, year: i32) -> int {
    weekday_from_monday(year as int, month as int, 1)
}

/// The number of day rows of the month: as many weeks as the blanks and the days touch.
pub open spec fn week_rows(month: u32, year: i32) -> int {
    if is_calendar_date(year as int, month as int, 1) {
        (leading_blanks(month, year) + month_length(year as int, month as int) + 6) / 7
    } else {
        0
    }
}

/// The button of a day of the month. A day before today cannot be chosen;
/// any other day can, and shows whether it is a working day. A day of a
/// year that has no four digits cannot be chosen either.
pub open spec fn day_button(studio: &Studio, photographer: Option<i32>, date: Date, today: Date) -> Button {
    if date.earlier_than(today) {
        idle(Label::PastDay(date.day))
    } else {
        let label = if studio.is_working_day(photographer, date) {
            Label::Day(date.day)
        } else {
            Label::ClosedDay(date.day)
        };
        if 0 <= date.year <= 9999 {
            press(label, Action::CalendarSelect(date))
        } else {
            idle(label)
        }
    }
}

/// The cell at the given position of the day rows, counted along the rows.
pub open spec fn calendar_cell(
    studio: &Studio,
    photographer: Option<i32>,
    month: u32,
    year: i32,
    today: Date,
    position: int,
) -> Button {
    let day = position - leading_blanks(month, year) + 1;
    if 1 <= day <= month_length(year as int, month as int) {
        day_button(studio, photographer, Date { year, month, day: day as u32 }, today)
    } else {
        idle(Label::Blank)
    }
}

/// The row of the weekdays.
pub open spec fn weekday_row() -> Seq<Button> {
    Seq::new(7, |i: int| idle(Label::Weekday(i as u32)))
}

/// The row that leads to the neighbouring months.
pub open spec fn month_row(month: u32, year: i32) -> Seq<Button> {
    seq![
        press(Label::PreviousMonth, Action::CalendarPrev { month, year }),
        press(Label::NextMonth, Action::CalendarNext { month, year }),
    ]
}

/// The calendar of a month.
pub open spec fn calendar_rows(
    studio: &Studio,
    photographer: Option<i32>,
    month: u32,
    year: i32,
    user_type: UserType,
    today: Date,
) -> Seq<Seq<Button>> {
    let head = seq![seq![idle(Label::MonthTitle { month, year })], weekday_row()];
    let weeks = Seq::new(
        week_rows(month, year) as nat,
        |r: int| Seq::new(7, |c: int| calendar_cell(studio, photographer, month, year, today, 7 * r + c)),
    );
    let foot = if user_type == UserType::Client {
        seq![
            month_row(month, year),
            seq![press(Label::BackToPhotographers, Action::BackToPhotographers)],
        ]
    } else {
        seq![month_row(month, year)]
    };
    head + weeks + foot
}

/// The button of a day of the month.
fn day_key(studio: &Studio, photographer: Option<i32>, date: Date, today: Date) -> (made: Button)
    ensures
        made == day_button(studio, photographer, date, today),
{
    if date.is_before(&today) {
        button(Label::PastDay(date.day), Action::Ignore)
    } else {
        let label = if studio.check_working_day(photographer, date) {
            Label::Day(date.day)
        } else {
            Label::ClosedDay(date.day)
        };
        if 0 <= date.year && date.year <= 9999 {
            button(label, Action::CalendarSelect(date))
        } else {
            button(label, Action::Ignore)
        }
    }
}

/// The row of the weekdays.
fn weekdays() -> (row: Vec<Button>)
    ensures
        row@ == weekday_row(),
{
    let mut row: Vec<Button> = Vec::new();
    let mut i: u32 = 0;
    while i < 7
        invariant
            i <= 7,
            row@.len() == i,
            forall|k: int| 0 <= k < i ==> #[trigger] row@[k] == idle(Label::Weekday(k as u32)),
        decreases 7 - i,
    {
        row.push(button(Label::Weekday(i), Action::Ignore));
        i += 1;
    }
    assert(row@ =~= weekday_row());
    row
}

/// The calendar of a month as a keyboard.
///
/// The month title and the weekdays come first. Where the calendar has
/// the month, rows of seven cells follow: blank cells up to the weekday of
/// the first, a button for each day, blank cells to the end of the last
/// week. Then the way to the months before and after, and for a client the
/// way back to the photographers. `photographer` is `None` for a client who
/// named none.
pub fn generate_calendar(
    month: u32,
    year: i32,
    studio: &Studio,
    photographer: Option<i32>,
    user_type: UserType,
    today: Date,
) -> (keyboard: Vec<Vec<Button>>)
    ensures
        grid(keyboard@) == calendar_rows(studio, photographer, month, year, user_type, today),
{
    let mut keyboard: Vec<Vec<Button>> = Vec::new();
    keyboard.push(single_row(button(Label::MonthTitle { month, year }, Action::Ignore)));
    keyboard.push(weekdays());
    let ghost head = seq![seq![idle(Label::MonthTitle { month, year })], weekday_row()];
    let ghost weeks = Seq::new(
        week_rows(month, year) as nat,
        |r: int| Seq::new(7, |c: int| calendar_cell(studio, photographer, month, year, today, 7 * r + c)),
    );
    assert(grid(keyboard@) =~= head);
    let days = days_in_month(month, year);
    if days > 0 {
        let first = Date { year, month, day: 1 };
        let shift = match first.weekday() {
            Some(number) => number,
            None => 0,
        };
        let rows: u32 = (shift + days + 6) / 7;
        let mut r: u32 = 0;
        assert(grid(keyboard@) =~= head + weeks.take(0));
        while r < rows
            invariant
                r <= rows,
                rows == week_rows(month, year),
                days == month_length(year as int, month as int),
                28 <= days <= 31,
                shift == leading_blanks(month, year),
                shift <= 6,
                is_calendar_date(year as int, month as int, 1),
                head == seq![seq![idle(Label::MonthTitle { month, year })], weekday_row()],
                weeks == Seq::new(
                    week_rows(month, year) as nat,
                    |r: int|
                        Seq::new(
                            7,
                            |c: int| calendar_cell(studio, photographer, month, year, today, 7 * r + c),
                        ),
                ),
                grid(keyboard@) == head + weeks.take(r as int),
            decreases rows - r,
        {
            let mut row: Vec<Button> = Vec::new();
            let mut c: u32 = 0;
            while c < 7
                invariant
                    c <= 7,
                    r < rows,
                    rows <= 6,
                    days == month_length(year as int, month as int),
                    28 <= days <= 31,
                    shift == leading_blanks(month, year),
                    shift <= 6,
                    row@.len() == c,
                    forall|k: int|
                        0 <= k < c ==> #[trigger] row@[k] == calendar_cell(
                            studio,
                            photographer,
                            month,
                            year,
                            today,
                            7 * r + k,
                        ),
                decreases 7 - c,
            {
                let position: u32 = 7 * r + c;
                if position >= shift && position - shift < days {
                    let date = Date { year, month, day: position - shift + 1 };
                    row.push(day_key(studio, photographer, date, today));
                } else {
                    row.push(button(Label::Blank, Action::Ignore));
                }
                c += 1;
            }
            proof {
                lemma_grid_push(keyboard@, row);
                assert(row@ =~= weeks[r as int]);
                assert(weeks.take(r + 1) =~= weeks.take(r as int).push(weeks[r as int]));
                assert((head + weeks.take(r as int)).push(row@) =~= head + weeks.take(r + 1));
            }
            keyboard.push(row);
            r += 1;
        }
        assert(weeks.take(rows as int) =~= weeks);
    } else {
        assert(weeks =~= Seq::empty());
        assert(head + weeks =~= head);
    }
    let mut turn: Vec<Button> = Vec::new();
    turn.push(button(Label::PreviousMonth, Action::CalendarPrev { month, year }));
    turn.push(button(Label::NextMonth, Action::CalendarNext { month, year }));
    proof {
        lemma_grid_push(keyboard@, turn);
        assert(turn@ =~= month_row(month, year));
    }
    keyboard.push(turn);
    match user_type {
        UserType::Client => {
            let back = single_row(button(Label::BackToPhotographers, Action::BackToPhotographers));
            proof {
                lemma_grid_push(keyboard@, back);
            }
            keyboard.push(back);
            assert(grid(keyboard@) =~= calendar_rows(studio, photographer, month, year, user_type, today));
        },
        _ => {
            assert(grid(keyboard@) =~= calendar_rows(studio, photographer, month, year, user_type, today));
        },
    }
    keyboard
}

/// Every button of a calendar has a token: the days that can be chosen are days of the calendar.
pub proof fn lemma_calendar_buttons_have_tokens(
    studio: &Studio,
    photographer: Option<i32>,
    month: u32,
    year: i32,
    user_type: UserType,
    today: Date,
    row: int,
    column: int,
)
    requires
        0 <= row < calendar_rows(studio, photographer, month, year, user_type, today).len(),
        0 <= column < calendar_rows(studio, photographer, month, year, user_type, today)[row].len(),
    ensures
        has_token(calendar_rows(studio, photographer, month, year, user_type, today)[row][column]),
{
    let weeks = week_rows(month, year);
    if 2 <= row < 2 + weeks {
        let position = 7 * (row - 2) + column;
        let day = position - leading_blanks(month, year) + 1;
        if 1 <= day <= month_length(year as int, month as int) {
            assert(is_calendar_date(year as int, month as int, day));
        }
    }
}

} // verus!
