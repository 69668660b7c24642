//! The keyboards under the studio's messages: rows of buttons, each with a
//! label and with what pressing it does.

use crate::actions::{Action, BookingList};
use crate::availability::Slot;
use crate::calendar::TimeOfDay;
use crate::models::{Booking, BookingStatus, PhotographerService, Service};
use vstd::prelude::*;
use vstd::string::*;

verus! {

/// What a button shows. The transport turns a label into text.
#[derive(Clone, Copy, Debug, PartialEq, Eq, Structural)]
pub enum Label {
    /// An empty cell.
    Blank,
    /// The title of a calendar month.
    MonthTitle { month: u32, year: i32 },
    /// A weekday, from Monday = 0.
    Weekday(u32),
    /// A day on which the photographer works.
    Day(u32),
    /// A day on which the photographer does not work.
    ClosedDay(u32),
    /// A day that has passed.
    PastDay(u32),
    PreviousMonth,
    NextMonth,
    BackToPhotographers,
    BackToServices,
    BackToCalendar,
    /// A time slot.
    Slot(Slot),
    /// A service by its number.
    Service(i32),
    /// A photographer by number.
    Photographer(i32),
    /// The choice of any photographer.
    AnyPhotographer,
    /// More about the photographer of the row.
    MoreInfo,
    /// The number of a booking.
    BookingNumber(i32),
    /// A link to the chat with the client of the row.
    Contact,
    Confirm,
    Cancel,
    Complete,
    PreviousPage,
    NextPage,
    /// The page shown and the number of pages.
    PageIndicator { page: u32, pages: u32 },
    /// Working hours offered for a day.
    Hours { start_hour: i32, end_hour: i32 },
    /// The photographer types the hours in.
    OwnHours,
    /// A list of bookings.
    Bookings(BookingList),
    /// Consent to the studio's rules.
    Agree,
    /// Consent is to be revoked.
    Revoke,
    /// Consent stays.
    KeepConsent,
    /// The service shown is chosen.
    ChooseService,
}

/// Where a button leads.
#[derive(Clone, Copy, Debug, PartialEq, Eq, Structural)]
pub enum Target {
    /// Pressing the button sends the action's token back.
    Press(Action),
    /// The button opens the chat with this client.
    Chat { client_id: i32 },
}

/// A button.
#[derive(Clone, Copy, Debug, PartialEq, Eq, Structural)]
pub struct Button {
    pub label: Label,
    pub target: Target,
}

/// A button that sends an action.
pub open spec fn press(label: Label, action: Action) -> Button {
    Button { label, target: Target::Press(action) }
}

/// A button that does nothing.
pub open spec fn idle(label: Label) -> Button {
    Button { label, target: Target::Press(Action::Ignore) }
}

/// The rows of a keyboard as sequences.
pub open spec fn grid(keyboard: Seq<Vec<Button>>) -> Seq<Seq<Button>> {
    Seq::new(keyboard.len(), |i: int| keyboard[i]@)
}

/// Adding a row to a keyboard adds it to the grid.
pub proof fn lemma_grid_push(keyboard: Seq<Vec<Button>>, row: Vec<Button>)
    ensures
        grid(keyboard.push(row)) == grid(keyboard).push(row@),
{
    assert(grid(keyboard.push(row)) =~= grid(keyboard).push(row@));
}

/// A button that sends an action.
pub fn button(label: Label, action: Action) -> (made: Button)
    ensures
        made == press(label, action),
{
    Button { label, target: Target::Press(action) }
}

/// A row of one button.
pub fn single_row(made: Button) -> (row: Vec<Button>)
    ensures
        row@ == seq![made],
{
    let mut row: Vec<Button> = Vec::new();
    row.push(made);
    row
}

/// How many bookings a page shows.
pub const PAGE_SIZE: u32 = 3;

/// The number of pages that `items` items fill.
pub open spec fn page_count(items: int) -> int {
    (items + 2) / 3
}

/// The position of the first item of a page.
pub open spec fn page_first(page: int) -> int {
    3 * page
}

/// The position after the last item of a page.
pub open spec fn page_last(items: int, page: int) -> int {
    if 3 * page + 3 <= items {
        3 * page + 3
    } else {
        items
    }
}

/// The pages of a list have three items each, but for the last, which has
/// the rest, at least one; together they hold every item once.
pub proof fn lemma_page_sizes(items: int, page: int)
    requires
        0 <= page < page_count(items),
        0 <= items,
    ensures
        0 <= page_first(page) < page_last(items, page) <= items,
        page < page_count(items) - 1 ==> page_last(items, page) - page_first(page) == 3,
        page == page_count(items) - 1 ==> page_last(items, page) == items && 1 <= items - page_first(
            page,
        ) <= 3,
        page + 1 < page_count(items) ==> page_first(page + 1) == page_last(items, page),
        page_first(0) == 0,
{
}

/// The positions of the items of a page, first and after last. `None`
/// where the list has no such page.
pub fn page_bounds(items: usize, page: u32) -> (bounds: Option<(usize, usize)>)
    ensures
        bounds == if page < page_count(items as int) {
            Some((page_first(page as int) as usize, page_last(items as int, page as int) as usize))
        } else {
            None
        },
{
    let first: u64 = 3 * (page as u64);
    if first >= items as u64 {
        return None;
    }
    let first: usize = first as usize;
    let last: usize = if items - first >= 3 {
        first + 3
    } else {
        items
    };
    Some((first, last))
}

/// The number of pages that `items` items fill.
pub fn count_pages(items: usize) -> (pages: usize)
    ensures
        pages == page_count(items as int),
{
    items / 3 + if items % 3 == 0 {
        0
    } else {
        1
    }
}

/// Which list the pages of a navigation row belong to.
#[derive(Clone, Copy, Debug, PartialEq, Eq, Structural)]
pub enum Paged {
    /// A list of a photographer's bookings.
    Photographer(BookingList),
    /// The client's own bookings.
    Client,
}

/// The action that opens a page of a list.
pub open spec fn page_action(list: Paged, page: u32) -> Action {
    match list {
        Paged::Photographer(list) => Action::BookingsPage(list, page),
        Paged::Client => Action::ClientBookings(page),
    }
}

/// The row under a page: a step back unless the page is the first, the
/// page shown among all, a step on unless the page is the last.
pub open spec fn navigation_row(list: Paged, page: u32, pages: u32) -> Seq<Button> {
    let back = if page > 0 {
        seq![press(Label::PreviousPage, page_action(list, (page - 1) as u32))]
    } else {
        Seq::empty()
    };
    let on = if page + 1 < pages {
        seq![press(Label::NextPage, page_action(list, (page + 1) as u32))]
    } else {
        Seq::empty()
    };
    back + seq![idle(Label::PageIndicator { page: (page + 1) as u32, pages })] + on
}

/// The action that opens a page of a list.
fn turn_page(list: Paged, page: u32) -> (action: Action)
    ensures
        action == page_action(list, page),
{
    match list {
        Paged::Photographer(list) => Action::BookingsPage(list, page),
        Paged::Client => Action::ClientBookings(page),
    }
}

/// The row under a page.
pub fn navigation(list: Paged, page: u32, pages: u32) -> (row: Vec<Button>)
    requires
        page < pages,
    ensures
        row@ == navigation_row(list, page, pages),
{
    let mut row: Vec<Button> = Vec::new();
    if page > 0 {
        row.push(button(Label::PreviousPage, turn_page(list, page - 1)));
    }
    row.push(button(Label::PageIndicator { page: page + 1, pages }, Action::Ignore));
    if page + 1 < pages {
        row.push(button(Label::NextPage, turn_page(list, page + 1)));
    }
    assert(row@ =~= navigation_row(list, page, pages));
    row
}

/// The buttons of one booking in a list of a photographer's bookings: its
/// number, the answers that its status allows in that list, and a link to
/// the client where there is one.
pub open spec fn booking_row(booking: Booking, list: BookingList, linked: bool) -> Seq<Button> {
    let number = seq![idle(Label::BookingNumber(booking.id))];
    let contact = if linked {
        seq![Button { label: Label::Contact, target: Target::Chat { client_id: booking.client_id } }]
    } else {
        Seq::empty()
    };
    let reject = press(Label::Cancel, Action::RejectBooking(booking.id));
    match list {
        BookingList::New => number + (if booking.status == BookingStatus::New {
            seq![press(Label::Confirm, Action::ConfirmBooking(booking.id)), reject]
        } else {
            Seq::empty()
        }) + contact,
        BookingList::Upcoming => number + contact + (if booking.status == BookingStatus::Confirmed {
            seq![press(Label::Complete, Action::CompleteBooking(booking.id)), reject]
        } else {
            Seq::empty()
        }),
        BookingList::All => number + contact,
    }
}

/// The buttons of one booking in a list of a photographer's bookings.
pub fn booking_buttons(booking: &Booking, list: BookingList, linked: bool) -> (row: Vec<Button>)
    ensures
        row@ == booking_row(*booking, list, linked),
{
    let mut row: Vec<Button> = Vec::new();
    row.push(button(Label::BookingNumber(booking.id), Action::Ignore));
    let contact = Button { label: Label::Contact, target: Target::Chat { client_id: booking.client_id } };
    let reject = button(Label::Cancel, Action::RejectBooking(booking.id));
    match list {
        BookingList::New => {
            if booking.status == BookingStatus::New {
                row.push(button(Label::Confirm, Action::ConfirmBooking(booking.id)));
                row.push(reject);
            }
            if linked {
                row.push(contact);
            }
        },
        BookingList::Upcoming => {
            if linked {
                row.push(contact);
            }
            if booking.status == BookingStatus::Confirmed {
                row.push(button(Label::Complete, Action::CompleteBooking(booking.id)));
                row.push(reject);
            }
        },
        BookingList::All => {
            if linked {
                row.push(contact);
            }
        },
    }
    assert(row@ =~= booking_row(*booking, list, linked));
    row
}

/// Whether the client may still call the booking off.
pub open spec fn is_open(booking: Booking) -> bool {
    booking.status == BookingStatus::New || booking.status == BookingStatus::Confirmed
}

/// The rows of the bookings from position `from` to `until` in a client's
/// list: one for each booking that may still be called off.
pub open spec fn client_rows(bookings: Seq<Booking>, from: int, until: int) -> Seq<Seq<Button>>
    decreases until - from,
{
    if from >= until {
        Seq::empty()
    } else {
        let rest = client_rows(bookings, from, until - 1);
        let booking = bookings[until - 1];
        if is_open(booking) {
            rest.push(
                seq![
                    idle(Label::BookingNumber(booking.id)),
                    press(Label::Cancel, Action::ClientRejectBooking(booking.id)),
                ],
            )
        } else {
            rest
        }
    }
}

/// A page of a list: the positions of the bookings it shows, first and
/// after last, and the keyboard under it.
pub struct Page {
    pub first: usize,
    pub last: usize,
    pub keyboard: Vec<Vec<Button>>,
}

/// A page of a client's bookings: a row for each booking of the page that
/// may still be called off, and the navigation. `None` where the list has
/// no such page.
pub fn show_client_bookings(bookings: &Vec<Booking>, page: u32) -> (shown: Option<Page>)
    requires
        bookings.len() <= u32::MAX,
    ensures
        match shown {
            Some(shown) => {
                &&& page < page_count(bookings.len() as int)
                &&& shown.first == page_first(page as int)
                &&& shown.last == page_last(bookings.len() as int, page as int)
                &&& grid(shown.keyboard@) == client_rows(
                    bookings@,
                    shown.first as int,
                    shown.last as int,
                ).push(navigation_row(Paged::Client, page, page_count(bookings.len() as int) as u32))
            },
            None => page >= page_count(bookings.len() as int),
        },
{
    match page_bounds(bookings.len(), page) {
        None => None,
        Some((first, last)) => {
            let mut keyboard: Vec<Vec<Button>> = Vec::new();
            let mut i: usize = first;
            proof {
                lemma_page_sizes(bookings.len() as int, page as int);
                assert(grid(keyboard@) =~= client_rows(bookings@, first as int, first as int));
            }
            while i < last
                invariant
                    first <= i <= last <= bookings.len(),
                    grid(keyboard@) == client_rows(bookings@, first as int, i as int),
                decreases last - i,
            {
                let booking = &bookings[i];
                if booking.status == BookingStatus::New || booking.status == BookingStatus::Confirmed {
                    let mut row: Vec<Button> = Vec::new();
                    row.push(button(Label::BookingNumber(booking.id), Action::Ignore));
                    row.push(button(Label::Cancel, Action::ClientRejectBooking(booking.id)));
                    proof {
                        lemma_grid_push(keyboard@, row);
                        assert(row@ =~= seq![
                            idle(Label::BookingNumber(booking.id)),
                            press(Label::Cancel, Action::ClientRejectBooking(booking.id)),
                        ]);
                    }
                    keyboard.push(row);
                }
                i += 1;
            }
            let pages = count_pages(bookings.len()) as u32;
            let row = navigation(Paged::Client, page, pages);
            proof {
                lemma_grid_push(keyboard@, row);
            }
            keyboard.push(row);
            Some(Page { first, last, keyboard })
        },
    }
}

/// The rows of the bookings from position `from` to `until` in a list of a
/// photographer's bookings; `linked` says for each booking of the list
/// whether its client can be linked to.
pub open spec fn photographer_rows(
    bookings: Seq<Booking>,
    linked: Seq<bool>,
    list: BookingList,
    from: int,
    until: int,
) -> Seq<Seq<Button>> {
    Seq::new((until - from) as nat, |i: int| booking_row(bookings[from + i], list, linked[from + i]))
}

/// A page of a list of a photographer's bookings: a row for each booking
/// of the page and the navigation. `None` where the list has no such page.
pub fn show_bookings_page(bookings: &Vec<Booking>, linked: &Vec<bool>, list: BookingList, page: u32) -> (shown:
    Option<Page>)
    requires
        bookings.len() <= u32::MAX,
        linked.len() == bookings.len(),
    ensures
        match shown {
            Some(shown) => {
                &&& page < page_count(bookings.len() as int)
                &&& shown.first == page_first(page as int)
                &&& shown.last == page_last(bookings.len() as int, page as int)
                &&& grid(shown.keyboard@) == photographer_rows(
                    bookings@,
                    linked@,
                    list,
                    shown.first as int,
                    shown.last as int,
                ).push(
                    navigation_row(
                        Paged::Photographer(list),
                        page,
                        page_count(bookings.len() as int) as u32,
                    ),
                )
            },
            None => page >= page_count(bookings.len() as int),
        },
{
    match page_bounds(bookings.len(), page) {
        None => None,
        Some((first, last)) => {
            let mut keyboard: Vec<Vec<Button>> = Vec::new();
            let mut i: usize = first;
            proof {
                lemma_page_sizes(bookings.len() as int, page as int);
                assert(grid(keyboard@) =~= photographer_rows(
                    bookings@,
                    linked@,
                    list,
                    first as int,
                    first as int,
                ));
            }
            while i < last
                invariant
                    first <= i <= last <= bookings.len(),
                    linked.len() == bookings.len(),
                    grid(keyboard@) == photographer_rows(bookings@, linked@, list, first as int, i as int),
                decreases last - i,
            {
                let row = booking_buttons(&bookings[i], list, linked[i]);
                proof {
                    lemma_grid_push(keyboard@, row);
                    assert(photographer_rows(bookings@, linked@, list, first as int, i + 1)
                        =~= photographer_rows(bookings@, linked@, list, first as int, i as int).push(
                        row@,
                    ));
                }
                keyboard.push(row);
                i += 1;
            }
            let pages = count_pages(bookings.len()) as u32;
            let row = navigation(Paged::Photographer(list), page, pages);
            proof {
                lemma_grid_push(keyboard@, row);
            }
            keyboard.push(row);
            Some(Page { first, last, keyboard })
        },
    }
}

/// The action of the button of a time slot: the choice of the slot where
/// its hours are hours of the day, nothing where they are not.
pub open spec fn slot_action(slot: Slot) -> Action {
    if 0 <= slot.start_hour <= 24 && 0 <= slot.end_hour <= 24 {
        Action::Time {
            start: TimeOfDay { hour: slot.start_hour as u32, minute: 0 },
            end: TimeOfDay { hour: slot.end_hour as u32, minute: 0 },
        }
    } else {
        Action::Ignore
    }
}

/// The button of a time slot.
pub open spec fn slot_button(slot: Slot) -> Button {
    press(Label::Slot(slot), slot_action(slot))
}

/// The keyboard of time slots: two slots to a row, a last row of one where
/// their number is odd, and the way back to the calendar.
pub open spec fn slot_rows(slots: Seq<Slot>) -> Seq<Seq<Button>> {
    Seq::new(
        ((slots.len() + 1) / 2) as nat,
        |r: int|
            if 2 * r + 1 < slots.len() {
                seq![slot_button(slots[2 * r]), slot_button(slots[2 * r + 1])]
            } else {
                seq![slot_button(slots[2 * r])]
            },
    ).push(seq![press(Label::BackToCalendar, Action::BackToCalendar)])
}

/// The button of a time slot.
fn slot_key(slot: Slot) -> (made: Button)
    ensures
        made == slot_button(slot),
{
    let action = if 0 <= slot.start_hour && slot.start_hour <= 24 && 0 <= slot.end_hour && slot.end_hour
        <= 24 {
        Action::Time {
            start: TimeOfDay { hour: slot.start_hour as u32, minute: 0 },
            end: TimeOfDay { hour: slot.end_hour as u32, minute: 0 },
        }
    } else {
        Action::Ignore
    };
    button(Label::Slot(slot), action)
}

/// The keyboard of time slots.
pub fn show_time_slots(slots: &Vec<Slot>) -> (keyboard: Vec<Vec<Button>>)
    ensures
        grid(keyboard@) == slot_rows(slots@),
{
    let mut keyboard: Vec<Vec<Button>> = Vec::new();
    let rows: usize = slots.len() / 2 + slots.len() % 2;
    let mut r: usize = 0;
    while r < rows
        invariant
            rows == (slots.len() + 1) / 2,
            r <= rows,
            keyboard@.len() == r,
            forall|k: int|
                0 <= k < keyboard@.len() ==> (#[trigger] keyboard@[k])@ == if 2 * k + 1 < slots.len() {
                    seq![slot_button(slots@[2 * k]), slot_button(slots@[2 * k + 1])]
                } else {
                    seq![slot_button(slots@[2 * k])]
                },
        decreases rows - r,
    {
        let i: usize = 2 * r;
        let mut row: Vec<Button> = Vec::new();
        row.push(slot_key(slots[i]));
        if i + 1 < slots.len() {
            row.push(slot_key(slots[i + 1]));
        }
        keyboard.push(row);
        r += 1;
    }
    let back = single_row(button(Label::BackToCalendar, Action::BackToCalendar));
    keyboard.push(back);
    assert(grid(keyboard@) =~= slot_rows(slots@));
    keyboard
}

/// The keyboard of services: one row for each service, which opens what is known about it.
pub fn show_services(services: &Vec<Service>) -> (keyboard: Vec<Vec<Button>>)
    ensures
        grid(keyboard@) == Seq::new(
            services@.len(),
            |i: int| seq![press(Label::Service(services@[i].id), Action::ServiceInfo(services@[i].id))],
        ),
{
    let mut keyboard: Vec<Vec<Button>> = Vec::new();
    let mut i: usize = 0;
    while i < services.len()
        invariant
            i <= services.len(),
            keyboard@.len() == i,
            forall|r: int|
                0 <= r < i ==> (#[trigger] keyboard@[r])@ == seq![
                    press(Label::Service(services@[r].id), Action::ServiceInfo(services@[r].id)),
                ],
        decreases services.len() - i,
    {
        let id = services[i].id;
        keyboard.push(single_row(button(Label::Service(id), Action::ServiceInfo(id))));
        i += 1;
    }
    assert(grid(keyboard@) =~= Seq::new(
        services@.len(),
        |i: int| seq![press(Label::Service(services@[i].id), Action::ServiceInfo(services@[i].id))],
    ));
    keyboard
}

/// The rows of the photographers among the first `until` offers who offer the service.
pub open spec fn photographer_choices(offers: Seq<PhotographerService>, service_id: i32, until: int) -> Seq<
    Seq<Button>,
>
    decreases until,
{
    if until <= 0 {
        Seq::empty()
    } else {
        let rest = photographer_choices(offers, service_id, until - 1);
        let offer = offers[until - 1];
        if offer.service_id == service_id {
            rest.push(
                seq![
                    press(
                        Label::Photographer(offer.photographer_id),
                        Action::Photographer(offer.photographer_id),
                    ),
                    press(Label::MoreInfo, Action::PhotographerInfo(offer.photographer_id)),
                ],
            )
        } else {
            rest
        }
    }
}

/// The keyboard of the photographers who offer the service: the choice of
/// any photographer, a row for each of them, and the way back to the
/// services. `None` where nobody offers the service.
pub fn show_photographers_for_service(offers: &Vec<PhotographerService>, service_id: i32) -> (keyboard:
    Option<Vec<Vec<Button>>>)
    ensures
        match keyboard {
            Some(keyboard) => photographer_choices(offers@, service_id, offers@.len() as int).len() > 0
                && grid(keyboard@) == seq![
                seq![press(Label::AnyPhotographer, Action::AnyPhotographer)],
            ] + photographer_choices(offers@, service_id, offers@.len() as int) + seq![
                seq![press(Label::BackToServices, Action::BackToServices)],
            ],
            None => photographer_choices(offers@, service_id, offers@.len() as int).len() == 0,
        },
{
    let mut keyboard: Vec<Vec<Button>> = Vec::new();
    let any = single_row(button(Label::AnyPhotographer, Action::AnyPhotographer));
    keyboard.push(any);
    let mut i: usize = 0;
    proof {
        assert(grid(keyboard@) =~= seq![seq![press(Label::AnyPhotographer, Action::AnyPhotographer)]]
            + photographer_choices(offers@, service_id, 0));
    }
    while i < offers.len()
        invariant
            i <= offers.len(),
            grid(keyboard@) == seq![seq![press(Label::AnyPhotographer, Action::AnyPhotographer)]]
                + photographer_choices(offers@, service_id, i as int),
        decreases offers.len() - i,
    {
        let offer = offers[i];
        if offer.service_id == service_id {
            let mut row: Vec<Button> = Vec::new();
            row.push(
                button(Label::Photographer(offer.photographer_id), Action::Photographer(offer.photographer_id)),
            );
            row.push(button(Label::MoreInfo, Action::PhotographerInfo(offer.photographer_id)));
            proof {
                lemma_grid_push(keyboard@, row);
                assert(row@ =~= seq![
                    press(
                        Label::Photographer(offer.photographer_id),
                        Action::Photographer(offer.photographer_id),
                    ),
                    press(Label::MoreInfo, Action::PhotographerInfo(offer.photographer_id)),
                ]);
                let head = seq![seq![press(Label::AnyPhotographer, Action::AnyPhotographer)]];
                let rest = photographer_choices(offers@, service_id, i as int);
                assert((head + rest).push(row@) =~= head + rest.push(row@));
            }
            keyboard.push(row);
        }
        i += 1;
    }
    if keyboard.len() == 1 {
        return None;
    }
    let back = single_row(button(Label::BackToServices, Action::BackToServices));
    proof {
        lemma_grid_push(keyboard@, back);
        let head = seq![seq![press(Label::AnyPhotographer, Action::AnyPhotographer)]];
        let rest = photographer_choices(offers@, service_id, offers@.len() as int);
        assert((head + rest).push(back@) =~= head + rest + seq![back@]);
    }
    keyboard.push(back);
    Some(keyboard)
}

/// The keyboard of working hours for a day: three usual windows and the
/// choice to type one's own.
pub fn add_working_day() -> (keyboard: Vec<Vec<Button>>)
    ensures
        grid(keyboard@) == seq![
            seq![
                press(
                    Label::Hours { start_hour: 8, end_hour: 20 },
                    Action::WorkingHours { start_hour: 8, end_hour: 20 },
                ),
            ],
            seq![
                press(
                    Label::Hours { start_hour: 9, end_hour: 19 },
                    Action::WorkingHours { start_hour: 9, end_hour: 19 },
                ),
            ],
            seq![
                press(
                    Label::Hours { start_hour: 10, end_hour: 18 },
                    Action::WorkingHours { start_hour: 10, end_hour: 18 },
                ),
            ],
            seq![press(Label::OwnHours, Action::CustomHours)],
        ],
{
    let mut keyboard: Vec<Vec<Button>> = Vec::new();
    keyboard.push(
        single_row(
            button(
                Label::Hours { start_hour: 8, end_hour: 20 },
                Action::WorkingHours { start_hour: 8, end_hour: 20 },
            ),
        ),
    );
    keyboard.push(
        single_row(
            button(
                Label::Hours { start_hour: 9, end_hour: 19 },
                Action::WorkingHours { start_hour: 9, end_hour: 19 },
            ),
        ),
    );
    keyboard.push(
        single_row(
            button(
                Label::Hours { start_hour: 10, end_hour: 18 },
                Action::WorkingHours { start_hour: 10, end_hour: 18 },
            ),
        ),
    );
    keyboard.push(single_row(button(Label::OwnHours, Action::CustomHours)));
    assert(grid(keyboard@) =~= seq![
        seq![
            press(
                Label::Hours { start_hour: 8, end_hour: 20 },
                Action::WorkingHours { start_hour: 8, end_hour: 20 },
            ),
        ],
        seq![
            press(
                Label::Hours { start_hour: 9, end_hour: 19 },
                Action::WorkingHours { start_hour: 9, end_hour: 19 },
            ),
        ],
        seq![
            press(
                Label::Hours { start_hour: 10, end_hour: 18 },
                Action::WorkingHours { start_hour: 10, end_hour: 18 },
            ),
        ],
        seq![press(Label::OwnHours, Action::CustomHours)],
    ]);
    keyboard
}

/// The keyboard of the lists of bookings that a photographer can open.
pub fn show_photographer_bookings() -> (keyboard: Vec<Vec<Button>>)
    ensures
        grid(keyboard@) == seq![
            seq![press(Label::Bookings(BookingList::New), Action::Bookings(BookingList::New))],
            seq![press(Label::Bookings(BookingList::Upcoming), Action::Bookings(BookingList::Upcoming))],
            seq![press(Label::Bookings(BookingList::All), Action::Bookings(BookingList::All))],
        ],
{
    let mut keyboard: Vec<Vec<Button>> = Vec::new();
    keyboard.push(single_row(button(Label::Bookings(BookingList::New), Action::Bookings(BookingList::New))));
    keyboard.push(
        single_row(button(Label::Bookings(BookingList::Upcoming), Action::Bookings(BookingList::Upcoming))),
    );
    keyboard.push(single_row(button(Label::Bookings(BookingList::All), Action::Bookings(BookingList::All))));
    assert(grid(keyboard@) =~= seq![
        seq![press(Label::Bookings(BookingList::New), Action::Bookings(BookingList::New))],
        seq![press(Label::Bookings(BookingList::Upcoming), Action::Bookings(BookingList::Upcoming))],
        seq![press(Label::Bookings(BookingList::All), Action::Bookings(BookingList::All))],
    ]);
    keyboard
}

/// The keyboard under the studio's rules: the one button that gives consent.
pub fn consent_keyboard() -> (keyboard: Vec<Vec<Button>>)
    ensures
        grid(keyboard@) == seq![seq![press(Label::Agree, Action::Agree)]],
{
    let mut keyboard: Vec<Vec<Button>> = Vec::new();
    keyboard.push(single_row(button(Label::Agree, Action::Agree)));
    assert(grid(keyboard@) =~= seq![seq![press(Label::Agree, Action::Agree)]]);
    keyboard
}

/// The keyboard under the question whether consent is to be revoked.
pub fn revocation_keyboard() -> (keyboard: Vec<Vec<Button>>)
    ensures
        grid(keyboard@) == seq![
            seq![press(Label::Revoke, Action::RevokeConsent(true))],
            seq![press(Label::KeepConsent, Action::RevokeConsent(false))],
        ],
{
    let mut keyboard: Vec<Vec<Button>> = Vec::new();
    keyboard.push(single_row(button(Label::Revoke, Action::RevokeConsent(true))));
    keyboard.push(single_row(button(Label::KeepConsent, Action::RevokeConsent(false))));
    assert(grid(keyboard@) =~= seq![
        seq![press(Label::Revoke, Action::RevokeConsent(true))],
        seq![press(Label::KeepConsent, Action::RevokeConsent(false))],
    ]);
    keyboard
}

/// The keyboard under what is known about a service: choose it, or go back to the services.
pub fn service_info_keyboard(service_id: i32) -> (keyboard: Vec<Vec<Button>>)
    ensures
        grid(keyboard@) == seq![
            seq![press(Label::ChooseService, Action::Service(service_id))],
            seq![press(Label::BackToServices, Action::BackToServices)],
        ],
{
    let mut keyboard: Vec<Vec<Button>> = Vec::new();
    keyboard.push(single_row(button(Label::ChooseService, Action::Service(service_id))));
    keyboard.push(single_row(button(Label::BackToServices, Action::BackToServices)));
    assert(grid(keyboard@) =~= seq![
        seq![press(Label::ChooseService, Action::Service(service_id))],
        seq![press(Label::BackToServices, Action::BackToServices)],
    ]);
    keyboard
}

/// The keyboard under what is known about a photographer: the way back to the photographers.
pub fn photographer_info_keyboard() -> (keyboard: Vec<Vec<Button>>)
    ensures
        grid(keyboard@) == seq![seq![press(Label::BackToPhotographers, Action::BackToPhotographers)]],
{
    let mut keyboard: Vec<Vec<Button>> = Vec::new();
    keyboard.push(single_row(button(Label::BackToPhotographers, Action::BackToPhotographers)));
    assert(grid(keyboard@) =~= seq![
        seq![press(Label::BackToPhotographers, Action::BackToPhotographers)],
    ]);
    keyboard
}

/// Whether pressing the button sends a token: its action has one.
pub open spec fn has_token(button: Button) -> bool {
    match button.target {
        Target::Press(action) => action.encodable(),
        Target::Chat { .. } => true,
    }
}

/// The button of every time slot has a token.
pub proof fn lemma_slot_button_has_token(slot: Slot)
    ensures
        has_token(slot_button(slot)),
{
}

} // verus!
