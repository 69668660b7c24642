//! The booking ledger: it owns the bookings, refuses one that would overlap
//! another of the same photographer, and moves each along its status.

use crate::calendar::{Date, TimeOfDay};
use crate::models::{overlaps, Booking, BookingStatus};
use vstd::prelude::*;

verus! {

/// Why a booking was not made.
#[derive(Clone, Copy, Debug, PartialEq, Eq, Structural)]
pub enum BookingError {
    /// The times are no times of day, or the booking would not end after it begins.
    InvalidInterval,
    /// A live booking of the same photographer overlaps the requested time.
    SlotTaken,
    /// The ledger has run out of booking numbers.
    LedgerFull,
}

/// What became of a request to move a booking to another status.
#[derive(Clone, Copy, Debug, PartialEq, Eq, Structural)]
pub enum Transition {
    /// The booking moved to the requested status.
    Applied,
    /// The booking was in the requested status already.
    Repeated,
    /// The move is not allowed from the booking's status; nothing changed.
    Refused,
    /// There is no booking of that number; nothing changed.
    Missing,
}

/// The bookings of the studio, in the order in which they were made.
pub struct Ledger {
    bookings: Vec<Booking>,
}

/// Whether `start` and `end` are times of day with `start` before `end`.
pub open spec fn is_interval(start: TimeOfDay, end: TimeOfDay) -> bool {
    start.is_valid() && end.is_valid() && start.minutes() < end.minutes()
}

/// Whether a live booking of the photographer on that date overlaps the
/// time from `start` to `end`.
pub open spec fn is_taken(
    bookings: Seq<Booking>,
    photographer_id: i32,
    date: Date,
    start: TimeOfDay,
    end: TimeOfDay,
) -> bool {
    exists|i: int|
        0 <= i < bookings.len() && (#[trigger] bookings[i]).blocks(
            photographer_id,
            date,
            start.minutes(),
            end.minutes(),
        )
}

/// Why the ledger with these bookings refuses the requested booking, `None` where it accepts it.
pub open spec fn refusal(
    bookings: Seq<Booking>,
    photographer_id: i32,
    date: Date,
    start: TimeOfDay,
    end: TimeOfDay,
) -> Option<BookingError> {
    if !is_interval(start, end) {
        Some(BookingError::InvalidInterval)
    } else if is_taken(bookings, photographer_id, date, start, end) {
        Some(BookingError::SlotTaken)
    } else if bookings.len() >= i32::MAX {
        Some(BookingError::LedgerFull)
    } else {
        None
    }
}

/// What a request to move a booking of the given status to `target` comes to.
pub open spec fn judge(from: BookingStatus, target: BookingStatus) -> Transition {
    if from.permits(target) {
        Transition::Applied
    } else if from == target {
        Transition::Repeated
    } else {
        Transition::Refused
    }
}

/// The bookings after a request to move booking `id` to `target`.
pub open spec fn after_transition(bookings: Seq<Booking>, id: i32, target: BookingStatus) -> Seq<
    Booking,
> {
    if 1 <= id <= bookings.len() && bookings[id - 1].status.permits(target) {
        bookings.update(id - 1, Booking { status: target, ..bookings[id - 1] })
    } else {
        bookings
    }
}

/// Whether the bookings are numbered from 1 in their order, each is a
/// proper interval, and no two live bookings of one photographer overlap.
pub open spec fn consistent(bookings: Seq<Booking>) -> bool {
    &&& bookings.len() <= i32::MAX
    &&& forall|i: int|
        0 <= i < bookings.len() ==> (#[trigger] bookings[i]).id == i + 1 && is_interval(
            bookings[i].booking_start,
            bookings[i].booking_end,
        )
    &&& forall|i: int, j: int|
        0 <= i < bookings.len() && 0 <= j < bookings.len() && i != j ==> !(#[trigger] bookings[i]).blocks(
            (#[trigger] bookings[j]).photographer_id,
            bookings[j].date,
            bookings[j].booking_start.minutes(),
            bookings[j].booking_end.minutes(),
        ) || !bookings[j].is_live()
}

impl View for Ledger {
    type V = Seq<Booking>;

    closed spec fn view(&self) -> Seq<Booking> {
        self.bookings@
    }
}

impl Ledger {
    /// The invariant of the ledger.
    pub open spec fn well_formed(&self) -> bool {
        consistent(self@)
    }

    /// A ledger without bookings.
    pub fn new() -> (ledger: Ledger)
        ensures
            ledger@ == Seq::<Booking>::empty(),
            ledger.well_formed(),
    {
        Ledger { bookings: Vec::new() }
    }

    /// A ledger with the given bookings, as they were written down before.
    /// `None` unless they are numbered from 1 in their order, each is a
    /// proper interval, and no two live bookings of one photographer overlap.
    pub fn restore(bookings: Vec<Booking>) -> (ledger: Option<Ledger>)
        ensures
            match ledger {
                Some(ledger) => ledger@ == bookings@ && ledger.well_formed(),
                None => !consistent(bookings@),
            },
    {
        if bookings.len() > i32::MAX as usize {
            return None;
        }
        let mut i: usize = 0;
        while i < bookings.len()
            invariant
                i <= bookings.len() <= i32::MAX,
                forall|k: int|
                    0 <= k < i ==> (#[trigger] bookings@[k]).id == k + 1 && is_interval(
                        bookings@[k].booking_start,
                        bookings@[k].booking_end,
                    ),
                forall|a: int, b: int|
                    0 <= a < i && 0 <= b < a ==> !((#[trigger] bookings@[a]).is_live() && (
                    #[trigger] bookings@[b]).blocks(
                        bookings@[a].photographer_id,
                        bookings@[a].date,
                        bookings@[a].booking_start.minutes(),
                        bookings@[a].booking_end.minutes(),
                    )),
            decreases bookings.len() - i,
        {
            let booking = bookings[i];
            if booking.id as i64 != i as i64 + 1 || !booking.booking_start.check()
                || !booking.booking_end.check() || booking.booking_start.minute_of_day()
                >= booking.booking_end.minute_of_day() {
                return None;
            }
            if booking.status != BookingStatus::Cancelled {
                let from: i128 = booking.booking_start.minute_of_day() as i128;
                let until: i128 = booking.booking_end.minute_of_day() as i128;
                let mut j: usize = 0;
                while j < i
                    invariant
                        j <= i < bookings.len(),
                        booking == bookings@[i as int],
                        booking.is_live(),
                        from == booking.booking_start.minutes(),
                        until == booking.booking_end.minutes(),
                        forall|b: int|
                            0 <= b < j ==> !(#[trigger] bookings@[b]).blocks(
                                booking.photographer_id,
                                booking.date,
                                from as int,
                                until as int,
                            ),
                    decreases i - j,
                {
                    if bookings[j].check_blocks(booking.photographer_id, booking.date, from, until) {
                        proof {
                            assert(bookings@[j as int].blocks(
                                bookings@[i as int].photographer_id,
                                bookings@[i as int].date,
                                bookings@[i as int].booking_start.minutes(),
                                bookings@[i as int].booking_end.minutes(),
                            ));
                        }
                        return None;
                    }
                    j += 1;
                }
            }
            i += 1;
        }
        proof {
            let all = bookings@;
            assert forall|a: int, b: int|
                0 <= a < all.len() && 0 <= b < all.len() && a != b implies !(#[trigger] all[a]).blocks(
                (#[trigger] all[b]).photographer_id,
                all[b].date,
                all[b].booking_start.minutes(),
                all[b].booking_end.minutes(),
            ) || !all[b].is_live() by {
                if a < b {
                    assert(!(all[b].is_live() && all[a].blocks(
                        all[b].photographer_id,
                        all[b].date,
                        all[b].booking_start.minutes(),
                        all[b].booking_end.minutes(),
                    )));
                } else {
                    assert(!(all[a].is_live() && all[b].blocks(
                        all[a].photographer_id,
                        all[a].date,
                        all[a].booking_start.minutes(),
                        all[a].booking_end.minutes(),
                    )));
                }
            }
        }
        Some(Ledger { bookings })
    }

    /// All bookings, in the order in which they were made.
    pub fn bookings(&self) -> (all: &Vec<Booking>)
        ensures
            all@ == self@,
    {
        &self.bookings
    }

    /// The booking of the given number.
    pub fn find(&self, id: i32) -> (found: Option<Booking>)
        ensures
            found == if 1 <= id <= self@.len() {
                Some(self@[id - 1])
            } else {
                None
            },
    {
        if id >= 1 && (id as usize) <= self.bookings.len() {
            Some(self.bookings[(id - 1) as usize])
        } else {
            None
        }
    }

    /// Whether a live booking of the photographer on that date overlaps the
    /// time from `start` to `end`.
    pub fn check_taken(&self, photographer_id: i32, date: Date, start: TimeOfDay, end: TimeOfDay) -> (taken:
        bool)
        ensures
            taken == is_taken(self@, photographer_id, date, start, end),
    {
        let from: i128 = start.minute_of_day() as i128;
        let until: i128 = end.minute_of_day() as i128;
        let mut i: usize = 0;
        while i < self.bookings.len()
            invariant
                i <= self.bookings.len(),
                from == start.minutes(),
                until == end.minutes(),
                forall|k: int|
                    0 <= k < i ==> !(#[trigger] self.bookings@[k]).blocks(
                        photographer_id,
                        date,
                        from as int,
                        until as int,
                    ),
            decreases self.bookings.len() - i,
        {
            if self.bookings[i].check_blocks(photographer_id, date, from, until) {
                return true;
            }
            i += 1;
        }
        false
    }

    /// Books the photographer for the client, from `start` to `end` on `date`.
    ///
    /// The ledger checks the request against the bookings it holds at this
    /// moment, whatever the caller saw earlier: the booking is made only if
    /// no live booking of the photographer overlaps it. The new booking gets
    /// the next number and the status `New`.
    pub fn create_booking(
        &mut self,
        client_id: i32,
        photographer_id: i32,
        service_id: i32,
        date: Date,
        start: TimeOfDay,
        end: TimeOfDay,
    ) -> (made: Result<i32, BookingError>)
        requires
            old(self).well_formed(),
        ensures
            final(self).well_formed(),
            match made {
                Ok(id) => {
                    &&& refusal(old(self)@, photographer_id, date, start, end) is None
                    &&& id == old(self)@.len() + 1
                    &&& final(self)@ == old(self)@.push(
                        Booking {
                            id,
                            client_id,
                            photographer_id,
                            service_id,
                            date,
                            booking_start: start,
                            booking_end: end,
                            status: BookingStatus::New,
                        },
                    )
                },
                Err(error) => {
                    &&& refusal(old(self)@, photographer_id, date, start, end) == Some(error)
                    &&& final(self)@ == old(self)@
                },
            },
    {
        if !start.check() || !end.check() || start.minute_of_day() >= end.minute_of_day() {
            return Err(BookingError::InvalidInterval);
        }
        if self.check_taken(photographer_id, date, start, end) {
            return Err(BookingError::SlotTaken);
        }
        if self.bookings.len() >= i32::MAX as usize {
            return Err(BookingError::LedgerFull);
        }
        let id: i32 = (self.bookings.len() + 1) as i32;
        let booking = Booking {
            id,
            client_id,
            photographer_id,
            service_id,
            date,
            booking_start: start,
            booking_end: end,
            status: BookingStatus::New,
        };
        let ghost before = self.bookings@;
        self.bookings.push(booking);
        proof {
            let after = self.bookings@;
            assert forall|i: int, j: int|
                0 <= i < after.len() && 0 <= j < after.len() && i != j implies !(#[trigger] after[i]).blocks(
                (#[trigger] after[j]).photographer_id,
                after[j].date,
                after[j].booking_start.minutes(),
                after[j].booking_end.minutes(),
            ) || !after[j].is_live() by {
                if i < before.len() && j < before.len() {
                    assert(after[i] == before[i] && after[j] == before[j]);
                } else if j == before.len() {
                    assert(after[i] == before[i]);
                } else {
                    assert(after[j] == before[j]);
                    assert(!before[j].blocks(
                        photographer_id,
                        date,
                        start.minutes(),
                        end.minutes(),
                    ));
                }
            }
        }
        Ok(id)
    }

    /// Asks to move booking `id` to the status `target`. The booking moves
    /// only along new, confirmed, completed or to cancelled from new or
    /// confirmed; any other request leaves every booking as it was.
    pub fn transition(&mut self, id: i32, target: BookingStatus) -> (outcome: Transition)
        requires
            old(self).well_formed(),
        ensures
            final(self).well_formed(),
            final(self)@ == after_transition(old(self)@, id, target),
            outcome == if 1 <= id <= old(self)@.len() {
                judge(old(self)@[id - 1].status, target)
            } else {
                Transition::Missing
            },
    {
        if id < 1 || (id as usize) > self.bookings.len() {
            return Transition::Missing;
        }
        let at: usize = (id - 1) as usize;
        let current = self.bookings[at];
        if current.status.may_become(target) {
            let ghost before = self.bookings@;
            self.bookings.set(
                at,
                Booking {
                    id: current.id,
                    client_id: current.client_id,
                    photographer_id: current.photographer_id,
                    service_id: current.service_id,
                    date: current.date,
                    booking_start: current.booking_start,
                    booking_end: current.booking_end,
                    status: target,
                },
            );
            proof {
                let after = self.bookings@;
                assert(after =~= after_transition(before, id, target));
                assert forall|i: int, j: int|
                    0 <= i < after.len() && 0 <= j < after.len() && i != j implies !(#[trigger] after[i]).blocks(
                    (#[trigger] after[j]).photographer_id,
                    after[j].date,
                    after[j].booking_start.minutes(),
                    after[j].booking_end.minutes(),
                ) || !after[j].is_live() by {
                    assert(!before[i].blocks(
                        before[j].photographer_id,
                        before[j].date,
                        before[j].booking_start.minutes(),
                        before[j].booking_end.minutes(),
                    ) || !before[j].is_live());
                }
            }
            Transition::Applied
        } else if current.status == target {
            Transition::Repeated
        } else {
            Transition::Refused
        }
    }

    /// The photographer accepts a new booking.
    pub fn confirm(&mut self, id: i32) -> (outcome: Transition)
        requires
            old(self).well_formed(),
        ensures
            final(self).well_formed(),
            final(self)@ == after_transition(old(self)@, id, BookingStatus::Confirmed),
            outcome == if 1 <= id <= old(self)@.len() {
                judge(old(self)@[id - 1].status, BookingStatus::Confirmed)
            } else {
                Transition::Missing
            },
    {
        self.transition(id, BookingStatus::Confirmed)
    }

    /// Either side calls a new or confirmed booking off.
    pub fn cancel(&mut self, id: i32) -> (outcome: Transition)
        requires
            old(self).well_formed(),
        ensures
            final(self).well_formed(),
            final(self)@ == after_transition(old(self)@, id, BookingStatus::Cancelled),
            outcome == if 1 <= id <= old(self)@.len() {
                judge(old(self)@[id - 1].status, BookingStatus::Cancelled)
            } else {
                Transition::Missing
            },
    {
        self.transition(id, BookingStatus::Cancelled)
    }

    /// The photographer marks a confirmed booking as done.
    pub fn complete(&mut self, id: i32) -> (outcome: Transition)
        requires
            old(self).well_formed(),
        ensures
            final(self).well_formed(),
            final(self)@ == after_transition(old(self)@, id, BookingStatus::Completed),
            outcome == if 1 <= id <= old(self)@.len() {
                judge(old(self)@[id - 1].status, BookingStatus::Completed)
            } else {
                Transition::Missing
            },
    {
        self.transition(id, BookingStatus::Completed)
    }
}

/// A request for a time that a live booking of the same photographer
/// overlaps is refused, whatever the caller saw before: the ledger stays
/// as it was.
pub proof fn lemma_overlapping_booking_is_refused(
    bookings: Seq<Booking>,
    existing: int,
    photographer_id: i32,
    date: Date,
    start: TimeOfDay,
    end: TimeOfDay,
)
    requires
        0 <= existing < bookings.len(),
        bookings[existing].is_live(),
        bookings[existing].photographer_id == photographer_id,
        bookings[existing].date == date,
        overlaps(
            start.minutes(),
            end.minutes(),
            bookings[existing].booking_start.minutes(),
            bookings[existing].booking_end.minutes(),
        ),
    ensures
        refusal(bookings, photographer_id, date, start, end) is Some,
        is_interval(start, end) ==> refusal(bookings, photographer_id, date, start, end) == Some(
            BookingError::SlotTaken,
        ),
{
    assert(bookings[existing].blocks(photographer_id, date, start.minutes(), end.minutes()));
}

/// A status only ever moves along new, confirmed, completed, or to cancelled
/// from new or confirmed: after any request each booking either keeps its
/// status or has made one of these moves, and everything else about it stays.
pub proof fn lemma_status_moves_forward(bookings: Seq<Booking>, id: i32, target: BookingStatus)
    ensures
        after_transition(bookings, id, target).len() == bookings.len(),
        forall|i: int|
            0 <= i < bookings.len() ==> {
                let before = bookings[i];
                let after = #[trigger] after_transition(bookings, id, target)[i];
                &&& after == Booking { status: after.status, ..before }
                &&& (after.status == before.status || (i == id - 1 && after.status == target
                    && before.status.permits(target)))
            },
        forall|i: int|
            0 <= i < bookings.len() && (bookings[i].status == BookingStatus::Cancelled
                || bookings[i].status == BookingStatus::Completed) ==> (#[trigger] after_transition(
                bookings,
                id,
                target,
            )[i]) == bookings[i],
{
}

/// Asking twice for the same move leaves the ledger as asking once does.
pub proof fn lemma_transition_idempotent(bookings: Seq<Booking>, id: i32, target: BookingStatus)
    ensures
        after_transition(after_transition(bookings, id, target), id, target) == after_transition(
            bookings,
            id,
            target,
        ),
{
    let once = after_transition(bookings, id, target);
    assert(after_transition(once, id, target) =~= once);
}

/// A free slot can be booked: a window of whole hours of the day that no
/// live booking of the photographer touches is accepted by the ledger, as
/// long as the ledger has numbers left.
pub proof fn lemma_free_slot_is_bookable(
    bookings: Seq<Booking>,
    photographer_id: i32,
    date: Date,
    start_hour: u32,
    end_hour: u32,
)
    requires
        start_hour < end_hour <= 24,
        crate::availability::hour_is_free(
            bookings,
            photographer_id,
            date,
            start_hour as int,
            end_hour - start_hour,
        ),
        bookings.len() < i32::MAX,
    ensures
        refusal(
            bookings,
            photographer_id,
            date,
            TimeOfDay { hour: start_hour, minute: 0 },
            TimeOfDay { hour: end_hour, minute: 0 },
        ) is None,
{
}

} // verus!
