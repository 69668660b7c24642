//! The lists of bookings that photographers and clients look through, in
//! the order of their starting times.

use crate::actions::BookingList;
use crate::calendar::{Date, TimeOfDay};
use crate::keyboard::{
    client_rows, grid, navigation_row, page_count, page_first, page_last, photographer_rows,
    show_bookings_page, show_client_bookings, Page, Paged,
};
use crate::ledger::Ledger;
use crate::links::{chat_address, contact_link, link_of, parsed_url};
use crate::models::{Booking, BookingStatus};
use crate::studio::Studio;
use vstd::prelude::*;

verus! {

/// The order of bookings: by date, then by starting time, then by number.
pub open spec fn starts_before(a: Booking, b: Booking) -> bool {
    ||| a.date.earlier_than(b.date)
    ||| a.date == b.date && a.booking_start.minutes() < b.booking_start.minutes()
    ||| a.date == b.date && a.booking_start.minutes() == b.booking_start.minutes() && a.id < b.id
}

/// Whether the bookings stand in the order of their starts, the latest first where `newest_first` is set.
pub open spec fn in_order(bookings: Seq<Booking>, newest_first: bool) -> bool {
    forall|i: int, j: int|
        0 <= i < j < bookings.len() ==> if newest_first {
            starts_before(#[trigger] bookings[j], #[trigger] bookings[i])
        } else {
            starts_before(bookings[i], bookings[j])
        }
}

/// Whether a booking starts at the given moment or later.
pub open spec fn is_upcoming(booking: Booking, today: Date, now: TimeOfDay) -> bool {
    today.earlier_than(booking.date) || (booking.date == today && booking.booking_start.minutes()
        >= now.minutes())
}

/// Whether a booking belongs to a list of a photographer: it is the
/// photographer's, and it is new for the list of new bookings, still to
/// come for the list of upcoming ones.
pub open spec fn belongs(list: BookingList, photographer_id: i32, today: Date, now: TimeOfDay, booking: Booking) -> bool {
    booking.photographer_id == photographer_id && match list {
        BookingList::New => booking.status == BookingStatus::New,
        BookingList::Upcoming => is_upcoming(booking, today, now),
        BookingList::All => true,
    }
}

/// Whether the list of all bookings is shown: it begins with the latest.
pub open spec fn newest_first(list: BookingList) -> bool {
    list == BookingList::All
}

/// Whether `a` comes before `b` in the order of bookings.
fn check_before(a: &Booking, b: &Booking) -> (before: bool)
    ensures
        before == starts_before(*a, *b),
{
    let x: u64 = a.booking_start.hour as u64 * 60 + a.booking_start.minute as u64;
    let y: u64 = b.booking_start.hour as u64 * 60 + b.booking_start.minute as u64;
    a.date.is_before(&b.date) || (a.date == b.date && (x < y || (x == y && a.id < b.id)))
}

/// Whether a booking belongs to a list of a photographer.
fn check_belongs(list: BookingList, photographer_id: i32, today: Date, now: TimeOfDay, booking: &Booking) -> (inside:
    bool)
    ensures
        inside == belongs(list, photographer_id, today, now, *booking),
{
    let start: u64 = booking.booking_start.hour as u64 * 60 + booking.booking_start.minute as u64;
    let moment: u64 = now.hour as u64 * 60 + now.minute as u64;
    booking.photographer_id == photographer_id && match list {
        BookingList::New => booking.status == BookingStatus::New,
        BookingList::Upcoming => today.is_before(&booking.date) || (booking.date == today && start >= moment),
        BookingList::All => true,
    }
}

/// Whether `listed` stands ahead of `booking` in a list of the given direction.
pub open spec fn stands_ahead(listed: Booking, booking: Booking, newest_first: bool) -> bool {
    if newest_first {
        starts_before(booking, listed)
    } else {
        starts_before(listed, booking)
    }
}

/// Whether `listed` stands ahead of `booking` in a list of the given direction.
fn check_ahead(listed: &Booking, booking: &Booking, newest_first: bool) -> (ahead: bool)
    ensures
        ahead == stands_ahead(*listed, *booking, newest_first),
{
    if newest_first {
        check_before(booking, listed)
    } else {
        check_before(listed, booking)
    }
}

/// Adds a booking to an ordered list at its place.
fn insert_in_order(list: &mut Vec<Booking>, booking: Booking, newest_first: bool)
    requires
        in_order(old(list)@, newest_first),
        forall|i: int| 0 <= i < old(list)@.len() ==> (#[trigger] old(list)@[i]).id != booking.id,
    ensures
        in_order(final(list)@, newest_first),
        final(list)@.len() == old(list)@.len() + 1,
        forall|other: Booking| #[trigger]
            final(list)@.contains(other) <==> (old(list)@.contains(other) || other == booking),
{
    let mut at: usize = 0;
    while at < list.len() && check_ahead(&list[at], &booking, newest_first)
        invariant
            *list == *old(list),
            at <= list.len(),
            forall|k: int| 0 <= k < at ==> stands_ahead(#[trigger] list@[k], booking, newest_first),
        decreases list.len() - at,
    {
        at += 1;
    }
    let ghost before = list@;
    list.insert(at, booking);
    proof {
        let after = list@;
        assert(after == before.insert(at as int, booking));
        assert forall|i: int, j: int| 0 <= i < j < after.len() implies if newest_first {
            starts_before(#[trigger] after[j], #[trigger] after[i])
        } else {
            starts_before(after[i], after[j])
        } by {
            if j < at {
                assert(after[i] == before[i] && after[j] == before[j]);
            } else if j == at {
                assert(after[i] == before[i]);
            } else if i < at {
                assert(after[i] == before[i] && after[j] == before[j - 1]);
            } else if i == at {
                assert(after[j] == before[j - 1]);
                assert(before[at as int].id != booking.id);
                if j - 1 > at {
                    assert(if newest_first {
                        starts_before(before[j - 1], before[at as int])
                    } else {
                        starts_before(before[at as int], before[j - 1])
                    });
                }
            } else {
                assert(after[i] == before[i - 1] && after[j] == before[j - 1]);
            }
        }
        assert forall|other: Booking| #[trigger]
            after.contains(other) <==> (before.contains(other) || other == booking) by {
            if after.contains(other) {
                let k = choose|k: int| 0 <= k < after.len() && after[k] == other;
                if k < at {
                    assert(before[k] == other);
                } else if k > at {
                    assert(before[k - 1] == other);
                }
            }
            if before.contains(other) {
                let k = choose|k: int| 0 <= k < before.len() && before[k] == other;
                if k < at {
                    assert(after[k] == other);
                } else {
                    assert(after[k + 1] == other);
                }
            }
            if other == booking {
                assert(after[at as int] == other);
            }
        }
    }
}

impl Ledger {
    /// A list of a photographer's bookings: the new ones, those still to
    /// come at the given moment, or all. The list of all bookings begins
    /// with the latest, the others with the earliest.
    pub fn photographer_bookings(
        &self,
        list: BookingList,
        photographer_id: i32,
        today: Date,
        now: TimeOfDay,
    ) -> (listed: Vec<Booking>)
        requires
            self.well_formed(),
        ensures
            in_order(listed@, newest_first(list)),
            listed@.len() <= self@.len(),
            forall|booking: Booking| #[trigger]
                listed@.contains(booking) <==> (self@.contains(booking) && belongs(
                    list,
                    photographer_id,
                    today,
                    now,
                    booking,
                )),
    {
        let all = self.bookings();
        let newest = match list {
            BookingList::All => true,
            _ => false,
        };
        let mut listed: Vec<Booking> = Vec::new();
        let mut i: usize = 0;
        while i < all.len()
            invariant
                self.well_formed(),
                all@ == self@,
                i <= all.len(),
                newest == newest_first(list),
                in_order(listed@, newest),
                listed@.len() <= i,
                forall|k: int| 0 <= k < listed@.len() ==> 1 <= (#[trigger] listed@[k]).id <= i,
                forall|booking: Booking| #[trigger]
                    listed@.contains(booking) <==> (all@.take(i as int).contains(booking) && belongs(
                        list,
                        photographer_id,
                        today,
                        now,
                        booking,
                    )),
            decreases all.len() - i,
        {
            let booking = all[i];
            let ghost before = listed@;
            if check_belongs(list, photographer_id, today, now, &booking) {
                insert_in_order(&mut listed, booking, newest);
                proof {
                    assert forall|k: int| 0 <= k < listed@.len() implies 1 <= (#[trigger] listed@[k]).id
                        <= i + 1 by {
                        assert(listed@.contains(listed@[k]));
                    }
                }
            }
            proof {
                assert(all@.take(i + 1) =~= all@.take(i as int).push(booking));
                assert forall|other: Booking| #[trigger]
                    listed@.contains(other) <==> (all@.take(i + 1).contains(other) && belongs(
                        list,
                        photographer_id,
                        today,
                        now,
                        other,
                    )) by {
                    vstd::seq_lib::lemma_seq_contains_after_push(all@.take(i as int), booking, other);
                }
            }
            i += 1;
        }
        proof {
            assert(all@.take(all.len() as int) =~= all@);
        }
        listed
    }

    /// The bookings of a client, the latest first.
    pub fn client_bookings(&self, client_id: i32) -> (listed: Vec<Booking>)
        requires
            self.well_formed(),
        ensures
            in_order(listed@, true),
            listed@.len() <= self@.len(),
            forall|booking: Booking| #[trigger]
                listed@.contains(booking) <==> (self@.contains(booking) && booking.client_id == client_id),
    {
        let all = self.bookings();
        let mut listed: Vec<Booking> = Vec::new();
        let mut i: usize = 0;
        while i < all.len()
            invariant
                self.well_formed(),
                all@ == self@,
                i <= all.len(),
                in_order(listed@, true),
                listed@.len() <= i,
                forall|k: int| 0 <= k < listed@.len() ==> 1 <= (#[trigger] listed@[k]).id <= i,
                forall|booking: Booking| #[trigger]
                    listed@.contains(booking) <==> (all@.take(i as int).contains(booking)
                        && booking.client_id == client_id),
            decreases all.len() - i,
        {
            let booking = all[i];
            let ghost before = listed@;
            if booking.client_id == client_id {
                insert_in_order(&mut listed, booking, true);
                proof {
                    assert forall|k: int| 0 <= k < listed@.len() implies 1 <= (#[trigger] listed@[k]).id
                        <= i + 1 by {
                        assert(listed@.contains(listed@[k]));
                    }
                }
            }
            proof {
                assert(all@.take(i + 1) =~= all@.take(i as int).push(booking));
                assert forall|other: Booking| #[trigger]
                    listed@.contains(other) <==> (all@.take(i + 1).contains(other) && other.client_id
                        == client_id) by {
                    vstd::seq_lib::lemma_seq_contains_after_push(all@.take(i as int), booking, other);
                }
            }
            i += 1;
        }
        proof {
            assert(all@.take(all.len() as int) =~= all@);
        }
        listed
    }
}

/// A list of bookings with the page of it that is shown.
pub struct Listing {
    /// The whole list, in its order.
    pub rows: Vec<Booking>,
    /// The page, `None` where the list has no such page.
    pub page: Option<Page>,
}

/// Whether `shown` is the given page of the rows of a photographer's list,
/// with a link to each client who can be linked to.
pub open spec fn is_page_of(
    shown: Option<Page>,
    rows: Seq<Booking>,
    linked: Seq<bool>,
    list: BookingList,
    page: u32,
) -> bool {
    match shown {
        Some(shown) => {
            &&& page < page_count(rows.len() as int)
            &&& shown.first == page_first(page as int)
            &&& shown.last == page_last(rows.len() as int, page as int)
            &&& grid(shown.keyboard@) == photographer_rows(
                rows,
                linked,
                list,
                shown.first as int,
                shown.last as int,
            ).push(navigation_row(Paged::Photographer(list), page, page_count(rows.len() as int) as u32))
        },
        None => page >= page_count(rows.len() as int),
    }
}

impl Studio {
    /// Whether there is a link to the chat with the client: the client is
    /// registered with a handle that makes an address.
    pub open spec fn can_link(&self, client_id: i32) -> bool {
        exists|i: int|
            0 <= i < self.clients.active().len() && (#[trigger] self.clients.active()[i]).id == client_id
                && link_of(
                self.clients.active()[i].username@,
                parsed_url(chat_address(self.clients.active()[i].username@)),
            ) is Some
    }

    /// Whether there is a link to the chat with the client.
    pub fn check_link(&self, client_id: i32) -> (linked: bool)
        requires
            self.well_formed(),
        ensures
            linked == self.can_link(client_id),
    {
        match self.clients.get(client_id) {
            Some(client) => {
                let link = contact_link(client.username.as_str());
                proof {
                    let active = self.clients.active();
                    let at = choose|i: int| 0 <= i < active.len() && active[i] == *client;
                    assert forall|i: int| 0 <= i < active.len() && (#[trigger] active[i]).id
                        == client_id implies i == at by {
                        if i < at {
                            assert(active[i].id != active[at].id);
                        } else if i > at {
                            assert(active[at].id != active[i].id);
                        }
                    }
                    assert(active[at].id == client_id);
                }
                link.is_some()
            },
            None => false,
        }
    }

    /// A page of a list of a photographer's bookings at the given moment.
    pub fn photographer_page(
        &self,
        list: BookingList,
        photographer_id: i32,
        page: u32,
        today: Date,
        now: TimeOfDay,
    ) -> (shown: Listing)
        requires
            self.well_formed(),
        ensures
            in_order(shown.rows@, newest_first(list)),
            forall|booking: Booking| #[trigger]
                shown.rows@.contains(booking) <==> (self.ledger@.contains(booking) && belongs(
                    list,
                    photographer_id,
                    today,
                    now,
                    booking,
                )),
            is_page_of(
                shown.page,
                shown.rows@,
                Seq::new(shown.rows@.len(), |i: int| self.can_link(shown.rows@[i].client_id)),
                list,
                page,
            ),
    {
        let rows = self.ledger.photographer_bookings(list, photographer_id, today, now);
        let mut linked: Vec<bool> = Vec::new();
        let mut i: usize = 0;
        while i < rows.len()
            invariant
                self.well_formed(),
                i <= rows.len(),
                linked@.len() == i,
                forall|k: int| 0 <= k < i ==> #[trigger] linked@[k] == self.can_link(rows@[k].client_id),
            decreases rows.len() - i,
        {
            linked.push(self.check_link(rows[i].client_id));
            i += 1;
        }
        assert(linked@ =~= Seq::new(rows@.len(), |i: int| self.can_link(rows@[i].client_id)));
        let page = show_bookings_page(&rows, &linked, list, page);
        Listing { rows, page }
    }

    /// A page of a client's bookings.
    pub fn client_page(&self, client_id: i32, page: u32) -> (shown: Listing)
        requires
            self.well_formed(),
        ensures
            in_order(shown.rows@, true),
            forall|booking: Booking| #[trigger]
                shown.rows@.contains(booking) <==> (self.ledger@.contains(booking) && booking.client_id
                    == client_id),
            match shown.page {
                Some(found) => {
                    &&& page < page_count(shown.rows@.len() as int)
                    &&& found.first == page_first(page as int)
                    &&& found.last == page_last(shown.rows@.len() as int, page as int)
                    &&& grid(found.keyboard@) == client_rows(
                        shown.rows@,
                        found.first as int,
                        found.last as int,
                    ).push(
                        navigation_row(Paged::Client, page, page_count(shown.rows@.len() as int) as u32),
                    )
                },
                None => page >= page_count(shown.rows@.len() as int),
            },
    {
        let rows = self.ledger.client_bookings(client_id);
        let page = show_client_bookings(&rows, page);
        Listing { rows, page }
    }
}

} // verus!
