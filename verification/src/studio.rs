//! The studio as a whole: photographers, services, who offers what, working
//! hours, the booking ledger and the clients; and what is free to book.

use crate::availability::{
    duration_hours, free_slots, insert_slot, is_free_slot, strictly_ascending, Slot,
};
use crate::calendar::Date;
use crate::clients::ClientRegistry;
use crate::ledger::Ledger;
use crate::models::{Photographer, PhotographerService, Service, WorkingHours};
use vstd::prelude::*;

verus! {

/// Everything the studio knows.
pub struct Studio {
    pub photographers: Vec<Photographer>,
    pub services: Vec<Service>,
    pub offers: Vec<PhotographerService>,
    pub hours: Vec<WorkingHours>,
    pub ledger: Ledger,
    pub clients: ClientRegistry,
}

/// The position of the first service with the given number.
pub open spec fn service_position(services: Seq<Service>, id: i32) -> Option<int> {
    if exists|i: int| 0 <= i < services.len() && (#[trigger] services[i]).id == id {
        Some(
            choose|i: int|
                0 <= i < services.len() && (#[trigger] services[i]).id == id && forall|j: int|
                    0 <= j < i ==> (#[trigger] services[j]).id != id,
        )
    } else {
        None
    }
}

/// The position of the first photographer with the given chat identity.
pub open spec fn photographer_position(photographers: Seq<Photographer>, telegram_id: i64) -> Option<
    int,
> {
    if exists|i: int|
        0 <= i < photographers.len() && (#[trigger] photographers[i]).telegram_id == Some(telegram_id) {
        Some(
            choose|i: int|
                0 <= i < photographers.len() && (#[trigger] photographers[i]).telegram_id == Some(
                    telegram_id,
                ) && forall|j: int|
                    0 <= j < i ==> (#[trigger] photographers[j]).telegram_id != Some(telegram_id),
        )
    } else {
        None
    }
}

/// The position of the first photographer with the given number.
pub open spec fn photographer_row(photographers: Seq<Photographer>, id: i32) -> Option<int> {
    if exists|i: int| 0 <= i < photographers.len() && (#[trigger] photographers[i]).id == id {
        Some(
            choose|i: int|
                0 <= i < photographers.len() && (#[trigger] photographers[i]).id == id && forall|j: int|
                    0 <= j < i ==> (#[trigger] photographers[j]).id != id,
        )
    } else {
        None
    }
}

/// Whether the row holds the hours of that photographer on that date.
pub open spec fn is_row_of(row: WorkingHours, photographer_id: i32, date: Date) -> bool {
    row.photographer_id == photographer_id && row.date == date
}

/// The position of the row with the hours of that photographer on that date.
pub open spec fn hours_position(hours: Seq<WorkingHours>, photographer_id: i32, date: Date) -> Option<
    int,
> {
    if exists|i: int| 0 <= i < hours.len() && is_row_of(#[trigger] hours[i], photographer_id, date) {
        Some(
            choose|i: int|
                0 <= i < hours.len() && is_row_of(#[trigger] hours[i], photographer_id, date)
                    && forall|j: int|
                    0 <= j < i ==> !is_row_of(#[trigger] hours[j], photographer_id, date),
        )
    } else {
        None
    }
}

/// Whether no photographer has two rows for one date.
pub open spec fn one_row_per_day(hours: Seq<WorkingHours>) -> bool {
    forall|i: int, j: int|
        0 <= i < j < hours.len() ==> !is_row_of(
            #[trigger] hours[i],
            (#[trigger] hours[j]).photographer_id,
            hours[j].date,
        )
}

/// The working hours after those of one photographer and date were written:
/// the row of that day is replaced, or a row is added where there was none.
pub open spec fn hours_after_save(hours: Seq<WorkingHours>, row: WorkingHours) -> Seq<WorkingHours> {
    match hours_position(hours, row.photographer_id, row.date) {
        Some(at) => hours.update(at, row),
        None => hours.push(row),
    }
}

/// Whether some photographer offers the service.
pub open spec fn is_offered_by(offers: Seq<PhotographerService>, photographer_id: i32) -> bool {
    exists|k: int| 0 <= k < offers.len() && (#[trigger] offers[k]).photographer_id == photographer_id
}

impl Studio {
    /// The invariant of the studio: those of the ledger and of the clients,
    /// and one row of working hours per photographer and date.
    pub open spec fn well_formed(&self) -> bool {
        &&& self.ledger.well_formed()
        &&& self.clients.well_formed()
        &&& one_row_per_day(self.hours@)
    }

    /// The duration in minutes of the service with the given number.
    pub open spec fn duration_of(&self, service_id: i32) -> Option<i32> {
        match service_position(self.services@, service_id) {
            Some(i) => Some(self.services@[i].duration),
            None => None,
        }
    }

    /// The working hours of the photographer on the date.
    pub open spec fn hours_of(&self, photographer_id: i32, date: Date) -> Option<WorkingHours> {
        match hours_position(self.hours@, photographer_id, date) {
            Some(i) => Some(self.hours@[i]),
            None => None,
        }
    }

    /// The number of the photographer with the given chat identity.
    pub open spec fn photographer_of(&self, telegram_id: i64) -> Option<i32> {
        match photographer_position(self.photographers@, telegram_id) {
            Some(i) => Some(self.photographers@[i].id),
            None => None,
        }
    }

    /// Whether `slot` is free to book with the photographer for the service
    /// on the date: the service and the working hours of that day are
    /// known, and the slot is a free slot of that day.
    pub open spec fn is_free(&self, photographer_id: i32, service_id: i32, date: Date, slot: Slot) -> bool {
        match (self.duration_of(service_id), self.hours_of(photographer_id, date)) {
            (Some(minutes), Some(row)) => is_free_slot(
                slot,
                row.start_hour as int,
                row.end_hour as int,
                duration_hours(minutes as int),
                self.ledger@,
                photographer_id,
                date,
            ),
            _ => false,
        }
    }

    /// Whether the photographer has any free slot for the service on the date.
    #[verifier::opaque]
    pub open spec fn has_free_slot(&self, photographer_id: i32, service_id: i32, date: Date) -> bool {
        exists|slot: Slot| self.is_free(photographer_id, service_id, date, slot)
    }

    /// Whether the photographer works on the date: there is a row for it with both hours positive.
    pub open spec fn works_on(&self, photographer_id: i32, date: Date) -> bool {
        match self.hours_of(photographer_id, date) {
            Some(row) => row.is_working(),
            None => false,
        }
    }

    /// Whether `slot` is free with some photographer who offers the service and works on the date.
    pub open spec fn is_free_with_anyone(&self, service_id: i32, date: Date, slot: Slot) -> bool {
        exists|k: int|
            0 <= k < self.offers@.len() && (#[trigger] self.offers@[k]).service_id == service_id
                && self.works_on(self.offers@[k].photographer_id, date) && self.is_free(
                self.offers@[k].photographer_id,
                service_id,
                date,
                slot,
            )
    }

    /// Whether offer `k` is of the service and its photographer has a free slot on the date.
    pub open spec fn is_candidate(&self, k: int, service_id: i32, date: Date) -> bool {
        self.offers@[k].service_id == service_id && self.has_free_slot(
            self.offers@[k].photographer_id,
            service_id,
            date,
        )
    }

    /// The photographer that a client who named none is given: the first, in
    /// the order of the offers, who offers the service and has a free slot on the date.
    pub open spec fn assigned(&self, service_id: i32, date: Date) -> Option<i32> {
        if exists|k: int| 0 <= k < self.offers@.len() && self.is_candidate(k, service_id, date) {
            let first = choose|k: int|
                0 <= k < self.offers@.len() && self.is_candidate(k, service_id, date) && forall|j: int|
                    0 <= j < k ==> !self.is_candidate(j, service_id, date);
            Some(self.offers@[first].photographer_id)
        } else {
            None
        }
    }

    /// Whether anyone who offers a service works on the date.
    pub open spec fn anyone_works_on(&self, date: Date) -> bool {
        exists|i: int|
            0 <= i < self.hours@.len() && (#[trigger] self.hours@[i]).date == date
                && self.hours@[i].is_working() && is_offered_by(
                self.offers@,
                self.hours@[i].photographer_id,
            )
    }

    /// Whoever sees a free slot for any photographer gets a photographer:
    /// where a slot is free with someone who offers the service, someone is assigned.
    pub proof fn lemma_shown_slot_has_a_photographer(&self, service_id: i32, date: Date, slot: Slot)
        requires
            self.is_free_with_anyone(service_id, date, slot),
        ensures
            self.assigned(service_id, date) is Some,
    {
        reveal(Studio::has_free_slot);
        let k = choose|k: int|
            0 <= k < self.offers@.len() && (#[trigger] self.offers@[k]).service_id == service_id
                && self.works_on(self.offers@[k].photographer_id, date) && self.is_free(
                self.offers@[k].photographer_id,
                service_id,
                date,
                slot,
            );
        assert(self.is_candidate(k, service_id, date));
    }

    /// A studio without anything: nobody works there, nothing is offered or
    /// booked, nobody is registered or archived, and no client number has
    /// been given out, so that the first client to register gets number 1.
    pub fn new() -> (studio: Studio)
        ensures
            studio.well_formed(),
            studio.photographers@ == Seq::<Photographer>::empty(),
            studio.services@ == Seq::<Service>::empty(),
            studio.offers@ == Seq::<PhotographerService>::empty(),
            studio.hours@ == Seq::<WorkingHours>::empty(),
            studio.ledger@ == Seq::<crate::models::Booking>::empty(),
            studio.clients.active() == Seq::<crate::models::Client>::empty(),
            studio.clients.archive() == Seq::<crate::models::ArchivedClient>::empty(),
            studio.clients.issued() == 0,
    {
        Studio {
            photographers: Vec::new(),
            services: Vec::new(),
            offers: Vec::new(),
            hours: Vec::new(),
            ledger: Ledger::new(),
            clients: ClientRegistry::new(),
        }
    }

    /// The duration in minutes of the service with the given number.
    pub fn service_duration(&self, service_id: i32) -> (minutes: Option<i32>)
        ensures
            minutes == self.duration_of(service_id),
    {
        let mut i: usize = 0;
        while i < self.services.len()
            invariant
                i <= self.services.len(),
                forall|j: int| 0 <= j < i ==> (#[trigger] self.services@[j]).id != service_id,
            decreases self.services.len() - i,
        {
            if self.services[i].id == service_id {
                return Some(self.services[i].duration);
            }
            i += 1;
        }
        None
    }

    /// The photographer with the given chat identity: the first in the list.
    pub fn check_photographer(&self, telegram_id: i64) -> (id: Option<i32>)
        ensures
            id == self.photographer_of(telegram_id),
    {
        let mut i: usize = 0;
        while i < self.photographers.len()
            invariant
                i <= self.photographers.len(),
                forall|j: int|
                    0 <= j < i ==> (#[trigger] self.photographers@[j]).telegram_id != Some(telegram_id),
            decreases self.photographers.len() - i,
        {
            match self.photographers[i].telegram_id {
                Some(known) => {
                    if known == telegram_id {
                        return Some(self.photographers[i].id);
                    }
                },
                None => {},
            }
            i += 1;
        }
        None
    }

    /// The chat in which the photographer is told of a booking: the chat
    /// identity of the first photographer of that number, where one is known.
    pub open spec fn chat_of_photographer(&self, photographer_id: i32) -> Option<i64> {
        match photographer_row(self.photographers@, photographer_id) {
            Some(i) => self.photographers@[i].telegram_id,
            None => None,
        }
    }

    /// The chat in which the photographer is told of a booking.
    pub fn notify_photographer(&self, photographer_id: i32) -> (chat_id: Option<i64>)
        ensures
            chat_id == self.chat_of_photographer(photographer_id),
    {
        let mut i: usize = 0;
        while i < self.photographers.len()
            invariant
                i <= self.photographers.len(),
                forall|j: int| 0 <= j < i ==> (#[trigger] self.photographers@[j]).id != photographer_id,
            decreases self.photographers.len() - i,
        {
            if self.photographers[i].id == photographer_id {
                return self.photographers[i].telegram_id;
            }
            i += 1;
        }
        None
    }

    /// The chat in which the client is told of a booking: the chat identity of the client.
    pub fn notify_client(&self, client_id: i32) -> (chat_id: Option<i64>)
        requires
            self.well_formed(),
        ensures
            match chat_id {
                Some(chat_id) => exists|i: int|
                    0 <= i < self.clients.active().len() && (#[trigger] self.clients.active()[i]).id
                        == client_id && self.clients.active()[i].telegram_id == chat_id,
                None => forall|i: int|
                    0 <= i < self.clients.active().len() ==> (#[trigger] self.clients.active()[i]).id
                        != client_id,
            },
    {
        match self.clients.get(client_id) {
            Some(client) => Some(client.telegram_id),
            None => None,
        }
    }

    /// The client with the given chat identity.
    pub fn check_client(&self, telegram_id: i64) -> (id: Option<i32>)
        requires
            self.well_formed(),
        ensures
            id == self.clients.client_of(telegram_id),
    {
        self.clients.find(telegram_id)
    }

    /// The position of the row with the hours of that photographer on that date.
    fn locate_hours(&self, photographer_id: i32, date: Date) -> (found: Option<usize>)
        ensures
            match found {
                Some(i) => hours_position(self.hours@, photographer_id, date) == Some(i as int) && i
                    < self.hours@.len() && is_row_of(self.hours@[i as int], photographer_id, date),
                None => hours_position(self.hours@, photographer_id, date) is None && forall|j: int|
                    0 <= j < self.hours@.len() ==> !is_row_of(
                        #[trigger] self.hours@[j],
                        photographer_id,
                        date,
                    ),
            },
    {
        let mut i: usize = 0;
        while i < self.hours.len()
            invariant
                i <= self.hours.len(),
                forall|j: int|
                    0 <= j < i ==> !is_row_of(#[trigger] self.hours@[j], photographer_id, date),
            decreases self.hours.len() - i,
        {
            let row = &self.hours[i];
            if row.photographer_id == photographer_id && row.date == date {
                return Some(i);
            }
            i += 1;
        }
        None
    }

    /// The working hours of the photographer on the date, start and end.
    pub fn get_working_hours(&self, photographer_id: i32, date: Date) -> (hours: Option<(i32, i32)>)
        ensures
            hours == match self.hours_of(photographer_id, date) {
                Some(row) => Some((row.start_hour, row.end_hour)),
                None => None,
            },
    {
        match self.locate_hours(photographer_id, date) {
            Some(i) => Some((self.hours[i].start_hour, self.hours[i].end_hour)),
            None => None,
        }
    }

    /// Writes the working hours of the photographer on the date. A later
    /// write replaces the hours written before for that day.
    pub fn save_working_hours(&mut self, photographer_id: i32, date: Date, start_hour: i32, end_hour: i32)
        requires
            old(self).well_formed(),
        ensures
            final(self).well_formed(),
            final(self).hours@ == hours_after_save(
                old(self).hours@,
                WorkingHours { photographer_id, date, start_hour, end_hour },
            ),
            final(self).hours_of(photographer_id, date) == Some(
                WorkingHours { photographer_id, date, start_hour, end_hour },
            ),
            final(self).photographers == old(self).photographers,
            final(self).services == old(self).services,
            final(self).offers == old(self).offers,
            final(self).ledger == old(self).ledger,
            final(self).clients == old(self).clients,
    {
        let row = WorkingHours { photographer_id, date, start_hour, end_hour };
        let ghost before = self.hours@;
        match self.locate_hours(photographer_id, date) {
            Some(i) => {
                self.hours.set(i, row);
                proof {
                    let after = self.hours@;
                    assert forall|a: int, b: int| 0 <= a < b < after.len() implies !is_row_of(
                        #[trigger] after[a],
                        (#[trigger] after[b]).photographer_id,
                        after[b].date,
                    ) by {
                        assert(!is_row_of(before[a], before[b].photographer_id, before[b].date));
                    }
                    assert(is_row_of(after[i as int], photographer_id, date));
                    assert forall|j: int| 0 <= j < i implies !is_row_of(
                        #[trigger] after[j],
                        photographer_id,
                        date,
                    ) by {
                        assert(after[j] == before[j]);
                    }
                }
            },
            None => {
                self.hours.push(row);
                proof {
                    let after = self.hours@;
                    let last = after.len() - 1;
                    assert forall|a: int, b: int| 0 <= a < b < after.len() implies !is_row_of(
                        #[trigger] after[a],
                        (#[trigger] after[b]).photographer_id,
                        after[b].date,
                    ) by {
                        assert(after[a] == before[a]);
                        if b < last {
                            assert(after[b] == before[b]);
                        }
                    }
                    assert(is_row_of(after[last], photographer_id, date));
                    assert forall|j: int| 0 <= j < last implies !is_row_of(
                        #[trigger] after[j],
                        photographer_id,
                        date,
                    ) by {
                        assert(after[j] == before[j]);
                    }
                }
            },
        }
    }

    /// The free slots of the photographer for the service on the date, in
    /// ascending order: every whole hour of the day's working hours from
    /// which the service, rounded up to whole hours, fits before the end of
    /// the working hours and touches no live booking of the photographer.
    /// Empty where the service or the working hours of that day are unknown.
    pub fn get_free_slots(&self, photographer_id: i32, service_id: i32, date: Date) -> (slots: Vec<Slot>)
        ensures
            strictly_ascending(slots@),
            forall|slot: Slot| #[trigger]
                slots@.contains(slot) <==> self.is_free(photographer_id, service_id, date, slot),
            slots@.len() > 0 <==> self.has_free_slot(photographer_id, service_id, date),
    {
        let slots = match (
            self.service_duration(service_id),
            self.get_working_hours(photographer_id, date),
        ) {
            (Some(minutes), Some((start_hour, end_hour))) => free_slots(
                start_hour,
                end_hour,
                minutes,
                self.ledger.bookings(),
                photographer_id,
                date,
            ),
            _ => Vec::new(),
        };
        proof {
            reveal(Studio::has_free_slot);
            if slots@.len() > 0 {
                assert(slots@.contains(slots@[0]));
                assert(self.is_free(photographer_id, service_id, date, slots@[0]));
            }
            if self.has_free_slot(photographer_id, service_id, date) {
                let slot = choose|slot: Slot| self.is_free(photographer_id, service_id, date, slot);
                assert(slots@.contains(slot));
            }
        }
        slots
    }

    /// The slots that are free with any photographer who offers the service
    /// and works on the date: each once, in ascending order.
    pub fn get_available_photographers(&self, service_id: i32, date: Date) -> (slots: Vec<Slot>)
        ensures
            strictly_ascending(slots@),
            forall|slot: Slot| #[trigger]
                slots@.contains(slot) <==> self.is_free_with_anyone(service_id, date, slot),
    {
        let mut all: Vec<Slot> = Vec::new();
        let mut k: usize = 0;
        while k < self.offers.len()
            invariant
                k <= self.offers.len(),
                strictly_ascending(all@),
                forall|slot: Slot| #[trigger]
                    all@.contains(slot) <==> exists|m: int|
                        0 <= m < k && (#[trigger] self.offers@[m]).service_id == service_id
                            && self.works_on(self.offers@[m].photographer_id, date) && self.is_free(
                            self.offers@[m].photographer_id,
                            service_id,
                            date,
                            slot,
                        ),
            decreases self.offers.len() - k,
        {
            let offer = self.offers[k];
            let working = match self.get_working_hours(offer.photographer_id, date) {
                Some((start_hour, end_hour)) => start_hour > 0 && end_hour > 0,
                None => false,
            };
            if offer.service_id == service_id && working {
                let found = self.get_free_slots(offer.photographer_id, service_id, date);
                let mut i: usize = 0;
                while i < found.len()
                    invariant
                        k < self.offers.len(),
                        offer == self.offers@[k as int],
                        offer.service_id == service_id,
                        self.works_on(offer.photographer_id, date),
                        i <= found.len(),
                        strictly_ascending(all@),
                        forall|slot: Slot| #[trigger]
                            found@.contains(slot) <==> self.is_free(
                                offer.photographer_id,
                                service_id,
                                date,
                                slot,
                            ),
                        forall|slot: Slot| #[trigger]
                            all@.contains(slot) <==> ((exists|m: int|
                                0 <= m < k && (#[trigger] self.offers@[m]).service_id == service_id
                                    && self.works_on(self.offers@[m].photographer_id, date)
                                    && self.is_free(
                                    self.offers@[m].photographer_id,
                                    service_id,
                                    date,
                                    slot,
                                )) || found@.take(i as int).contains(slot)),
                    decreases found.len() - i,
                {
                    insert_slot(&mut all, found[i]);
                    proof {
                        assert(found@.take(i + 1) =~= found@.take(i as int).push(found@[i as int]));
                        assert forall|slot: Slot|
                            found@.take(i + 1).contains(slot) <==> (found@.take(i as int).contains(slot)
                                || slot == found@[i as int]) by {
                            vstd::seq_lib::lemma_seq_contains_after_push(
                                found@.take(i as int),
                                found@[i as int],
                                slot,
                            );
                        }
                    }
                    i += 1;
                }
                proof {
                    assert(found@.take(found.len() as int) =~= found@);
                }
            }
            k += 1;
        }
        all
    }

    /// The photographer for a client who named none: the first, in the order
    /// of the offers, who offers the service and has a free slot on the date.
    pub fn find_available_photographer(&self, service_id: i32, date: Date) -> (photographer_id: Option<
        i32,
    >)
        ensures
            photographer_id == self.assigned(service_id, date),
    {
        let mut k: usize = 0;
        while k < self.offers.len()
            invariant
                k <= self.offers.len(),
                forall|j: int| 0 <= j < k ==> !self.is_candidate(j, service_id, date),
            decreases self.offers.len() - k,
        {
            let offer = self.offers[k];
            if offer.service_id == service_id {
                let slots = self.get_free_slots(offer.photographer_id, service_id, date);
                if slots.len() > 0 {
                    proof {
                        self.lemma_first_candidate(k as int, service_id, date);
                    }
                    return Some(offer.photographer_id);
                }
            }
            k += 1;
        }
        None
    }

    /// The first offer that qualifies decides who is assigned.
    pub proof fn lemma_first_candidate(&self, k: int, service_id: i32, date: Date)
        requires
            0 <= k < self.offers@.len(),
            self.is_candidate(k, service_id, date),
            forall|j: int| 0 <= j < k ==> !self.is_candidate(j, service_id, date),
        ensures
            self.assigned(service_id, date) == Some(self.offers@[k].photographer_id),
    {
        let first = choose|c: int|
            0 <= c < self.offers@.len() && self.is_candidate(c, service_id, date) && forall|j: int|
                0 <= j < c ==> !self.is_candidate(j, service_id, date);
        if first < k {
            assert(!self.is_candidate(first, service_id, date));
        } else if first > k {
            assert(!self.is_candidate(k, service_id, date));
        }
    }

    /// Whether anyone who offers a service works on the date.
    pub fn check_any_photographer_available(&self, date: Date) -> (available: bool)
        ensures
            available == self.anyone_works_on(date),
    {
        let mut i: usize = 0;
        while i < self.hours.len()
            invariant
                i <= self.hours.len(),
                forall|j: int|
                    0 <= j < i ==> !((#[trigger] self.hours@[j]).date == date
                        && self.hours@[j].is_working() && is_offered_by(
                        self.offers@,
                        self.hours@[j].photographer_id,
                    )),
            decreases self.hours.len() - i,
        {
            let row = self.hours[i];
            if row.date == date && row.check_working() {
                let mut k: usize = 0;
                while k < self.offers.len()
                    invariant
                        k <= self.offers.len(),
                        i < self.hours.len(),
                        row == self.hours@[i as int],
                        row.date == date,
                        row.is_working(),
                        forall|m: int|
                            0 <= m < k ==> (#[trigger] self.offers@[m]).photographer_id
                                != row.photographer_id,
                    decreases self.offers.len() - k,
                {
                    if self.offers[k].photographer_id == row.photographer_id {
                        assert(is_offered_by(self.offers@, row.photographer_id));
                        return true;
                    }
                    k += 1;
                }
            }
            i += 1;
        }
        false
    }

    /// Whether the day counts as a working day for the calendar: for one
    /// photographer, whether that photographer works on it; for a client who
    /// named none (`photographer_id` is `None`), whether anyone does.
    pub open spec fn is_working_day(&self, photographer_id: Option<i32>, date: Date) -> bool {
        match photographer_id {
            Some(id) => self.works_on(id, date),
            None => self.anyone_works_on(date),
        }
    }

    /// Whether the day counts as a working day for the calendar.
    pub fn check_working_day(&self, photographer_id: Option<i32>, date: Date) -> (working: bool)
        ensures
            working == self.is_working_day(photographer_id, date),
    {
        match photographer_id {
            Some(id) => match self.get_working_hours(id, date) {
                Some((start_hour, end_hour)) => start_hour > 0 && end_hour > 0,
                None => false,
            },
            None => self.check_any_photographer_available(date),
        }
    }
}

} // verus!
