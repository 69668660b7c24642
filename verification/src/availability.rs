//! Free time slots: which whole-hour windows of a working day no booking touches.

use crate::calendar::Date;
use crate::models::Booking;
use crate::text::{decimal, digit_char, digit_text, render_signed, signed_decimal};
use vstd::prelude::*;
use vstd::string::*;

verus! {

/// A window of whole hours of one day, from `start_hour` up to `end_hour`.
#[derive(Clone, Copy, Debug, PartialEq, Eq, Structural)]
pub struct Slot {
    pub start_hour: i64,
    pub end_hour: i64,
}

/// A duration in minutes rounded up to whole hours.
pub open spec fn duration_hours(minutes: int) -> int {
    (minutes + 59) / 60
}

/// Whether no live booking of the photographer on that date touches the
/// `hours` hours that begin at `hour`.
pub open spec fn hour_is_free(
    bookings: Seq<Booking>,
    photographer_id: i32,
    date: Date,
    hour: int,
    hours: int,
) -> bool {
    forall|i: int|
        0 <= i < bookings.len() ==> !(#[trigger] bookings[i]).blocks(
            photographer_id,
            date,
            60 * hour,
            60 * (hour + hours),
        )
}

/// Whether `slot` is a free slot: `hours` long, inside the working window
/// from `start` to `end`, and touched by no live booking.
pub open spec fn is_free_slot(
    slot: Slot,
    start: int,
    end: int,
    hours: int,
    bookings: Seq<Booking>,
    photographer_id: i32,
    date: Date,
) -> bool {
    &&& slot.end_hour == slot.start_hour + hours
    &&& start <= slot.start_hour
    &&& slot.end_hour <= end
    &&& hour_is_free(bookings, photographer_id, date, slot.start_hour as int, hours)
}

/// The order of slots: by start, then by end.
pub open spec fn slot_before(a: Slot, b: Slot) -> bool {
    a.start_hour < b.start_hour || (a.start_hour == b.start_hour && a.end_hour < b.end_hour)
}

/// Whether each slot of the list comes before the next, so that none occurs twice.
pub open spec fn strictly_ascending(slots: Seq<Slot>) -> bool {
    forall|i: int, j: int| 0 <= i < j < slots.len() ==> slot_before(#[trigger] slots[i], #[trigger] slots[j])
}

/// Whether `slots` lists the free slots, all of them and nothing else, in ascending order.
pub open spec fn lists_free_slots(
    slots: Seq<Slot>,
    start: int,
    end: int,
    hours: int,
    bookings: Seq<Booking>,
    photographer_id: i32,
    date: Date,
) -> bool {
    &&& strictly_ascending(slots)
    &&& forall|slot: Slot| #[trigger]
        slots.contains(slot) <==> is_free_slot(slot, start, end, hours, bookings, photographer_id, date)
}

/// Rounds a duration in minutes up to whole hours.
pub fn hours_for(minutes: i32) -> (hours: i64)
    ensures
        hours == duration_hours(minutes as int),
{
    let m: i64 = minutes as i64;
    if m > 0 {
        (m + 59) / 60
    } else {
        -((-m) / 60)
    }
}

/// Whether no live booking of the photographer on that date touches the
/// `hours` hours that begin at `hour`.
pub fn check_hour_free(
    bookings: &Vec<Booking>,
    photographer_id: i32,
    date: Date,
    hour: i64,
    hours: i64,
) -> (free: bool)
    ensures
        free == hour_is_free(bookings@, photographer_id, date, hour as int, hours as int),
{
    let from: i128 = 60 * (hour as i128);
    let until: i128 = 60 * (hour as i128 + hours as i128);
    let mut i: usize = 0;
    while i < bookings.len()
        invariant
            i <= bookings.len(),
            from == 60 * hour,
            until == 60 * (hour + hours),
            forall|k: int|
                0 <= k < i ==> !(#[trigger] bookings@[k]).blocks(
                    photographer_id,
                    date,
                    from as int,
                    until as int,
                ),
        decreases bookings.len() - i,
    {
        if bookings[i].check_blocks(photographer_id, date, from, until) {
            return false;
        }
        i += 1;
    }
    true
}

/// The free slots of one photographer on one date: every whole hour `h` from
/// `start_hour` on, as long as the service still ends by `end_hour`, whose
/// window no live booking touches; in ascending order.
pub fn free_slots(
    start_hour: i32,
    end_hour: i32,
    duration_minutes: i32,
    bookings: &Vec<Booking>,
    photographer_id: i32,
    date: Date,
) -> (slots: Vec<Slot>)
    ensures
        lists_free_slots(
            slots@,
            start_hour as int,
            end_hour as int,
            duration_hours(duration_minutes as int),
            bookings@,
            photographer_id,
            date,
        ),
{
    let hours = hours_for(duration_minutes);
    let mut slots: Vec<Slot> = Vec::new();
    let mut hour: i64 = start_hour as i64;
    let last: i64 = end_hour as i64 - hours;
    while hour <= last
        invariant
            hours == duration_hours(duration_minutes as int),
            -35791395 <= hours <= 35791395,
            last == end_hour - hours,
            start_hour <= hour,
            hour <= last + 1 || hour == start_hour,
            strictly_ascending(slots@),
            forall|slot: Slot| #[trigger]
                slots@.contains(slot) <==> (slot.start_hour < hour && is_free_slot(
                    slot,
                    start_hour as int,
                    end_hour as int,
                    hours as int,
                    bookings@,
                    photographer_id,
                    date,
                )),
        decreases last - hour + 1,
    {
        let ghost before = slots@;
        if check_hour_free(bookings, photographer_id, date, hour, hours) {
            let slot = Slot { start_hour: hour, end_hour: hour + hours };
            slots.push(slot);
            proof {
                assert forall|i: int, j: int| 0 <= i < j < slots@.len() implies slot_before(
                    #[trigger] slots@[i],
                    #[trigger] slots@[j],
                ) by {
                    if j == before.len() {
                        assert(before.contains(before[i]));
                    }
                }
                assert forall|other: Slot| #[trigger]
                    slots@.contains(other) <==> (other.start_hour < hour + 1 && is_free_slot(
                        other,
                        start_hour as int,
                        end_hour as int,
                        hours as int,
                        bookings@,
                        photographer_id,
                        date,
                    )) by {
                    vstd::seq_lib::lemma_seq_contains_after_push(before, slot, other);
                    assert(before.contains(other) ==> other.start_hour < hour);
                }
            }
        }
        hour = hour + 1;
    }
    slots
}

/// With no booking at all, the free slots are one for every whole hour from
/// the start of the window on, as long as the service ends within the window.
pub proof fn lemma_free_slots_of_empty_day(
    slots: Seq<Slot>,
    start: i32,
    end: i32,
    duration_minutes: i32,
    photographer_id: i32,
    date: Date,
)
    requires
        lists_free_slots(
            slots,
            start as int,
            end as int,
            duration_hours(duration_minutes as int),
            Seq::empty(),
            photographer_id,
            date,
        ),
    ensures
        slots.len() == if end - duration_hours(duration_minutes as int) >= start {
            end - duration_hours(duration_minutes as int) - start + 1
        } else {
            0
        },
        forall|i: int|
            0 <= i < slots.len() ==> (#[trigger] slots[i]).start_hour == start + i && slots[i].end_hour
                == start + i + duration_hours(duration_minutes as int),
{
    let hours = duration_hours(duration_minutes as int);
    assert forall|i: int| 0 <= i < slots.len() implies (#[trigger] slots[i]).start_hour == start + i
        && slots[i].end_hour == start + i + hours by {
        lemma_nth_slot_of_empty_day(slots, start, end, duration_minutes, photographer_id, date, i);
    }
    let n = slots.len() as int;
    if n > 0 {
        lemma_nth_slot_of_empty_day(slots, start, end, duration_minutes, photographer_id, date, n - 1);
        assert(slots.contains(slots[n - 1]));
    }
    if end - hours >= start {
        let h = end - hours;
        let slot = Slot { start_hour: h as i64, end_hour: (h + hours) as i64 };
        assert(is_free_slot(slot, start as int, end as int, hours, Seq::empty(), photographer_id, date));
        assert(slots.contains(slot));
        let k = choose|k: int| 0 <= k < slots.len() && slots[k] == slot;
        lemma_nth_slot_of_empty_day(slots, start, end, duration_minutes, photographer_id, date, k);
    }
}

/// On a day without bookings the slot at position `i` begins `i` hours after the start of the window.
proof fn lemma_nth_slot_of_empty_day(
    slots: Seq<Slot>,
    start: i32,
    end: i32,
    duration_minutes: i32,
    photographer_id: i32,
    date: Date,
    i: int,
)
    requires
        lists_free_slots(
            slots,
            start as int,
            end as int,
            duration_hours(duration_minutes as int),
            Seq::empty(),
            photographer_id,
            date,
        ),
        0 <= i < slots.len(),
    ensures
        slots[i].start_hour == start + i,
        slots[i].end_hour == start + i + duration_hours(duration_minutes as int),
    decreases i,
{
    let hours = duration_hours(duration_minutes as int);
    assert(slots.contains(slots[i]));
    if i > 0 {
        lemma_nth_slot_of_empty_day(slots, start, end, duration_minutes, photographer_id, date, i - 1);
        assert(slots.contains(slots[i - 1]));
        assert(slot_before(slots[i - 1], slots[i]));
    }
    if slots[i].start_hour > start + i {
        let h = start + i;
        let slot = Slot { start_hour: h as i64, end_hour: (h + hours) as i64 };
        assert(is_free_slot(slot, start as int, end as int, hours, Seq::empty(), photographer_id, date));
        assert(slots.contains(slot));
        let j = choose|j: int| 0 <= j < slots.len() && slots[j] == slot;
        if j > i {
            assert(slot_before(slots[i], slots[j]));
        } else if j < i {
            if j < i - 1 {
                assert(slot_before(slots[j], slots[i - 1]));
            }
        }
    }
}

/// A window of the working day is missing from the free slots exactly when a
/// live booking of that photographer and date overlaps it: the window begins
/// before the booking ends and ends after the booking begins.
pub proof fn lemma_slot_excluded_iff_booked(
    slots: Seq<Slot>,
    start: int,
    end: int,
    hours: int,
    bookings: Seq<Booking>,
    photographer_id: i32,
    date: Date,
    slot: Slot,
)
    requires
        lists_free_slots(slots, start, end, hours, bookings, photographer_id, date),
        slot.end_hour == slot.start_hour + hours,
        start <= slot.start_hour,
        slot.end_hour <= end,
    ensures
        !slots.contains(slot) <==> exists|i: int|
            0 <= i < bookings.len() && (#[trigger] bookings[i]).is_live() && bookings[i].photographer_id
                == photographer_id && bookings[i].date == date && 60 * slot.start_hour
                < bookings[i].booking_end.minutes() && 60 * slot.end_hour
                > bookings[i].booking_start.minutes(),
{
    if !slots.contains(slot) {
        assert(!hour_is_free(bookings, photographer_id, date, slot.start_hour as int, hours));
        let i = choose|i: int|
            0 <= i < bookings.len() && (#[trigger] bookings[i]).blocks(
                photographer_id,
                date,
                60 * slot.start_hour,
                60 * (slot.start_hour + hours),
            );
        assert(bookings[i].is_live());
    }
}

/// Adds `slot` to an ascending list at its place, unless the list holds it already.
pub fn insert_slot(list: &mut Vec<Slot>, slot: Slot)
    requires
        strictly_ascending(old(list)@),
    ensures
        strictly_ascending(final(list)@),
        forall|other: Slot| #[trigger]
            final(list)@.contains(other) <==> (old(list)@.contains(other) || other == slot),
{
    let mut at: usize = 0;
    while at < list.len() && (list[at].start_hour < slot.start_hour || (list[at].start_hour
        == slot.start_hour && list[at].end_hour < slot.end_hour))
        invariant
            *list == *old(list),
            at <= list.len(),
            forall|k: int| 0 <= k < at ==> slot_before(#[trigger] list@[k], slot),
        decreases list.len() - at,
    {
        at += 1;
    }
    let ghost before = list@;
    if at < list.len() && list[at].start_hour == slot.start_hour && list[at].end_hour
        == slot.end_hour {
        proof {
            assert(before[at as int] == slot);
            assert(before.contains(slot));
        }
    } else {
        list.insert(at, slot);
        proof {
            let after = list@;
            assert(after == before.insert(at as int, slot));
            assert forall|i: int, j: int| 0 <= i < j < after.len() implies slot_before(
                #[trigger] after[i],
                #[trigger] after[j],
            ) by {
                if j < at {
                    assert(after[i] == before[i] && after[j] == before[j]);
                } else if j == at {
                    assert(after[i] == before[i]);
                } else if i < at {
                    assert(after[i] == before[i] && after[j] == before[j - 1]);
                    assert(slot_before(before[i], slot));
                    if at < before.len() && j - 1 > at {
                        assert(slot_before(before[at as int], before[j - 1]));
                    }
                } else if i == at {
                    assert(after[j] == before[j - 1]);
                    if j - 1 > at {
                        assert(slot_before(before[at as int], before[j - 1]));
                    }
                } else {
                    assert(after[i] == before[i - 1] && after[j] == before[j - 1]);
                }
            }
            assert forall|other: Slot| #[trigger]
                after.contains(other) <==> (before.contains(other) || other == slot) by {
                if after.contains(other) {
                    let k = choose|k: int| 0 <= k < after.len() && after[k] == other;
                    if k < at {
                        assert(before[k] == other);
                    } else if k > at {
                        assert(before[k - 1] == other);
                    }
                }
                if before.contains(other) {
                    let k = choose|k: int| 0 <= k < before.len() && before[k] == other;
                    if k < at {
                        assert(after[k] == other);
                    } else {
                        assert(after[k + 1] == other);
                    }
                }
                if other == slot {
                    assert(after[at as int] == other);
                }
            }
        }
    }
}

/// The slots of several lists as one ascending list without repetitions.
pub fn merge_slots(lists: &Vec<Vec<Slot>>) -> (merged: Vec<Slot>)
    ensures
        strictly_ascending(merged@),
        forall|slot: Slot| #[trigger]
            merged@.contains(slot) <==> exists|k: int|
                0 <= k < lists.len() && (#[trigger] lists[k])@.contains(slot),
{
    let mut merged: Vec<Slot> = Vec::new();
    let mut k: usize = 0;
    while k < lists.len()
        invariant
            k <= lists.len(),
            strictly_ascending(merged@),
            forall|slot: Slot| #[trigger]
                merged@.contains(slot) <==> exists|m: int|
                    0 <= m < k && (#[trigger] lists[m])@.contains(slot),
        decreases lists.len() - k,
    {
        let list = &lists[k];
        let mut i: usize = 0;
        while i < list.len()
            invariant
                k < lists.len(),
                list == lists[k as int],
                i <= list.len(),
                strictly_ascending(merged@),
                forall|slot: Slot| #[trigger]
                    merged@.contains(slot) <==> ((exists|m: int|
                        0 <= m < k && (#[trigger] lists[m])@.contains(slot)) || list@.take(
                        i as int,
                    ).contains(slot)),
            decreases list.len() - i,
        {
            let ghost before = merged@;
            insert_slot(&mut merged, list[i]);
            proof {
                assert(list@.take(i + 1) =~= list@.take(i as int).push(list@[i as int]));
                assert forall|slot: Slot| #[trigger]
                    merged@.contains(slot) <==> ((exists|m: int|
                        0 <= m < k && (#[trigger] lists[m])@.contains(slot)) || list@.take(
                        i + 1,
                    ).contains(slot)) by {
                    vstd::seq_lib::lemma_seq_contains_after_push(
                        list@.take(i as int),
                        list@[i as int],
                        slot,
                    );
                }
            }
            i += 1;
        }
        proof {
            assert(list@.take(list.len() as int) =~= list@);
            assert forall|slot: Slot| #[trigger]
                merged@.contains(slot) <==> exists|m: int|
                    0 <= m < k + 1 && (#[trigger] lists[m])@.contains(slot) by {
                if list@.contains(slot) {
                    assert(lists[k as int]@.contains(slot));
                }
            }
        }
        k += 1;
    }
    merged
}

/// A number as a clock shows hours: at least two digits.
pub open spec fn two_digit_text(n: int) -> Seq<char> {
    if 0 <= n < 10 {
        seq!['0', digit_char(n)]
    } else {
        signed_decimal(n)
    }
}

impl Slot {
    /// The label of the slot, such as `09:00-11:00`.
    pub open spec fn label_text(self) -> Seq<char> {
        two_digit_text(self.start_hour as int) + ":00-"@ + two_digit_text(self.end_hour as int)
            + ":00"@
    }

    /// The label of the slot, such as `09:00-11:00`.
    pub fn label(&self) -> (text: String)
        ensures
            text@ == self.label_text(),
    {
        let mut text = render_hour(self.start_hour);
        text.append(":00-");
        let end = render_hour(self.end_hour);
        text.append(end.as_str());
        text.append(":00");
        text
    }
}

/// Writes a number with at least two digits.
pub fn render_hour(n: i64) -> (text: String)
    ensures
        text@ == two_digit_text(n as int),
{
    if 0 <= n && n < 10 {
        let mut text = String::from_str("0");
        text.append(digit_text(n as u8));
        proof {
            reveal_strlit("0");
            assert(text@ =~= two_digit_text(n as int));
        }
        text
    } else {
        render_signed(n)
    }
}

/// The order of texts as a dictionary has it: the first character in which
/// two texts differ decides, and a text comes before those that continue it.
pub open spec fn text_before(a: Seq<char>, b: Seq<char>) -> bool {
    exists|k: int|
        0 <= k <= a.len() && k <= b.len() && #[trigger] a.take(k) == b.take(k) && (if k < a.len() {
            k < b.len() && (a[k] as int) < (b[k] as int)
        } else {
            k < b.len()
        })
}

/// An hour of up to two digits is written with exactly two.
pub proof fn lemma_two_digit_text(n: int)
    requires
        0 <= n <= 99,
    ensures
        two_digit_text(n) == seq![digit_char(n / 10), digit_char(n % 10)],
{
    if n >= 10 {
        assert(decimal((n / 10) as nat) == seq![digit_char(n / 10)]);
        assert(two_digit_text(n) =~= seq![digit_char(n / 10), digit_char(n % 10)]);
    } else {
        assert(two_digit_text(n) =~= seq![digit_char(n / 10), digit_char(n % 10)]);
    }
}

/// The characters of the label of a slot whose hours have up to two digits.
proof fn lemma_label_characters(slot: Slot)
    requires
        0 <= slot.start_hour <= 99,
        0 <= slot.end_hour <= 99,
    ensures
        slot.label_text() == seq![
            digit_char(slot.start_hour as int / 10),
            digit_char(slot.start_hour as int % 10),
            ':',
            '0',
            '0',
            '-',
            digit_char(slot.end_hour as int / 10),
            digit_char(slot.end_hour as int % 10),
            ':',
            '0',
            '0',
        ],
{
    lemma_two_digit_text(slot.start_hour as int);
    lemma_two_digit_text(slot.end_hour as int);
    reveal_strlit(":00-");
    reveal_strlit(":00");
    assert(":00-"@ =~= seq![':', '0', '0', '-']);
    assert(":00"@ =~= seq![':', '0', '0']);
    assert(slot.label_text() =~= seq![
        digit_char(slot.start_hour as int / 10),
        digit_char(slot.start_hour as int % 10),
        ':',
        '0',
        '0',
        '-',
        digit_char(slot.end_hour as int / 10),
        digit_char(slot.end_hour as int % 10),
        ':',
        '0',
        '0',
    ]);
}

/// Slots of hours with up to two digits stand in the order of their labels:
/// a list that ascends by hours ascends by label, as a dictionary would have it.
pub proof fn lemma_slots_ordered_as_labels(a: Slot, b: Slot)
    requires
        0 <= a.start_hour <= 99,
        0 <= a.end_hour <= 99,
        0 <= b.start_hour <= 99,
        0 <= b.end_hour <= 99,
    ensures
        slot_before(a, b) == text_before(a.label_text(), b.label_text()),
{
    lemma_label_characters(a);
    lemma_label_characters(b);
    let x = a.label_text();
    let y = b.label_text();
    if slot_before(a, b) {
        let k: int = if a.start_hour / 10 != b.start_hour / 10 {
            0
        } else if a.start_hour != b.start_hour {
            1
        } else if a.end_hour / 10 != b.end_hour / 10 {
            6
        } else {
            7
        };
        assert(x.take(k) =~= y.take(k));
        assert((x[k] as int) < (y[k] as int));
    }
    if text_before(x, y) {
        let k = choose|k: int|
            0 <= k <= x.len() && k <= y.len() && #[trigger] x.take(k) == y.take(k) && (if k < x.len() {
                k < y.len() && (x[k] as int) < (y[k] as int)
            } else {
                k < y.len()
            });
        assert forall|i: int| 0 <= i < k implies x[i] == y[i] by {
            assert(x.take(k)[i] == y.take(k)[i]);
        }
        if k >= 1 {
            assert(x[0] == y[0]);
        }
        if k >= 2 {
            assert(x[1] == y[1]);
        }
        if k >= 7 {
            assert(x[6] == y[6]);
        }
    }
}

} // verus!
