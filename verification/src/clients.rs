//! The clients of the studio: registered on consent, archived when consent is revoked.

use crate::models::{ArchivedClient, Client};
use vstd::prelude::*;

verus! {

/// The active clients and the archive of those who revoked consent.
pub struct ClientRegistry {
    active: Vec<Client>,
    archive: Vec<ArchivedClient>,
    issued: i32,
}

/// The position of the active client with the given chat identity.
pub open spec fn position_of(active: Seq<Client>, telegram_id: i64) -> Option<int> {
    if exists|i: int| 0 <= i < active.len() && (#[trigger] active[i]).telegram_id == telegram_id {
        Some(choose|i: int| 0 <= i < active.len() && (#[trigger] active[i]).telegram_id == telegram_id)
    } else {
        None
    }
}

/// How many active clients have the given chat identity.
pub open spec fn active_rows(active: Seq<Client>, telegram_id: i64) -> nat
    decreases active.len(),
{
    if active.len() == 0 {
        0
    } else {
        active_rows(active.drop_last(), telegram_id) + if active.last().telegram_id == telegram_id {
            1nat
        } else {
            0nat
        }
    }
}

/// Without a client of that identity there are no rows of it.
pub proof fn lemma_no_rows(active: Seq<Client>, telegram_id: i64)
    requires
        forall|i: int| 0 <= i < active.len() ==> (#[trigger] active[i]).telegram_id != telegram_id,
    ensures
        active_rows(active, telegram_id) == 0,
    decreases active.len(),
{
    if active.len() > 0 {
        let rest = active.drop_last();
        assert forall|i: int| 0 <= i < rest.len() implies (#[trigger] rest[i]).telegram_id
            != telegram_id by {
            assert(rest[i] == active[i]);
        }
        lemma_no_rows(rest, telegram_id);
        assert(active.last() == active[active.len() - 1]);
    }
}

impl ClientRegistry {
    /// The active clients.
    pub closed spec fn active(&self) -> Seq<Client> {
        self.active@
    }

    /// The archived records, oldest first.
    pub closed spec fn archive(&self) -> Seq<ArchivedClient> {
        self.archive@
    }

    /// The last client number given out.
    pub closed spec fn issued(&self) -> int {
        self.issued as int
    }

    /// The invariant of the registry: no two active clients share a chat
    /// identity or a number, and every number has been given out.
    pub open spec fn well_formed(&self) -> bool {
        &&& 0 <= self.issued()
        &&& forall|i: int|
            0 <= i < self.active().len() ==> 1 <= (#[trigger] self.active()[i]).id <= self.issued()
        &&& forall|i: int, j: int|
            0 <= i < j < self.active().len() ==> (#[trigger] self.active()[i]).telegram_id != (
            #[trigger] self.active()[j]).telegram_id && self.active()[i].id != self.active()[j].id
    }

    /// The number of the active client with the given chat identity.
    pub open spec fn client_of(&self, telegram_id: i64) -> Option<i32> {
        match position_of(self.active(), telegram_id) {
            Some(i) => Some(self.active()[i].id),
            None => None,
        }
    }

    /// The number that a registration of the given chat identity answers:
    /// that of the client already registered, else the next number, `None`
    /// where the numbers have run out.
    pub open spec fn number_for(&self, telegram_id: i64) -> Option<i32> {
        match self.client_of(telegram_id) {
            Some(known) => Some(known),
            None => if self.issued() < i32::MAX {
                Some((self.issued() + 1) as i32)
            } else {
                None
            },
        }
    }

    /// A registry without clients.
    pub fn new() -> (registry: ClientRegistry)
        ensures
            registry.well_formed(),
            registry.active() == Seq::<Client>::empty(),
            registry.archive() == Seq::<ArchivedClient>::empty(),
            registry.issued() == 0,
    {
        ClientRegistry { active: Vec::new(), archive: Vec::new(), issued: 0 }
    }

    /// A registry with the given clients and archive, as they were written
    /// down before, and `issued` as the last number given out. `None` unless
    /// no two clients share a chat identity or a number and every number
    /// lies between 1 and `issued`.
    pub fn restore(active: Vec<Client>, archive: Vec<ArchivedClient>, issued: i32) -> (registry: Option<
        ClientRegistry,
    >)
        ensures
            match registry {
                Some(registry) => {
                    &&& registry.well_formed()
                    &&& registry.active() == active@
                    &&& registry.archive() == archive@
                    &&& registry.issued() == issued
                },
                None => {
                    ||| issued < 0
                    ||| exists|i: int| 0 <= i < active@.len() && !(1 <= (#[trigger] active@[i]).id <= issued)
                    ||| exists|i: int, j: int|
                        0 <= i < j < active@.len() && ((#[trigger] active@[i]).telegram_id == (
                        #[trigger] active@[j]).telegram_id || active@[i].id == active@[j].id)
                },
            },
    {
        if issued < 0 {
            return None;
        }
        let mut j: usize = 0;
        while j < active.len()
            invariant
                j <= active.len(),
                0 <= issued,
                forall|k: int| 0 <= k < j ==> 1 <= (#[trigger] active@[k]).id <= issued,
                forall|a: int, b: int|
                    0 <= a < b < j ==> (#[trigger] active@[a]).telegram_id != (#[trigger] active@[b]).telegram_id
                        && active@[a].id != active@[b].id,
            decreases active.len() - j,
        {
            if active[j].id < 1 || active[j].id > issued {
                return None;
            }
            let mut i: usize = 0;
            while i < j
                invariant
                    i <= j < active.len(),
                    forall|a: int|
                        0 <= a < i ==> (#[trigger] active@[a]).telegram_id != active@[j as int].telegram_id
                            && active@[a].id != active@[j as int].id,
                decreases j - i,
            {
                if active[i].telegram_id == active[j].telegram_id || active[i].id == active[j].id {
                    return None;
                }
                i += 1;
            }
            j += 1;
        }
        Some(ClientRegistry { active, archive, issued })
    }

    /// The active clients.
    pub fn clients(&self) -> (all: &Vec<Client>)
        ensures
            all@ == self.active(),
    {
        &self.active
    }

    /// The archived records.
    pub fn archived(&self) -> (all: &Vec<ArchivedClient>)
        ensures
            all@ == self.archive(),
    {
        &self.archive
    }

    /// The position of the active client with the given chat identity.
    fn locate(&self, telegram_id: i64) -> (found: Option<usize>)
        requires
            self.well_formed(),
        ensures
            match found {
                Some(i) => position_of(self.active(), telegram_id) == Some(i as int) && i
                    < self.active().len() && self.active()[i as int].telegram_id == telegram_id,
                None => position_of(self.active(), telegram_id) is None && forall|i: int|
                    0 <= i < self.active().len() ==> (#[trigger] self.active()[i]).telegram_id
                        != telegram_id,
            },
    {
        let mut i: usize = 0;
        while i < self.active.len()
            invariant
                self.well_formed(),
                i <= self.active.len(),
                forall|k: int| 0 <= k < i ==> (#[trigger] self.active@[k]).telegram_id != telegram_id,
            decreases self.active.len() - i,
        {
            if self.active[i].telegram_id == telegram_id {
                proof {
                    let chosen = choose|k: int|
                        0 <= k < self.active@.len() && (#[trigger] self.active@[k]).telegram_id
                            == telegram_id;
                    if chosen < i {
                    } else if chosen > i {
                        assert(self.active()[i as int].telegram_id != self.active()[chosen].telegram_id);
                    }
                }
                return Some(i);
            }
            i += 1;
        }
        None
    }

    /// The number of the active client with the given chat identity.
    pub fn find(&self, telegram_id: i64) -> (id: Option<i32>)
        requires
            self.well_formed(),
        ensures
            id == self.client_of(telegram_id),
    {
        match self.locate(telegram_id) {
            Some(i) => Some(self.active[i].id),
            None => None,
        }
    }

    /// The active client with the given number.
    pub fn get(&self, id: i32) -> (client: Option<&Client>)
        requires
            self.well_formed(),
        ensures
            match client {
                Some(client) => client.id == id && self.active().contains(*client),
                None => forall|i: int| 0 <= i < self.active().len() ==> (#[trigger] self.active()[i]).id != id,
            },
    {
        let mut i: usize = 0;
        while i < self.active.len()
            invariant
                i <= self.active.len(),
                forall|k: int| 0 <= k < i ==> (#[trigger] self.active@[k]).id != id,
            decreases self.active.len() - i,
        {
            if self.active[i].id == id {
                return Some(&self.active[i]);
            }
            i += 1;
        }
        None
    }

    /// Registers the client of the given chat identity, or brings the name
    /// and handle of the one already registered up to date: there is never
    /// a second active client of one identity. `None` where the numbers have
    /// run out; then nothing changes.
    pub fn register(&mut self, telegram_id: i64, name: String, username: String) -> (id: Option<i32>)
        requires
            old(self).well_formed(),
        ensures
            final(self).well_formed(),
            registers(*old(self), *final(self), telegram_id, name@, username@, id),
            id == old(self).number_for(telegram_id),
            id == final(self).client_of(telegram_id) || id is None,
    {
        match self.locate(telegram_id) {
            Some(i) => {
                let known = self.active[i].id;
                let ghost before = self.active@;
                self.active.set(i, Client { id: known, telegram_id, name, username });
                proof {
                    let after = self.active@;
                    assert forall|a: int, b: int| 0 <= a < b < after.len() implies (#[trigger] after[a]).telegram_id
                        != (#[trigger] after[b]).telegram_id && after[a].id != after[b].id by {
                        assert(before[a].telegram_id != before[b].telegram_id);
                        assert(before[a].id != before[b].id);
                    }
                    let chosen = choose|k: int|
                        0 <= k < after.len() && (#[trigger] after[k]).telegram_id == telegram_id;
                    if chosen < i {
                        assert(after[chosen].telegram_id != after[i as int].telegram_id);
                    } else if chosen > i {
                        assert(after[i as int].telegram_id != after[chosen].telegram_id);
                    }
                }
                Some(known)
            },
            None => {
                if self.issued == i32::MAX {
                    return None;
                }
                let id = self.issued + 1;
                let ghost before = self.active@;
                self.issued = id;
                self.active.push(Client { id, telegram_id, name, username });
                proof {
                    let after = self.active@;
                    assert(after.drop_last() =~= before);
                    assert forall|a: int, b: int| 0 <= a < b < after.len() implies (#[trigger] after[a]).telegram_id
                        != (#[trigger] after[b]).telegram_id && after[a].id != after[b].id by {
                        assert(after[a] == before[a]);
                        if b < before.len() {
                            assert(after[b] == before[b]);
                        }
                    }
                    assert(after[after.len() - 1].telegram_id == telegram_id);
                    let chosen = choose|k: int|
                        0 <= k < after.len() && (#[trigger] after[k]).telegram_id == telegram_id;
                    if chosen < after.len() - 1 {
                        assert(after[chosen] == before[chosen]);
                    }
                }
                Some(id)
            },
        }
    }

    /// Changes the name of the active client of the given chat identity.
    /// `false` where there is none; then nothing changes.
    pub fn rename(&mut self, telegram_id: i64, name: String) -> (renamed: bool)
        requires
            old(self).well_formed(),
        ensures
            final(self).well_formed(),
            renames(*old(self), *final(self), telegram_id, name@, renamed),
    {
        match self.locate(telegram_id) {
            Some(i) => {
                let known = self.active[i].id;
                let username = self.active[i].username.clone();
                let ghost before = self.active@;
                self.active.set(i, Client { id: known, telegram_id, name, username });
                proof {
                    let after = self.active@;
                    assert forall|a: int, b: int| 0 <= a < b < after.len() implies (#[trigger] after[a]).telegram_id
                        != (#[trigger] after[b]).telegram_id && after[a].id != after[b].id by {
                        assert(before[a].telegram_id != before[b].telegram_id);
                        assert(before[a].id != before[b].id);
                    }
                    let chosen = choose|k: int|
                        0 <= k < after.len() && (#[trigger] after[k]).telegram_id == telegram_id;
                    if chosen < i {
                        assert(after[chosen].telegram_id != after[i as int].telegram_id);
                    } else if chosen > i {
                        assert(after[i as int].telegram_id != after[chosen].telegram_id);
                    }
                }
                true
            },
            None => false,
        }
    }

    /// Revokes the consent of the client of the given chat identity: the
    /// client leaves the active clients, and one record with the same name
    /// and handle joins the archive. `false` where there is no such client;
    /// then nothing changes.
    pub fn revoke(&mut self, telegram_id: i64) -> (revoked: bool)
        requires
            old(self).well_formed(),
        ensures
            final(self).well_formed(),
            revokes(*old(self), *final(self), telegram_id, revoked),
    {
        match self.locate(telegram_id) {
            Some(i) => {
                let ghost before = self.active@;
                let ghost shelf = self.archive@;
                let client = self.active.remove(i);
                self.archive.push(
                    ArchivedClient {
                        telegram_id: client.telegram_id,
                        name: client.name,
                        username: client.username,
                    },
                );
                proof {
                    let after = self.active@;
                    assert(self.archive@.drop_last() =~= shelf);
                    assert forall|k: int| 0 <= k < after.len() implies (#[trigger] after[k]).telegram_id
                        != telegram_id && 1 <= after[k].id <= self.issued by {
                        if k < i {
                            assert(after[k] == before[k]);
                            assert(before[k].telegram_id != before[i as int].telegram_id);
                        } else {
                            assert(after[k] == before[k + 1]);
                            assert(before[i as int].telegram_id != before[k + 1].telegram_id);
                        }
                    }
                    assert forall|a: int, b: int| 0 <= a < b < after.len() implies (#[trigger] after[a]).telegram_id
                        != (#[trigger] after[b]).telegram_id && after[a].id != after[b].id by {
                        let a0 = if a < i { a } else { a + 1 };
                        let b0 = if b < i { b } else { b + 1 };
                        assert(after[a] == before[a0] && after[b] == before[b0]);
                        assert(before[a0].telegram_id != before[b0].telegram_id);
                    }
                    lemma_no_rows(after, telegram_id);
                }
                true
            },
            None => {
                proof {
                    lemma_no_rows(self.active@, telegram_id);
                }
                false
            },
        }
    }
}

/// Whether `after` is the registry `before` once the client of the given
/// chat identity was registered with this name and handle, and `id` what
/// the registration answered: the client's number, old or new, or `None`
/// where a new client was due and the numbers had run out.
pub open spec fn registers(
    before: ClientRegistry,
    after: ClientRegistry,
    telegram_id: i64,
    name: Seq<char>,
    username: Seq<char>,
    id: Option<i32>,
) -> bool {
    &&& after.archive() == before.archive()
    &&& match before.client_of(telegram_id) {
        Some(known) => {
            &&& id == Some(known)
            &&& after.issued() == before.issued()
            &&& after.active().len() == before.active().len()
            &&& position_of(after.active(), telegram_id) == position_of(
                before.active(),
                telegram_id,
            )
            &&& forall|i: int|
                0 <= i < before.active().len() ==> {
                    let was = before.active()[i];
                    let now = #[trigger] after.active()[i];
                    if was.telegram_id == telegram_id {
                        &&& now.id == was.id
                        &&& now.telegram_id == telegram_id
                        &&& now.name@ == name
                        &&& now.username@ == username
                    } else {
                        now == was
                    }
                }
        },
        None => if before.issued() < i32::MAX {
            &&& id == Some((before.issued() + 1) as i32)
            &&& after.issued() == before.issued() + 1
            &&& after.active().len() == before.active().len() + 1
            &&& after.active().drop_last() == before.active()
            &&& after.active().last().id == before.issued() + 1
            &&& after.active().last().telegram_id == telegram_id
            &&& after.active().last().name@ == name
            &&& after.active().last().username@ == username
        } else {
            &&& id is None
            &&& after.active() == before.active()
            &&& after.issued() == before.issued()
        },
    }
}

/// Whether `after` is the registry `before` once the active client of the
/// given chat identity, if there is one, was given the name; `renamed` says whether there is one.
pub open spec fn renames(
    before: ClientRegistry,
    after: ClientRegistry,
    telegram_id: i64,
    name: Seq<char>,
    renamed: bool,
) -> bool {
    &&& after.archive() == before.archive()
    &&& after.issued() == before.issued()
    &&& renamed == before.client_of(telegram_id) is Some
    &&& after.client_of(telegram_id) == before.client_of(telegram_id)
    &&& after.active().len() == before.active().len()
    &&& forall|i: int|
        0 <= i < before.active().len() ==> {
            let was = before.active()[i];
            let now = #[trigger] after.active()[i];
            if was.telegram_id == telegram_id {
                &&& now.id == was.id
                &&& now.telegram_id == telegram_id
                &&& now.name@ == name
                &&& now.username == was.username
            } else {
                now == was
            }
        }
}

/// Whether `after` is the registry `before` once the consent of the client
/// of the given chat identity was revoked: the client has left the active
/// clients and one record of the client has joined the archive; `revoked`
/// says whether there was such a client.
pub open spec fn revokes(before: ClientRegistry, after: ClientRegistry, telegram_id: i64, revoked: bool) -> bool {
    &&& after.issued() == before.issued()
    &&& after.client_of(telegram_id) is None
    &&& active_rows(after.active(), telegram_id) == 0
    &&& match position_of(before.active(), telegram_id) {
        Some(at) => {
            &&& revoked
            &&& after.active() == before.active().remove(at)
            &&& after.archive().len() == before.archive().len() + 1
            &&& after.archive().drop_last() == before.archive()
            &&& after.archive().last().telegram_id == telegram_id
            &&& after.archive().last().name == before.active()[at].name
            &&& after.archive().last().username == before.active()[at].username
        },
        None => {
            &&& !revoked
            &&& after.active() == before.active()
            &&& after.archive() == before.archive()
        },
    }
}

/// After consent is revoked nobody is registered under that identity, so the
/// identity can register again, and that registration is a new client.
pub proof fn lemma_revoked_identity_is_unknown(active: Seq<Client>, telegram_id: i64)
    requires
        active_rows(active, telegram_id) == 0,
    ensures
        position_of(active, telegram_id) is None,
    decreases active.len(),
{
    if active.len() > 0 {
        let rest = active.drop_last();
        lemma_revoked_identity_is_unknown(rest, telegram_id);
        if position_of(active, telegram_id) is Some {
            let i = position_of(active, telegram_id).unwrap();
            if i < rest.len() {
                assert(rest[i].telegram_id == telegram_id);
            } else {
                assert(active.last() == active[i]);
            }
        }
    }
}

} // verus!
