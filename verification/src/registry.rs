//! The registry: at most one record per user identifier.

use vstd::prelude::*;
use tokio::sync::mpsc::Receiver;
use crate::conduit::{open_conduit, receiver_bound, sender_bound, CONDUIT_CAPACITY};
use crate::registration::{RegistrationView, UserRegistration};
use crate::response::RelayError;

verus! {

/// One user's identifier with the user's record.
#[derive(Debug)]
struct Entry {
    user_id: String,
    record: UserRegistration,
}

/// `user_id` stands at index `i` of `entries`.
spec fn holds_at(entries: Seq<Entry>, user_id: Seq<char>, i: int) -> bool {
    0 <= i < entries.len() && entries[i].user_id@ == user_id
}

/// No identifier stands twice in `entries`.
spec fn distinct(entries: Seq<Entry>) -> bool {
    forall|i: int, j: int|
        0 <= i < j < entries.len() ==> entries[i].user_id@ != entries[j].user_id@
}

/// The map from each identifier in `entries` to the record beside it.
spec fn map_of(entries: Seq<Entry>) -> Map<Seq<char>, RegistrationView> {
    Map::new(
        |user_id: Seq<char>| exists|i: int| holds_at(entries, user_id, i),
        |user_id: Seq<char>| entries[choose|i: int| holds_at(entries, user_id, i)].record@,
    )
}

/// Among distinct entries, the one at `i` is what the map holds for its
/// identifier.
proof fn lemma_entry(entries: Seq<Entry>, i: int)
    requires
        distinct(entries),
        0 <= i < entries.len(),
    ensures
        map_of(entries).contains_key(entries[i].user_id@),
        map_of(entries)[entries[i].user_id@] == entries[i].record@,
{
    let user_id = entries[i].user_id@;
    assert(holds_at(entries, user_id, i));
    let j = choose|j: int| holds_at(entries, user_id, j);
    assert(holds_at(entries, user_id, j));
    if i < j {
        assert(entries[i].user_id@ != entries[j].user_id@);
    } else if j < i {
        assert(entries[j].user_id@ != entries[i].user_id@);
    }
}

/// Replacing the entry of an identifier replaces its record in the map.
proof fn lemma_update(entries: Seq<Entry>, i: int, entry: Entry)
    requires
        distinct(entries),
        holds_at(entries, entry.user_id@, i),
    ensures
        distinct(entries.update(i, entry)),
        map_of(entries.update(i, entry)) == map_of(entries).insert(entry.user_id@, entry.record@),
{
    let after = entries.update(i, entry);
    assert(distinct(after)) by {
        assert forall|a: int, b: int| 0 <= a < b < after.len() implies after[a].user_id@
            != after[b].user_id@ by {
            assert(entries[a].user_id@ != entries[b].user_id@);
        }
    }
    let left = map_of(after);
    let right = map_of(entries).insert(entry.user_id@, entry.record@);
    assert forall|user_id: Seq<char>| left.contains_key(user_id) <==> right.contains_key(
        user_id,
    ) by {
        if left.contains_key(user_id) {
            let k = choose|k: int| holds_at(after, user_id, k);
            assert(holds_at(entries, user_id, k));
        }
        if right.contains_key(user_id) {
            if user_id == entry.user_id@ {
                assert(holds_at(after, user_id, i));
            } else {
                let k = choose|k: int| holds_at(entries, user_id, k);
                assert(holds_at(after, user_id, k));
            }
        }
    }
    assert forall|user_id: Seq<char>| left.contains_key(user_id) implies left[user_id]
        == right[user_id] by {
        let k = choose|k: int| holds_at(after, user_id, k);
        lemma_entry(after, k);
        if k != i {
            lemma_entry(entries, k);
        }
    }
    assert(left =~= right);
}

/// Appending the entry of a new identifier adds its record to the map.
proof fn lemma_push(entries: Seq<Entry>, entry: Entry)
    requires
        distinct(entries),
        !map_of(entries).contains_key(entry.user_id@),
    ensures
        distinct(entries.push(entry)),
        map_of(entries.push(entry)) == map_of(entries).insert(entry.user_id@, entry.record@),
{
    let after = entries.push(entry);
    let n = entries.len() as int;
    assert(distinct(after)) by {
        assert forall|a: int, b: int| 0 <= a < b < after.len() implies after[a].user_id@
            != after[b].user_id@ by {
            if b < n {
                assert(entries[a].user_id@ != entries[b].user_id@);
            } else {
                assert(!holds_at(entries, entry.user_id@, a));
            }
        }
    }
    let left = map_of(after);
    let right = map_of(entries).insert(entry.user_id@, entry.record@);
    assert forall|user_id: Seq<char>| left.contains_key(user_id) <==> right.contains_key(
        user_id,
    ) by {
        if left.contains_key(user_id) {
            let k = choose|k: int| holds_at(after, user_id, k);
            if k < n {
                assert(holds_at(entries, user_id, k));
            }
        }
        if right.contains_key(user_id) {
            if user_id == entry.user_id@ {
                assert(holds_at(after, user_id, n));
            } else {
                let k = choose|k: int| holds_at(entries, user_id, k);
                assert(holds_at(after, user_id, k));
            }
        }
    }
    assert forall|user_id: Seq<char>| left.contains_key(user_id) implies left[user_id]
        == right[user_id] by {
        let k = choose|k: int| holds_at(after, user_id, k);
        lemma_entry(after, k);
        if k < n {
            lemma_entry(entries, k);
        }
    }
    assert(left =~= right);
}

/// The users that can be reached, each with one record.
#[derive(Debug)]
pub struct Registry {
    entries: Vec<Entry>,
}

impl Registry {
    /// No identifier is held twice.
    pub closed spec fn wf(&self) -> bool {
        distinct(self.entries@)
    }

    /// The registry as a map from identifiers to records.
    pub closed spec fn view(&self) -> Map<Seq<char>, RegistrationView> {
        map_of(self.entries@)
    }

    /// An empty registry.
    pub fn new() -> (r: Registry)
        ensures
            r.wf(),
            r@ == Map::<Seq<char>, RegistrationView>::empty(),
    {
        let r = Registry { entries: Vec::new() };
        assert(r@ =~= Map::<Seq<char>, RegistrationView>::empty());
        r
    }

    /// The index at which `user_id` stands.
    fn position(&self, user_id: &String) -> (r: Option<usize>)
        requires
            self.wf(),
        ensures
            r is Some <==> self@.contains_key(user_id@),
            r matches Some(i) ==> holds_at(self.entries@, user_id@, i as int) && self@[user_id@]
                == self.entries@[i as int].record@,
    {
        let mut i: usize = 0;
        while i < self.entries.len()
            invariant
                0 <= i <= self.entries.len(),
                self.wf(),
                forall|k: int| 0 <= k < i ==> !holds_at(self.entries@, user_id@, k),
            decreases self.entries.len() - i,
        {
            if self.entries[i].user_id == *user_id {
                proof {
                    lemma_entry(self.entries@, i as int);
                }
                return Some(i);
            }
            i += 1;
        }
        None
    }

    /// Whether `user_id` is registered.
    pub fn contains(&self, user_id: &String) -> (r: bool)
        requires
            self.wf(),
        ensures
            r == self@.contains_key(user_id@),
    {
        self.position(user_id).is_some()
    }

    /// Stores `record` for `user_id`. A record that the user had is replaced
    /// whole, a stream attached to it included; every other user's record
    /// stays.
    pub fn register(&mut self, user_id: String, record: UserRegistration)
        requires
            old(self).wf(),
        ensures
            final(self).wf(),
            final(self)@ == old(self)@.insert(user_id@, record@),
    {
        let found = self.position(&user_id);
        let entry = Entry { user_id, record };
        match found {
            Some(i) => {
                proof {
                    lemma_update(self.entries@, i as int, entry);
                    assert(self.entries@.remove(i as int).insert(i as int, entry)
                        =~= self.entries@.update(i as int, entry));
                }
                self.entries.remove(i);
                self.entries.insert(i, entry);
            },
            None => {
                proof {
                    lemma_push(self.entries@, entry);
                }
                self.entries.push(entry);
            },
        }
    }

    /// The record of `user_id`, or `NotFound` where the user is not
    /// registered.
    pub fn lookup(&self, user_id: &String) -> (r: Result<&UserRegistration, RelayError>)
        requires
            self.wf(),
        ensures
            r is Ok <==> self@.contains_key(user_id@),
            r matches Ok(record) ==> record@ == self@[user_id@],
            r matches Err(e) ==> e is NotFound,
    {
        match self.position(user_id) {
            Some(i) => Ok(&self.entries[i].record),
            None => Err(RelayError::NotFound),
        }
    }

    /// Opens a conduit of [`CONDUIT_CAPACITY`] messages for a registered user
    /// and stores its producing end in the user's record, in place of one that
    /// was attached before; the subscription stays. The consuming end is
    /// returned. For an unregistered user the registry stays as it was.
    pub fn attach_stream(&mut self, user_id: &String) -> (r: Result<Receiver<String>, RelayError>)
        requires
            old(self).wf(),
        ensures
            final(self).wf(),
            r is Ok <==> old(self)@.contains_key(user_id@),
            r matches Err(e) ==> e is NotFound && final(self)@ == old(self)@,
            r matches Ok(receiver) ==> {
                &&& receiver_bound(receiver) == CONDUIT_CAPACITY
                &&& final(self)@.contains_key(user_id@)
                &&& final(self)@[user_id@].sse_sender matches Some(sender)
                &&& sender_bound(sender) == CONDUIT_CAPACITY
                &&& final(self)@ == old(self)@.insert(
                    user_id@,
                    old(self)@[user_id@].with_stream(sender),
                )
            },
    {
        match self.position(user_id) {
            Some(i) => {
                let (sender, receiver) = open_conduit();
                let before = self.entries.remove(i);
                let entry = Entry {
                    user_id: before.user_id,
                    record: UserRegistration {
                        sse_sender: Some(sender),
                        endpoint: before.record.endpoint,
                        p256dh: before.record.p256dh,
                        auth: before.record.auth,
                    },
                };
                proof {
                    lemma_update(old(self).entries@, i as int, entry);
                    assert(old(self).entries@.remove(i as int).insert(i as int, entry)
                        =~= old(self).entries@.update(i as int, entry));
                    assert(entry.record@ == old(self)@[user_id@].with_stream(sender));
                }
                self.entries.insert(i, entry);
                proof {
                    lemma_entry(self.entries@, i as int);
                }
                Ok(receiver)
            },
            None => Err(RelayError::NotFound),
        }
    }
}

/// Registering a user twice leaves the registry as registering the second
/// record alone: the first is gone whole, and nothing else has changed.
pub proof fn lemma_register_replaces(
    registry: Map<Seq<char>, RegistrationView>,
    user_id: Seq<char>,
    first: RegistrationView,
    second: RegistrationView,
)
    ensures
        registry.insert(user_id, first).insert(user_id, second) == registry.insert(
            user_id,
            second,
        ),
        registry.insert(user_id, first).insert(user_id, second)[user_id] == second,
        forall|other: Seq<char>|
            other != user_id ==> registry.insert(user_id, first).insert(
                user_id,
                second,
            ).contains_key(other) == registry.contains_key(other),
{
    assert(registry.insert(user_id, first).insert(user_id, second) =~= registry.insert(
        user_id,
        second,
    ));
}

} // verus!
