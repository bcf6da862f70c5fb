use vstd::prelude::*;
use std::collections::HashMap;
use crate::errors::MyError;

verus! {

broadcast use vstd::std_specs::hash::group_hash_axioms;

/// Mathematical model of a [`ConnectionState`]: the id counter, the live
/// table, and the full history of issued ids.
pub struct RegistryModel<T> {
    pub counter: u64,
    pub items: Map<u64, T>,
    pub issued: Seq<u64>,
}

impl<T> RegistryModel<T> {
    /// Well-formedness: the issued history is exactly 1, 2, ..., counter,
    /// and every live id was issued.
    pub open spec fn wf(&self) -> bool {
        &&& self.issued.len() == self.counter
        &&& forall|i: int| 0 <= i < self.issued.len() ==> self.issued[i] as int == i + 1
        &&& forall|k: u64| self.items.contains_key(k) ==> 1 <= k <= self.counter
    }
}

/// Per-session, id-keyed table of live resources.
///
/// Ids are handed out by a strictly increasing counter starting at 1 and are
/// never reused within a session, even after the resource is removed. The
/// table is exclusively owned by one session; concurrent callers must guard
/// it with the session's lock.
pub struct ConnectionState<T> {
    counter: u64,
    items: HashMap<u64, T>,
    issued: Ghost<Seq<u64>>,
}

impl<T> View for ConnectionState<T> {
    type V = RegistryModel<T>;

    closed spec fn view(&self) -> RegistryModel<T> {
        RegistryModel { counter: self.counter, items: self.items@, issued: self.issued@ }
    }
}

impl<T> ConnectionState<T> {
    /// Well-formedness of the table as seen through its model.
    pub open spec fn wf(&self) -> bool {
        self@.wf()
    }

    /// An empty table whose counter has issued nothing yet.
    pub fn new() -> (r: Self)
        ensures
            r.wf(),
            r@.counter == 0,
            r@.items =~= Map::<u64, T>::empty(),
            r@.issued =~= Seq::<u64>::empty(),
    {
        ConnectionState { counter: 0, items: HashMap::new(), issued: Ghost(Seq::empty()) }
    }

    /// The last id issued (0 when none was issued yet). Ids do not wrap:
    /// once this reaches `u64::MAX` no further id can be issued.
    pub fn last_id(&self) -> (r: u64)
        ensures
            r == self@.counter,
    {
        self.counter
    }

    /// Issues the next id: never 0, never a repeat within this session.
    pub fn new_id(&mut self) -> (id: u64)
        requires
            old(self).wf(),
            old(self)@.counter < u64::MAX,
        ensures
            final(self).wf(),
            id == old(self)@.counter + 1,
            final(self)@.counter == id,
            final(self)@.items == old(self)@.items,
            final(self)@.issued == old(self)@.issued.push(id),
    {
        self.counter = self.counter + 1;
        let id = self.counter;
        self.issued = Ghost(self.issued@.push(id));
        proof {
            assert forall|i: int| 0 <= i < self@.issued.len() implies self@.issued[i] as int == i
                + 1 by {
                if i + 1 < self@.issued.len() {
                    assert(self@.issued[i] == old(self)@.issued[i]);
                }
            }
            assert forall|k: u64| self@.items.contains_key(k) implies 1 <= k <= self@.counter by {
                assert(old(self)@.items.contains_key(k));
            }
        }
        id
    }

    /// Stores a freshly issued id. Overwriting a live id is not a defined
    /// operation: callers allocate and insert under one lock, with no other
    /// allocation in between.
    pub fn insert(&mut self, id: u64, item: T)
        requires
            old(self).wf(),
            1 <= id <= old(self)@.counter,
            !old(self)@.items.contains_key(id),
        ensures
            final(self).wf(),
            final(self)@.items == old(self)@.items.insert(id, item),
            final(self)@.counter == old(self)@.counter,
            final(self)@.issued == old(self)@.issued,
    {
        self.items.insert(id, item);
    }

    /// Removes an id and lets the stored handle's teardown run. Removing an
    /// id that is not live is a no-op: unload is idempotent and never errors.
    pub fn remove(&mut self, id: u64) -> (r: Result<(), MyError>)
        requires
            old(self).wf(),
        ensures
            final(self).wf(),
            final(self)@.items == old(self)@.items.remove(id),
            final(self)@.counter == old(self)@.counter,
            final(self)@.issued == old(self)@.issued,
            r == Ok::<(), MyError>(()),
    {
        self.items.remove(&id);
        proof {
            assert forall|k: u64| self@.items.contains_key(k) implies 1 <= k <= self@.counter by {
                assert(old(self)@.items.contains_key(k));
            }
        }
        Ok(())
    }

    /// Looks an id up; fails with `UnknownEntityId` exactly when the id is
    /// not live (never issued, or already removed).
    pub fn lookup(&self, id: u64) -> (r: Result<&T, MyError>)
        ensures
            match r {
                Ok(t) => self@.items.contains_key(id) && *t == self@.items[id],
                Err(e) => !self@.items.contains_key(id) && e == MyError::UnknownEntityId(id),
            },
    {
        match self.items.get(&id) {
            Some(t) => Ok(t),
            None => Err(MyError::UnknownEntityId(id)),
        }
    }

    /// Drops every live entry at session teardown. Ids stay consumed: the
    /// counter is not reset.
    pub fn clear(&mut self)
        requires
            old(self).wf(),
        ensures
            final(self).wf(),
            final(self)@.items =~= Map::<u64, T>::empty(),
            final(self)@.counter == old(self)@.counter,
            final(self)@.issued == old(self)@.issued,
    {
        self.items.clear();
    }
}

/// Law: ids are strictly increasing in the order they were issued, with no
/// repeats, whatever removals happened in between. The issued history grows
/// only through `new_id`, so this covers every interleaving of load and
/// unload calls in one session.
pub proof fn lemma_ids_strictly_increasing<T>(s: &ConnectionState<T>)
    requires
        s.wf(),
    ensures
        forall|i: int, j: int|
            0 <= i < j < s@.issued.len() ==> s@.issued[i] < s@.issued[j],
{
}

/// Law: every issued id is at least 1; `new_id` never returns 0.
pub proof fn lemma_ids_never_zero<T>(s: &ConnectionState<T>)
    requires
        s.wf(),
    ensures
        forall|i: int| 0 <= i < s@.issued.len() ==> s@.issued[i] >= 1,
{
}

} // verus!
