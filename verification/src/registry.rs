//! The directory of currently connected subscribers.
//!
//! The registry owns the identifier space: ids come from a monotonically
//! increasing counter, so an id handed out by `connect` is never held by a
//! subscriber that is still connected. Every operation is meant to run under
//! one mutual-exclusion lock owned by the embedding program; a broadcast takes
//! a point-in-time snapshot (`plan_broadcast`) so the lock need not be held
//! while deliveries are in flight.

use vstd::prelude::*;

use crate::broadcast::Delivery;
use crate::messages::copy_prefix;
use crate::messages::Connect;
use crate::messages::Disconnect;
use crate::messages::SerialMessage;

verus! {

/// One registered subscriber: its id and its transport handle.
pub struct Entry<H> {
    pub id: usize,
    pub handle: H,
}

/// Whether some entry of `s` carries `id`.
pub open spec fn seq_contains_id<H>(s: Seq<Entry<H>>, id: usize) -> bool {
    exists|i: int| 0 <= i < s.len() && (#[trigger] s[i]).id == id
}

/// Whether no two entries of `s` carry the same id.
pub open spec fn distinct_ids<H>(s: Seq<Entry<H>>) -> bool {
    forall|i: int, j: int|
        0 <= i < j < s.len() ==> (#[trigger] s[i]).id != (#[trigger] s[j]).id
}

/// Whether every id in `s` is below `n`.
pub open spec fn ids_below<H>(s: Seq<Entry<H>>, n: usize) -> bool {
    forall|i: int| 0 <= i < s.len() ==> (#[trigger] s[i]).id < n
}

/// `s` without every entry that carries `id`.
pub open spec fn remove_id<H>(s: Seq<Entry<H>>, id: usize) -> Seq<Entry<H>>
    decreases s.len(),
{
    if s.len() == 0 {
        Seq::empty()
    } else if s.first().id == id {
        remove_id(s.drop_first(), id)
    } else {
        seq![s.first()] + remove_id(s.drop_first(), id)
    }
}

/// Removing an id that no entry carries changes nothing.
pub proof fn lemma_remove_id_absent<H>(s: Seq<Entry<H>>, id: usize)
    requires
        !seq_contains_id(s, id),
    ensures
        remove_id(s, id) == s,
    decreases s.len(),
{
    if s.len() == 0 {
        assert(remove_id(s, id) =~= s);
    } else {
        assert(s[0].id != id);
        assert(forall|i: int|
            0 <= i < s.drop_first().len() ==> (#[trigger] s.drop_first()[i]) == s[i + 1]);
        lemma_remove_id_absent(s.drop_first(), id);
        assert(remove_id(s, id) =~= s);
    }
}

/// After a removal, no entry carries the removed id.
pub proof fn lemma_remove_id_not_contains<H>(s: Seq<Entry<H>>, id: usize)
    ensures
        !seq_contains_id(remove_id(s, id), id),
    decreases s.len(),
{
    if s.len() > 0 {
        lemma_remove_id_not_contains(s.drop_first(), id);
        if s.first().id != id {
            let r = remove_id(s, id);
            let rest = remove_id(s.drop_first(), id);
            assert(forall|i: int| 0 < i < r.len() ==> (#[trigger] r[i]) == rest[i - 1]);
        }
    }
}

/// Every id carried by some entry after a removal was carried before.
pub proof fn lemma_remove_id_subset<H>(s: Seq<Entry<H>>, id: usize, id2: usize)
    requires
        seq_contains_id(remove_id(s, id), id2),
    ensures
        seq_contains_id(s, id2),
    decreases s.len(),
{
    if s.len() > 0 {
        let r = remove_id(s, id);
        let rest = remove_id(s.drop_first(), id);
        if s.first().id == id {
            lemma_remove_id_subset(s.drop_first(), id, id2);
            let i = choose|i: int| 0 <= i < s.drop_first().len()
                && (#[trigger] s.drop_first()[i]).id == id2;
            assert(s[i + 1].id == id2);
        } else {
            let k = choose|k: int| 0 <= k < r.len() && (#[trigger] r[k]).id == id2;
            if k == 0 {
                assert(s[0].id == id2);
            } else {
                assert(r[k] == rest[k - 1]);
                assert(seq_contains_id(rest, id2));
                lemma_remove_id_subset(s.drop_first(), id, id2);
                let i = choose|i: int| 0 <= i < s.drop_first().len()
                    && (#[trigger] s.drop_first()[i]).id == id2;
                assert(s[i + 1].id == id2);
            }
        }
    }
}

/// A removal keeps ids distinct and keeps every id below the same bound.
pub proof fn lemma_remove_id_wf<H>(s: Seq<Entry<H>>, id: usize, n: usize)
    requires
        distinct_ids(s),
        ids_below(s, n),
    ensures
        distinct_ids(remove_id(s, id)),
        ids_below(remove_id(s, id), n),
    decreases s.len(),
{
    if s.len() > 0 {
        assert(forall|i: int|
            0 <= i < s.drop_first().len() ==> (#[trigger] s.drop_first()[i]) == s[i + 1]);
        lemma_remove_id_wf(s.drop_first(), id, n);
        if s.first().id != id {
            let r = remove_id(s, id);
            let rest = remove_id(s.drop_first(), id);
            assert(forall|i: int| 0 < i < r.len() ==> (#[trigger] r[i]) == rest[i - 1]);
            assert forall|i: int, j: int| 0 <= i < j < r.len() implies
                (#[trigger] r[i]).id != (#[trigger] r[j]).id by {
                if i == 0 {
                    assert(seq_contains_id(rest, r[j].id));
                    lemma_remove_id_subset(s.drop_first(), id, r[j].id);
                    let m = choose|m: int| 0 <= m < s.drop_first().len()
                        && (#[trigger] s.drop_first()[m]).id == r[j].id;
                    assert(s[m + 1].id == r[j].id);
                    assert(s[0].id != s[m + 1].id);
                }
            }
        }
    }
}

/// Removing the same id twice leaves the same entries as removing it once
/// (idempotent disconnect).
pub proof fn lemma_remove_id_idempotent<H>(s: Seq<Entry<H>>, id: usize)
    ensures
        remove_id(remove_id(s, id), id) == remove_id(s, id),
{
    lemma_remove_id_not_contains(s, id);
    lemma_remove_id_absent(remove_id(s, id), id);
}

/// Directory of currently connected subscribers, keyed by subscriber id.
pub struct Registry<H> {
    pub next_id: usize,
    pub entries: Vec<Entry<H>>,
}

/// Exactly the state change a successful `connect` makes: one new entry
/// holding a fresh id appended, and the id counter advanced.
pub open spec fn connect_rel<H>(pre: Registry<H>, handle: H, post: Registry<H>, id: usize) -> bool {
    &&& id == pre.next_id
    &&& post.next_id == pre.next_id + 1
    &&& post.entries@ == pre.entries@.push((Entry { id: id, handle: handle }))
}

/// Exactly the state change a `disconnect` makes: the entry holding the id
/// goes, everything else stays.
pub open spec fn disconnect_rel<H>(pre: Registry<H>, id: usize, post: Registry<H>) -> bool {
    &&& post.next_id == pre.next_id
    &&& post.entries@ == remove_id(pre.entries@, id)
}

/// Whether `plan` is a faithful broadcast snapshot of `entries` for `payload`:
/// one delivery per entry, in order, each carrying exactly the payload bytes.
pub open spec fn plan_matches<H>(entries: Seq<Entry<H>>, payload: Seq<u8>, plan: Seq<Delivery>) -> bool {
    &&& plan.len() == entries.len()
    &&& forall|i: int| 0 <= i < plan.len() ==> (#[trigger] plan[i]).id == entries[i].id
    &&& forall|i: int| 0 <= i < plan.len() ==> (#[trigger] plan[i]).message.data@ == payload
}

impl<H> Registry<H> {
    /// Whether `id` is currently registered.
    pub open spec fn contains_sid(self, id: usize) -> bool {
        seq_contains_id(self.entries@, id)
    }

    /// Well-formed: no id is registered twice, and every registered id was
    /// allocated below the counter, so the next id is fresh.
    pub open spec fn wf(self) -> bool {
        &&& distinct_ids(self.entries@)
        &&& ids_below(self.entries@, self.next_id)
        &&& 1 <= self.next_id
    }

    /// Whether the id counter can still hand out a fresh id.
    pub open spec fn can_allocate(self) -> bool {
        self.next_id < usize::MAX
    }

    /// A registry with no subscribers; ids are handed out from 1 upward.
    pub fn new() -> (r: Registry<H>)
        ensures
            r.wf(),
            r.can_allocate(),
            r.entries@.len() == 0,
            r.next_id == 1,
    {
        Registry { next_id: 1, entries: Vec::new() }
    }

    /// The number of currently connected subscribers.
    pub fn len(&self) -> (n: usize)
        ensures
            n == self.entries@.len(),
    {
        self.entries.len()
    }

    /// Whether the id counter can still hand out a fresh id; `connect` asks
    /// for this.
    pub fn has_id_space(&self) -> (b: bool)
        ensures
            b == self.can_allocate(),
    {
        self.next_id < usize::MAX
    }

    /// Whether `id` is currently registered.
    pub fn contains(&self, id: usize) -> (b: bool)
        ensures
            b == self.contains_sid(id),
    {
        let mut i: usize = 0;
        while i < self.entries.len()
            invariant
                i <= self.entries@.len(),
                forall|k: int| 0 <= k < i ==> (#[trigger] self.entries@[k]).id != id,
            decreases self.entries@.len() - i,
        {
            if self.entries[i].id == id {
                return true;
            }
            i = i + 1;
        }
        false
    }

    /// Registers a subscriber handle and returns a fresh id held by no
    /// currently connected subscriber.
    pub fn connect(&mut self, msg: Connect<H>) -> (id: usize)
        requires
            old(self).wf(),
            old(self).can_allocate(),
        ensures
            final(self).wf(),
            connect_rel(*old(self), msg.addr, *final(self), id),
            !old(self).contains_sid(id),
            final(self).contains_sid(id),
    {
        let id = self.next_id;
        self.next_id = self.next_id + 1;
        self.entries.push(Entry { id, handle: msg.addr });
        proof {
            let post = self.entries@;
            assert(post[post.len() - 1].id == id);
            assert(forall|k: int|
                0 <= k < post.len() - 1 ==> (#[trigger] post[k]) == old(self).entries@[k]);
        }
        id
    }

    /// Removes the subscriber holding `msg.id`; a no-op when no subscriber
    /// holds it, so a second disconnect for the same id changes nothing.
    pub fn disconnect(&mut self, msg: Disconnect)
        requires
            old(self).wf(),
        ensures
            final(self).wf(),
            disconnect_rel(*old(self), msg.id, *final(self)),
            !final(self).contains_sid(msg.id),
    {
        let mut i: usize = 0;
        while i < self.entries.len()
            invariant
                *self == *old(self),
                old(self).wf(),
                i <= self.entries@.len(),
                forall|k: int| 0 <= k < i ==> (#[trigger] self.entries@[k]).id != msg.id,
            decreases self.entries@.len() - i,
        {
            if self.entries[i].id == msg.id {
                proof {
                    lemma_remove_unique_match(self.entries@, msg.id, i as int);
                    lemma_remove_id_wf(self.entries@, msg.id, self.next_id);
                    lemma_remove_id_not_contains(self.entries@, msg.id);
                }
                self.entries.remove(i);
                return;
            }
            i = i + 1;
        }
        proof {
            lemma_remove_id_absent(self.entries@, msg.id);
        }
    }

    /// The handle registered under `id`, if any.
    pub fn get_handle(&self, id: usize) -> (r: Option<&H>)
        ensures
            match r {
                Some(h) => exists|i: int| 0 <= i < self.entries@.len()
                    && (#[trigger] self.entries@[i]).id == id
                    && self.entries@[i].handle == *h,
                None => !self.contains_sid(id),
            },
    {
        let mut i: usize = 0;
        while i < self.entries.len()
            invariant
                i <= self.entries@.len(),
                forall|k: int| 0 <= k < i ==> (#[trigger] self.entries@[k]).id != id,
            decreases self.entries@.len() - i,
        {
            if self.entries[i].id == id {
                return Some(&self.entries[i].handle);
            }
            i = i + 1;
        }
        None
    }

    /// Takes the point-in-time snapshot of one broadcast: one planned delivery
    /// per currently connected subscriber, in registration order, each with
    /// its own byte-for-byte copy of the payload.
    pub fn plan_broadcast(&self, payload: &SerialMessage) -> (plan: Vec<Delivery>)
        ensures
            plan_matches(self.entries@, payload.data@, plan@),
    {
        let mut plan: Vec<Delivery> = Vec::new();
        let mut i: usize = 0;
        while i < self.entries.len()
            invariant
                i <= self.entries@.len(),
                plan@.len() == i,
                forall|k: int| 0 <= k < i ==> (#[trigger] plan@[k]).id == self.entries@[k].id,
                forall|k: int| 0 <= k < i ==> (#[trigger] plan@[k]).message.data@ == payload.data@,
            decreases self.entries@.len() - i,
        {
            let data = copy_prefix(&payload.data, payload.data.len());
            proof {
                assert(payload.data@.take(payload.data@.len() as int) =~= payload.data@);
            }
            plan.push(Delivery { id: self.entries[i].id, message: SerialMessage { data } });
            i = i + 1;
        }
        plan
    }
}

/// When exactly one entry carries `id` and it stands at position `j`, removing
/// the id is removing that entry.
proof fn lemma_remove_unique_match<H>(s: Seq<Entry<H>>, id: usize, j: int)
    requires
        distinct_ids(s),
        0 <= j < s.len(),
        s[j].id == id,
        forall|k: int| 0 <= k < j ==> (#[trigger] s[k]).id != id,
    ensures
        remove_id(s, id) == s.remove(j),
    decreases s.len(),
{
    assert(forall|i: int|
        0 <= i < s.drop_first().len() ==> (#[trigger] s.drop_first()[i]) == s[i + 1]);
    if j == 0 {
        assert(forall|k: int|
            0 <= k < s.drop_first().len() ==> (#[trigger] s.drop_first()[k]).id != id);
        lemma_remove_id_absent(s.drop_first(), id);
        assert(remove_id(s, id) =~= s.remove(0));
    } else {
        lemma_remove_unique_match(s.drop_first(), id, j - 1);
        assert(remove_id(s, id) =~= seq![s.first()] + s.drop_first().remove(j - 1));
        assert(seq![s.first()] + s.drop_first().remove(j - 1) =~= s.remove(j));
    }
}

/// Uniqueness of live ids: in a well-formed registry no two simultaneously
/// connected subscribers hold the same id.
pub proof fn lemma_live_ids_distinct<H>(r: Registry<H>, i: int, j: int)
    requires
        r.wf(),
        0 <= i < r.entries@.len(),
        0 <= j < r.entries@.len(),
        i != j,
    ensures
        r.entries@[i].id != r.entries@[j].id,
{
}

/// Uniqueness of handed-out ids: two connects, one after the other, return
/// distinct ids, and neither id was held before the first call; afterwards
/// both are registered.
pub proof fn lemma_connect_unique<H>(
    r0: Registry<H>,
    h1: H,
    r1: Registry<H>,
    id1: usize,
    h2: H,
    r2: Registry<H>,
    id2: usize,
)
    requires
        r0.wf(),
        connect_rel(r0, h1, r1, id1),
        connect_rel(r1, h2, r2, id2),
    ensures
        id1 != id2,
        !r0.contains_sid(id1),
        !r0.contains_sid(id2),
        r2.contains_sid(id1),
        r2.contains_sid(id2),
{
    assert(r2.entries@[r2.entries@.len() - 2].id == id1);
    assert(r2.entries@[r2.entries@.len() - 1].id == id2);
}

/// Idempotent disconnect: a second disconnect for the same id leaves the
/// registry exactly as the first left it.
pub proof fn lemma_disconnect_idempotent<H>(
    r0: Registry<H>,
    id: usize,
    r1: Registry<H>,
    r2: Registry<H>,
)
    requires
        disconnect_rel(r0, id, r1),
        disconnect_rel(r1, id, r2),
    ensures
        r2.entries@ == r1.entries@,
        r2.next_id == r1.next_id,
{
    lemma_remove_id_idempotent(r0.entries@, id);
}

/// Broadcast completeness: every subscriber registered when the snapshot was
/// taken has a planned delivery carrying exactly the payload bytes.
pub proof fn lemma_broadcast_complete<H>(r: Registry<H>, payload: Seq<u8>, plan: Seq<Delivery>)
    requires
        plan_matches(r.entries@, payload, plan),
    ensures
        forall|id: usize| r.contains_sid(id) ==> exists|k: int|
            0 <= k < plan.len() && (#[trigger] plan[k]).id == id
                && plan[k].message.data@ == payload,
{
    assert forall|id: usize| r.contains_sid(id) implies exists|k: int|
        0 <= k < plan.len() && (#[trigger] plan[k]).id == id
            && plan[k].message.data@ == payload by {
        let i = choose|i: int| 0 <= i < r.entries@.len() && (#[trigger] r.entries@[i]).id == id;
        assert(plan[i].id == id && plan[i].message.data@ == payload);
    }
}

/// Late joiner exclusion: an id returned by a connect that completes after a
/// broadcast snapshot was taken has no delivery in that snapshot.
pub proof fn lemma_late_joiner_excluded<H>(
    r0: Registry<H>,
    payload: Seq<u8>,
    plan: Seq<Delivery>,
    h: H,
    r1: Registry<H>,
    id: usize,
    k: int,
)
    requires
        r0.wf(),
        plan_matches(r0.entries@, payload, plan),
        connect_rel(r0, h, r1, id),
        0 <= k < plan.len(),
    ensures
        plan[k].id != id,
{
    assert(plan[k].id == r0.entries@[k].id);
}

} // verus!
