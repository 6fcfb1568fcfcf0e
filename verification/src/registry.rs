//! The subscription registry: a map from subscriber identity to delivery
//! endpoint, shared by the event broadcaster (which reads it for every
//! emitted event) and by external callers (which subscribe and unsubscribe).
//!
//! Identifiers are drawn from a counter that only grows, so every
//! subscription — however many callers race on the registry's lock — gets an
//! identifier that no earlier subscription ever held.  Entries are kept in
//! identifier order, which makes the identifiers of live entries pairwise
//! distinct by construction.

use vstd::prelude::*;

verus! {

/// Whether the identifiers in `s` are strictly increasing (hence pairwise
/// distinct).
pub open spec fn ids_strictly_increasing<E>(s: Seq<(u64, E)>) -> bool {
    forall|i: int, j: int| 0 <= i < j < s.len() ==> s[i].0 < s[j].0
}

/// Whether some entry of `s` carries the identifier `id`.
pub open spec fn contains_id<E>(s: Seq<(u64, E)>, id: u64) -> bool {
    exists|i: int| 0 <= i < s.len() && s[i].0 == id
}

/// The index of the first entry of `s` carrying `id`, or -1 if there is
/// none.
pub open spec fn index_of_id<E>(s: Seq<(u64, E)>, id: u64) -> int
    decreases s.len(),
{
    if s.len() == 0 {
        -1
    } else if s[0].0 == id {
        0
    } else {
        let r = index_of_id(s.drop_first(), id);
        if r < 0 {
            -1
        } else {
            r + 1
        }
    }
}

/// `index_of_id` finds an entry exactly when one exists, and what it finds
/// carries the identifier.
pub proof fn lemma_index_of_id_properties<E>(s: Seq<(u64, E)>, id: u64)
    ensures
        contains_id(s, id) <==> 0 <= index_of_id(s, id) < s.len(),
        contains_id(s, id) ==> s[index_of_id(s, id)].0 == id,
    decreases s.len(),
{
    if s.len() == 0 {
    } else if s[0].0 == id {
    } else {
        lemma_index_of_id_properties(s.drop_first(), id);
        if contains_id(s, id) {
            let w = choose|i: int| 0 <= i < s.len() && s[i].0 == id;
            assert(s.drop_first()[w - 1] == s[w]);
        }
        if contains_id(s.drop_first(), id) {
            let w = choose|i: int| 0 <= i < s.drop_first().len() && s.drop_first()[i].0 == id;
            assert(s[w + 1] == s.drop_first()[w]);
        }
    }
}

/// If all identifiers before `i` differ from `id` and the entry at `i`
/// carries `id`, then `i` is the index `index_of_id` finds.
pub proof fn lemma_index_of_id_found<E>(s: Seq<(u64, E)>, id: u64, i: int)
    requires
        0 <= i < s.len(),
        s[i].0 == id,
        forall|j: int| 0 <= j < i ==> s[j].0 != id,
    ensures
        index_of_id(s, id) == i,
    decreases i,
{
    if i == 0 {
    } else {
        assert(forall|j: int| 0 <= j < i - 1 ==> s.drop_first()[j].0 == s[j + 1].0);
        lemma_index_of_id_found(s.drop_first(), id, i - 1);
    }
}

/// The subscription registry.  `E` is the delivery endpoint type: anything
/// capable of receiving a broadcast event.
pub struct Registry<E> {
    entries: Vec<(u64, E)>,
    next_id: u64,
}

impl<E> View for Registry<E> {
    type V = Seq<(u64, E)>;

    /// The live entries, in subscription (= identifier) order.
    closed spec fn view(&self) -> Seq<(u64, E)> {
        self.entries@
    }
}

impl<E> Registry<E> {
    /// The identifier the next subscription will receive.  No identifier
    /// this registry ever handed out is `fresh_id` or larger.
    pub closed spec fn fresh_id(self) -> u64 {
        self.next_id
    }

    /// Well-formedness: entries are in strictly increasing identifier order
    /// and every identifier is below the counter.  Constructors establish
    /// this and every method preserves it.
    pub open spec fn wf(self) -> bool {
        &&& ids_strictly_increasing(self@)
        &&& forall|i: int| 0 <= i < self@.len() ==> self@[i].0 < self.fresh_id()
    }

    /// An empty registry.
    pub fn new() -> (r: Registry<E>)
        ensures
            r.wf(),
            r@ == Seq::<(u64, E)>::empty(),
            r.fresh_id() == 0,
    {
        Registry { entries: Vec::new(), next_id: 0 }
    }

    /// Register a delivery endpoint under a fresh identifier and return the
    /// identifier.  Never fails.  The identifier is the current counter
    /// value, which afterwards has grown past it: no earlier or later
    /// subscription of this registry returns the same identifier.
    pub fn subscribe(&mut self, endpoint: E) -> (id: u64)
        requires
            old(self).wf(),
            old(self).fresh_id() < u64::MAX,
        ensures
            final(self).wf(),
            id == old(self).fresh_id(),
            !contains_id(old(self)@, id),
            contains_id(final(self)@, id),
            final(self)@ == old(self)@.push((id, endpoint)),
            final(self).fresh_id() == old(self).fresh_id() + 1,
    {
        let id = self.next_id;
        self.entries.push((id, endpoint));
        self.next_id = self.next_id + 1;
        proof {
            assert(self@[self@.len() - 1].0 == id);
        }
        id
    }

    /// Remove the entry carrying `id`, if present; report whether removal
    /// occurred.  Unsubscribing an unknown or already-removed identifier
    /// returns false, not an error.  Other entries, their order and the
    /// counter are untouched.
    pub fn unsubscribe(&mut self, id: u64) -> (removed: bool)
        requires
            old(self).wf(),
        ensures
            final(self).wf(),
            removed == contains_id(old(self)@, id),
            removed ==> final(self)@ == old(self)@.remove(index_of_id(old(self)@, id)),
            !removed ==> final(self)@ == old(self)@,
            !contains_id(final(self)@, id),
            final(self).fresh_id() == old(self).fresh_id(),
    {
        let ghost s0 = old(self)@;
        let mut i: usize = 0;
        while i < self.entries.len()
            invariant
                i <= self.entries.len(),
                *self == *old(self),
                old(self).wf(),
                s0 == old(self)@,
                forall|j: int| 0 <= j < i ==> s0[j].0 != id,
            decreases self.entries.len() - i,
        {
            if self.entries[i].0 == id {
                proof {
                    assert(s0[i as int].0 == id);
                    lemma_index_of_id_found(s0, id, i as int);
                    assert(contains_id(s0, id));
                }
                self.entries.remove(i);
                proof {
                    let t = s0.remove(i as int);
                    assert forall|k: int| 0 <= k < t.len() implies t[k].0 != id && t[k].0
                        < old(self).fresh_id() by {
                        if k < i as int {
                            assert(t[k] == s0[k]);
                        } else {
                            assert(t[k] == s0[k + 1]);
                            assert(s0[i as int].0 < s0[k + 1].0);
                        }
                    }
                    assert(!contains_id(t, id));
                    assert forall|p: int, q: int| 0 <= p < q < t.len() implies t[p].0 < t[q].0 by {
                        if q < i as int {
                        } else if p < i as int {
                            assert(t[q] == s0[q + 1]);
                        } else {
                            assert(t[p] == s0[p + 1] && t[q] == s0[q + 1]);
                        }
                    }
                }
                return true;
            }
            i = i + 1;
        }
        proof {
            assert(!contains_id(s0, id));
        }
        false
    }

    /// The identifier the next subscription will receive; callers that must
    /// guard against counter exhaustion read it before subscribing.
    pub fn upcoming_id(&self) -> (id: u64)
        ensures
            id == self.fresh_id(),
    {
        self.next_id
    }

    /// The number of live entries.
    pub fn count(&self) -> (n: usize)
        ensures
            n == self@.len(),
    {
        self.entries.len()
    }

    /// The identifier of the entry at position `i` (subscription order).
    pub fn id_at(&self, i: usize) -> (id: u64)
        requires
            i < self@.len(),
        ensures
            id == self@[i as int].0,
    {
        self.entries[i].0
    }

    /// The delivery endpoint of the entry at position `i`.  The broadcaster
    /// copies the endpoints out under the registry's lock, releases it, and
    /// only then delivers, so a slow subscriber never blocks the registry.
    pub fn endpoint_at(&self, i: usize) -> (e: &E)
        requires
            i < self@.len(),
        ensures
            *e == self@[i as int].1,
    {
        &self.entries[i].1
    }

    /// Whether an entry carrying `id` is live.
    pub fn is_subscribed(&self, id: u64) -> (b: bool)
        requires
            self.wf(),
        ensures
            b == contains_id(self@, id),
    {
        let mut i: usize = 0;
        while i < self.entries.len()
            invariant
                i <= self.entries.len(),
                forall|j: int| 0 <= j < i ==> self@[j].0 != id,
            decreases self.entries.len() - i,
        {
            if self.entries[i].0 == id {
                proof {
                    assert(self@[i as int].0 == id);
                }
                return true;
            }
            i = i + 1;
        }
        false
    }
}

/// Law: `unsubscribe` is idempotent.  From any well-formed registry, a first
/// removal of a live identifier succeeds, and a second removal of the same
/// identifier finds nothing, reports false and changes nothing.  The two
/// relations below are exactly the contract of `unsubscribe`.
pub proof fn lemma_unsubscribe_idempotent<E>(
    s0: Seq<(u64, E)>,
    s1: Seq<(u64, E)>,
    first: bool,
    second: bool,
    id: u64,
)
    requires
        contains_id(s0, id),
        first == contains_id(s0, id),
        s1 == s0.remove(index_of_id(s0, id)),
        ids_strictly_increasing(s0),
        second == contains_id(s1, id),
    ensures
        first,
        !second,
{
    lemma_index_of_id_properties(s0, id);
    let i = index_of_id(s0, id);
    assert forall|k: int| 0 <= k < s1.len() implies s1[k].0 != id by {
        if k < i {
            assert(s1[k] == s0[k]);
        } else {
            assert(s1[k] == s0[k + 1]);
        }
    }
}

/// Law: no two subscriptions collide.  A subscription returns the counter at
/// its moment; the counter has grown past that value by the time any later
/// subscription reads it, and nothing ever lowers it — so the identifiers of
/// any two subscriptions, concurrent callers included (the registry
/// serializes them), are distinct.
pub proof fn lemma_subscription_ids_distinct<E>(
    r1: Registry<E>,
    id1: u64,
    r2: Registry<E>,
    id2: u64,
)
    requires
        id1 == r1.fresh_id(),
        r2.fresh_id() > id1,
        id2 == r2.fresh_id(),
    ensures
        id1 != id2,
{
}

/// Law: a new subscriber receives no past event.  Every event is delivered
/// to the identifiers registered at the moment of emission; an identifier
/// handed out later is at least the counter at that moment, and a
/// well-formed registry holds only identifiers below its counter — so no
/// delivery list computed before the subscription contains the new
/// identifier.
pub proof fn lemma_new_subscriber_gets_no_past_event<E>(at_emission: Registry<E>, id: u64)
    requires
        at_emission.wf(),
        id >= at_emission.fresh_id(),
    ensures
        !contains_id(at_emission@, id),
{
}

} // verus!
