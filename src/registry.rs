//! The registry of one message pattern: a map from a message kind's identity
//! to its channel entry, and the queue of removals deferred by handles that
//! were dropped without being closed.

use std::collections::HashMap;
use vstd::prelude::*;

verus! {

broadcast use vstd::std_specs::hash::group_hash_axioms;

/// Key of one message kind in a registry.
pub type Identity = usize;

/// The entry under a kind's identity holds a channel of another kind.
/// Identities are unique per kind, so this reports a broken invariant.
pub struct KindMismatch;

/// The map `m` once every identity in `queued` has been removed from it.
pub open spec fn drained<V>(m: Map<Identity, V>, queued: Seq<Identity>) -> Map<Identity, V> {
    m.remove_keys(queued.to_set())
}

/// One attempt to attach the single owner of `id`: it succeeds exactly when
/// `before` has no entry for `id`, and then adds one; a failed attempt changes
/// nothing.
pub open spec fn attached<V>(
    before: Map<Identity, V>,
    after: Map<Identity, V>,
    id: Identity,
    succeeded: bool,
) -> bool {
    &&& succeeded == !before.contains_key(id)
    &&& succeeded ==> after.contains_key(id) && after.remove(id) == before
    &&& !succeeded ==> after == before
}

/// A run of attach attempts for `id`, one after another, with no other
/// change in between: `maps[i]` is the registry before attempt `i`.
pub open spec fn attach_run<V>(maps: Seq<Map<Identity, V>>, outcomes: Seq<bool>, id: Identity) -> bool {
    &&& maps.len() == outcomes.len() + 1
    &&& forall|i: int|
        0 <= i < outcomes.len() ==> attached(maps[i], maps[i + 1], id, #[trigger] outcomes[i])
}

/// Once an attempt has succeeded, the entry stays for the rest of the run.
proof fn entry_stays<V>(maps: Seq<Map<Identity, V>>, outcomes: Seq<bool>, id: Identity, i: int, k: int)
    requires
        attach_run(maps, outcomes, id),
        0 <= i < k <= outcomes.len(),
        outcomes[i],
    ensures
        maps[k].contains_key(id),
    decreases k - i,
{
    let prev = k - 1;
    assert(attached(maps[prev], maps[prev + 1], id, outcomes[prev]));
    if k - 1 > i {
        entry_stays(maps, outcomes, id, i, k - 1);
    }
}

/// Single ownership: in a run of attach attempts for one identity, at most
/// one succeeds, and one does exactly when the identity had no entry when the
/// run began. Every later attempt observes the entry and fails until it is
/// removed.
pub proof fn at_most_one_owner<V>(maps: Seq<Map<Identity, V>>, outcomes: Seq<bool>, id: Identity)
    requires
        attach_run(maps, outcomes, id),
    ensures
        forall|i: int, j: int|
            0 <= i < outcomes.len() && 0 <= j < outcomes.len() && #[trigger] outcomes[i]
                && #[trigger] outcomes[j] ==> i == j,
        outcomes.len() > 0 ==> (outcomes[0] == !maps[0].contains_key(id)),
        forall|i: int|
            0 <= i < outcomes.len() && #[trigger] outcomes[i] ==> maps[outcomes.len() as int].contains_key(id),
{
    assert forall|i: int, j: int|
        0 <= i < outcomes.len() && 0 <= j < outcomes.len() && #[trigger] outcomes[i]
            && #[trigger] outcomes[j] implies i == j by {
        if i < j {
            entry_stays(maps, outcomes, id, i, j);
            assert(attached(maps[j], maps[j + 1], id, outcomes[j]));
        } else if j < i {
            entry_stays(maps, outcomes, id, j, i);
            assert(attached(maps[i], maps[i + 1], id, outcomes[i]));
        }
    }
    if outcomes.len() > 0 {
        assert(attached(maps[0], maps[1], id, outcomes[0]));
    }
    assert forall|i: int|
        0 <= i < outcomes.len() && #[trigger] outcomes[i] implies maps[outcomes.len() as int].contains_key(id) by {
        entry_stays(maps, outcomes, id, i, outcomes.len() as int);
    }
}

/// Closing hands the identity back: after the owner's entry is removed, the
/// next attach attempt succeeds.
pub proof fn attach_after_close<V>(
    open: Map<Identity, V>,
    after: Map<Identity, V>,
    id: Identity,
    succeeded: bool,
)
    requires
        attached(open.remove(id), after, id, succeeded),
    ensures
        succeeded,
        after.contains_key(id),
{
}

/// Deferred removal is applied: a removal queued for `id` takes its entry
/// away at the next drain of the queue, whatever else was queued, and entries
/// of identities never queued stay as they were.
pub proof fn deferred_removal_applied<V>(map: Map<Identity, V>, queued: Seq<Identity>, id: Identity)
    ensures
        !drained(map, queued.push(id)).contains_key(id),
        forall|k: Identity|
            k != id && !queued.contains(k) && map.contains_key(k) ==> #[trigger] drained(
                map,
                queued.push(id),
            ).contains_key(k) && drained(map, queued.push(id))[k] == map[k],
{
    queued.lemma_push_to_set_commute(id);
}

/// Identities whose entries wait for removal, with a flag that is set
/// exactly when one is waiting.
pub struct DeferredRemovals {
    ids: Vec<Identity>,
    dirty: bool,
}

impl View for DeferredRemovals {
    type V = Seq<Identity>;

    closed spec fn view(&self) -> Seq<Identity> {
        self.ids@
    }
}

impl DeferredRemovals {
    /// The flag is set exactly when the queue is not empty.
    pub closed spec fn wf(&self) -> bool {
        self.dirty == (self.ids.len() > 0)
    }

    /// An empty queue.
    pub fn new() -> (r: Self)
        ensures
            r.wf(),
            r@ == Seq::<Identity>::empty(),
    {
        DeferredRemovals { ids: Vec::new(), dirty: false }
    }

    /// Queues `id` for removal; never waits on the registry's lock.
    pub fn enqueue(&mut self, id: Identity)
        requires
            old(self).wf(),
        ensures
            final(self).wf(),
            final(self)@ == old(self)@.push(id),
    {
        self.ids.push(id);
        self.dirty = true;
    }

    /// Whether any removal is waiting.
    pub fn is_dirty(&self) -> (r: bool)
        requires
            self.wf(),
        ensures
            r == (self@.len() > 0),
    {
        self.dirty
    }

    /// Hands out the queued identities, in the order they were queued, and
    /// leaves the queue empty.
    pub fn take(&mut self) -> (r: Vec<Identity>)
        requires
            old(self).wf(),
        ensures
            final(self).wf(),
            r@ == old(self)@,
            final(self)@ == Seq::<Identity>::empty(),
    {
        let mut ids: Vec<Identity> = Vec::new();
        core::mem::swap(&mut ids, &mut self.ids);
        self.dirty = false;
        ids
    }
}

/// A map from identity to entry, holding at most one entry per identity.
pub struct TypeMap<V> {
    map: HashMap<Identity, V>,
}

impl<V> View for TypeMap<V> {
    type V = Map<Identity, V>;

    closed spec fn view(&self) -> Map<Identity, V> {
        self.map@
    }
}

impl<V> TypeMap<V> {
    /// An empty map.
    pub fn new() -> (r: Self)
        ensures
            r@ == Map::<Identity, V>::empty(),
    {
        TypeMap { map: HashMap::new() }
    }

    /// The entry of `id`, if there is one.
    pub fn get(&self, id: Identity) -> (r: Option<&V>)
        ensures
            r.is_some() == self@.contains_key(id),
            r matches Some(v) ==> *v == self@[id],
    {
        self.map.get(&id)
    }

    /// Whether `id` has an entry.
    pub fn contains_key(&self, id: Identity) -> (r: bool)
        ensures
            r == self@.contains_key(id),
    {
        self.map.contains_key(&id)
    }

    /// Stores `entry` under `id`, replacing the entry there was.
    pub fn insert(&mut self, id: Identity, entry: V)
        ensures
            final(self)@ == old(self)@.insert(id, entry),
    {
        self.map.insert(id, entry);
    }

    /// Removes the entry of `id` and returns it, if there was one.
    pub fn remove(&mut self, id: Identity) -> (r: Option<V>)
        ensures
            final(self)@ == old(self)@.remove(id),
            r.is_some() == old(self)@.contains_key(id),
            r matches Some(v) ==> v == old(self)@[id],
    {
        self.map.remove(&id)
    }

    /// Applies every deferred removal and empties the queue. Whoever takes
    /// the registry's exclusive lock calls this first, whatever it took the
    /// lock for.
    pub fn apply_deferred(&mut self, pending: &mut DeferredRemovals)
        requires
            old(pending).wf(),
        ensures
            final(pending).wf(),
            final(self)@ == drained(old(self)@, old(pending)@),
            final(pending)@ == Seq::<Identity>::empty(),
    {
        if !pending.is_dirty() {
            assert(old(pending)@.to_set() =~= Set::<Identity>::empty());
            assert(self@ =~= drained(old(self)@, old(pending)@));
            return;
        }
        let ids = pending.take();
        let n = ids.len();
        let mut i: usize = 0;
        while i < n
            invariant
                n == ids@.len(),
                ids@ == old(pending)@,
                0 <= i <= n,
                self@ == drained(old(self)@, ids@.take(i as int)),
            decreases n - i,
        {
            let id = ids[i];
            self.map.remove(&id);
            proof {
                assert(ids@.take(i as int + 1) =~= ids@.take(i as int).push(id));
                ids@.take(i as int).lemma_push_to_set_commute(id);
                assert(ids@.take(i as int + 1).to_set() =~= ids@.take(i as int).to_set().insert(id));
                assert(self@ =~= drained(old(self)@, ids@.take(i as int + 1)));
            }
            i = i + 1;
        }
        assert(ids@.take(n as int) =~= ids@);
    }
}

} // verus!
