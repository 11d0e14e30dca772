//! Broadcast: every payload goes to every subscriber of its kind.

use crate::registry::{DeferredRemovals, Identity, KindMismatch, TypeMap};
use crate::untyped_box::UntypedBox;
use tokio::sync::broadcast::{Receiver, Sender};
use vstd::prelude::*;

verus! {

#[verifier::external_type_specification]
#[verifier::external_body]
#[verifier::reject_recursive_types(T)]
pub struct ExFanoutSender<T>(tokio::sync::broadcast::Sender<T>);

#[verifier::external_type_specification]
#[verifier::external_body]
#[verifier::reject_recursive_types(T)]
pub struct ExFanoutReceiver<T>(tokio::sync::broadcast::Receiver<T>);

/// `tokio::sync::broadcast::channel` asserts that the capacity is neither 0
/// nor above `usize::MAX / 2`.
pub assume_specification<T: Clone>[ tokio::sync::broadcast::channel::<T> ](capacity: usize) -> (
    Sender<T>,
    Receiver<T>,
)
    requires
        0 < capacity <= usize::MAX / 2,
;

/// `tokio::sync::broadcast::Sender::subscribe` attaches one more receiver.
/// It asserts that fewer than `usize::MAX >> 2` receivers are attached, a
/// state of the channel that no clause here can name; that many receivers
/// never fit in memory.
pub assume_specification<T>[ tokio::sync::broadcast::Sender::<T>::subscribe ](tx: &Sender<T>) -> Receiver<T>;

/// Relies on `tokio::sync::broadcast::Sender::send`: it queues the value for
/// every attached receiver and reports how many there were, failing when
/// there were none.
#[verifier::external_body]
fn fan_out<T>(tx: &Sender<T>, value: T) -> (r: usize) {
    tx.send(value).unwrap_or(0)
}

/// A kind of broadcast, delivered to every subscriber attached when it is
/// sent.
pub trait Broadcast: Sized + 'static {
    /// How many payloads a subscriber may fall behind before it skips the
    /// oldest ones; at least 1.
    const BUFFER_SIZE: usize;

    /// The kind's name in diagnostics.
    const DEBUG_NAME: &'static str;

    /// The data that a broadcast of this kind carries.
    type Payload: Clone + Send + 'static;
}

/// The registry entry of one broadcast kind: its sender, shared by all
/// subscribers, and how many subscribers are attached.
pub struct FanoutEntry {
    sender: UntypedBox,
    subscribers: usize,
}

impl View for FanoutEntry {
    type V = nat;

    /// The number of attached subscribers.
    closed spec fn view(&self) -> nat {
        self.subscribers as nat
    }
}

impl FanoutEntry {
    /// The number of attached subscribers.
    pub fn subscribers(&self) -> (r: usize)
        ensures
            r == self@,
    {
        self.subscribers
    }
}

/// The subscriber count of every kind in a broadcast registry.
pub open spec fn counts(m: Map<Identity, FanoutEntry>) -> Map<Identity, nat> {
    Map::new(|k: Identity| m.contains_key(k), |k: Identity| m[k]@)
}

/// The count after one more subscriber joins; it stops at `usize::MAX`, far
/// above the receivers that a channel accepts.
pub open spec fn joined(n: nat) -> nat {
    if n < usize::MAX {
        n + 1
    } else {
        n
    }
}

/// One subscriber of `id` leaves: the count drops, and the entry goes with
/// its last subscriber.
pub open spec fn detach_one(c: Map<Identity, nat>, id: Identity) -> Map<Identity, nat> {
    if !c.contains_key(id) {
        c
    } else if c[id] <= 1 {
        c.remove(id)
    } else {
        c.insert(id, (c[id] - 1) as nat)
    }
}

/// Every subscriber listed in `left` leaves, in order.
pub open spec fn detach_all(c: Map<Identity, nat>, left: Seq<Identity>) -> Map<Identity, nat>
    decreases left.len(),
{
    if left.len() == 0 {
        c
    } else {
        detach_one(detach_all(c, left.drop_last()), left.last())
    }
}

/// Every entry of a broadcast registry has at least one subscriber.
pub open spec fn all_attached(c: Map<Identity, nat>) -> bool {
    forall|k: Identity| c.contains_key(k) ==> c[k] > 0
}

/// Departures keep every remaining entry attached: an entry leaves with its
/// last subscriber rather than staying with none.
pub proof fn departures_keep_entries_attached(c: Map<Identity, nat>, left: Seq<Identity>)
    requires
        all_attached(c),
    ensures
        all_attached(detach_all(c, left)),
    decreases left.len(),
{
    if left.len() > 0 {
        departures_keep_entries_attached(c, left.drop_last());
    }
}

/// Deferred departure is applied: when the subscriber whose handle was
/// dropped without closing was the last of its kind, the next exclusive
/// operation removes the entry; kinds that were never queued keep their
/// counts.
pub proof fn abandoned_last_subscriber_is_removed(
    c: Map<Identity, nat>,
    queued: Seq<Identity>,
    id: Identity,
)
    requires
        detach_all(c, queued).contains_key(id) ==> detach_all(c, queued)[id] == 1,
    ensures
        !detach_all(c, queued.push(id)).contains_key(id),
        forall|k: Identity|
            k != id && !queued.contains(k) ==> #[trigger] detach_all(c, queued.push(id)).get(k)
                == c.get(k),
{
    assert(queued.push(id).drop_last() =~= queued);
    assert forall|k: Identity| k != id && !queued.contains(k) implies #[trigger] detach_all(
        c,
        queued.push(id),
    ).get(k) == c.get(k) by {
        untouched(c, queued, k);
    }
}

proof fn untouched(c: Map<Identity, nat>, left: Seq<Identity>, k: Identity)
    requires
        !left.contains(k),
    ensures
        detach_all(c, left).get(k) == c.get(k),
    decreases left.len(),
{
    if left.len() > 0 {
        assert(!left.drop_last().contains(k)) by {
            if left.drop_last().contains(k) {
                let j = choose|j: int| 0 <= j < left.drop_last().len() && left.drop_last()[j] == k;
                assert(left[j] == k);
            }
        }
        untouched(c, left.drop_last(), k);
        assert(left.last() != k) by {
            assert(left[left.len() - 1] == left.last());
        }
    }
}

proof fn counts_insert(m: Map<Identity, FanoutEntry>, id: Identity, e: FanoutEntry)
    ensures
        counts(m.insert(id, e)) == counts(m).insert(id, e@),
{
    assert(counts(m.insert(id, e)) =~= counts(m).insert(id, e@));
}

proof fn counts_remove(m: Map<Identity, FanoutEntry>, id: Identity)
    ensures
        counts(m.remove(id)) == counts(m).remove(id),
{
    assert(counts(m.remove(id)) =~= counts(m).remove(id));
}

/// One subscriber of `id` leaves the registry.
fn detach(channels: &mut TypeMap<FanoutEntry>, id: Identity)
    ensures
        counts(final(channels)@) == detach_one(counts(old(channels)@), id),
{
    proof {
        counts_remove(channels@, id);
    }
    match channels.remove(id) {
        None => {
            assert(old(channels)@.remove(id) =~= old(channels)@);
        },
        Some(entry) => {
            if entry.subscribers > 1 {
                let left = FanoutEntry { sender: entry.sender, subscribers: entry.subscribers - 1 };
                proof {
                    counts_insert(channels@, id, left);
                    assert(counts(old(channels)@).remove(id).insert(id, left@) =~= counts(
                        old(channels)@,
                    ).insert(id, left@));
                }
                channels.insert(id, left);
            }
        },
    }
}

/// Applies the departures of subscriptions that were dropped without being
/// closed, and empties the queue. Every exclusive operation on a broadcast
/// registry calls this first.
pub fn apply_deferred(channels: &mut TypeMap<FanoutEntry>, pending: &mut DeferredRemovals)
    requires
        old(pending).wf(),
    ensures
        final(pending).wf(),
        final(pending)@ == Seq::<Identity>::empty(),
        counts(final(channels)@) == detach_all(counts(old(channels)@), old(pending)@),
{
    let ids = pending.take();
    let n = ids.len();
    let mut i: usize = 0;
    while i < n
        invariant
            n == ids@.len(),
            ids@ == old(pending)@,
            0 <= i <= n,
            counts(channels@) == detach_all(counts(old(channels)@), ids@.take(i as int)),
        decreases n - i,
    {
        let id = ids[i];
        detach(channels, id);
        assert(ids@.take(i as int + 1).drop_last() =~= ids@.take(i as int));
        i = i + 1;
    }
    assert(ids@.take(n as int) =~= ids@);
}

/// One more subscriber joins the existing entry of `id`.
fn raise(channels: &mut TypeMap<FanoutEntry>, id: Identity)
    requires
        old(channels)@.contains_key(id),
    ensures
        counts(final(channels)@) == counts(old(channels)@).insert(
            id,
            joined(old(channels)@[id]@),
        ),
{
    proof {
        counts_remove(channels@, id);
    }
    if let Some(entry) = channels.remove(id) {
        let n = if entry.subscribers < usize::MAX {
            entry.subscribers + 1
        } else {
            entry.subscribers
        };
        let raised = FanoutEntry { sender: entry.sender, subscribers: n };
        proof {
            counts_insert(channels@, id, raised);
            assert(counts(old(channels)@).remove(id).insert(id, raised@) =~= counts(
                old(channels)@,
            ).insert(id, raised@));
        }
        channels.insert(id, raised);
    }
}

/// Attaches a new subscriber of kind `B` under `id`. The first subscriber
/// creates the kind's channel with `B::BUFFER_SIZE` slots; later ones join
/// it and raise the count by one. An entry whose sender carries another
/// payload type is left alone and reported as `KindMismatch`.
pub fn subscribe<B: Broadcast>(
    channels: &mut TypeMap<FanoutEntry>,
    pending: &mut DeferredRemovals,
    id: Identity,
) -> (r: Result<Receiver<B::Payload>, KindMismatch>)
    requires
        old(pending).wf(),
        0 < B::BUFFER_SIZE <= usize::MAX / 2,
    ensures
        final(pending).wf(),
        final(pending)@ == Seq::<Identity>::empty(),
        ({
            let live = detach_all(counts(old(channels)@), old(pending)@);
            let now = counts(final(channels)@);
            &&& !live.contains_key(id) ==> r is Ok && now == live.insert(id, 1)
            &&& live.contains_key(id) && r is Ok ==> now == live.insert(id, joined(live[id]))
            &&& r is Err ==> live.contains_key(id) && now == live
        }),
{
    apply_deferred(channels, pending);
    let joined_rx = match channels.get(id) {
        Some(entry) => match entry.sender.get_ref::<Sender<B::Payload>>() {
            Some(tx) => Some(tx.subscribe()),
            None => return Err(KindMismatch),
        },
        None => None,
    };
    if let Some(rx) = joined_rx {
        raise(channels, id);
        return Ok(rx);
    }
    let (tx, rx) = tokio::sync::broadcast::channel::<B::Payload>(B::BUFFER_SIZE);
    let fresh = FanoutEntry { sender: UntypedBox::new(tx), subscribers: 1 };
    proof {
        counts_insert(channels@, id, fresh);
    }
    channels.insert(id, fresh);
    Ok(rx)
}

/// Sends `payload` to every subscriber of kind `B` attached under `id`.
/// Without an entry it does nothing and returns `None`; otherwise it returns
/// how many receivers the payload was queued for.
pub fn notify<B: Broadcast>(channels: &TypeMap<FanoutEntry>, id: Identity, payload: B::Payload) -> (r:
    Result<Option<usize>, KindMismatch>)
    ensures
        (r matches Ok(None)) <==> !channels@.contains_key(id),
{
    match channels.get(id) {
        None => Ok(None),
        Some(entry) => match entry.sender.get_ref::<Sender<B::Payload>>() {
            Some(tx) => Ok(Some(fan_out(tx, payload))),
            None => Err(KindMismatch),
        },
    }
}

/// What one wait on a subscription's receiver brought.
pub enum Received<P> {
    /// The next payload.
    Payload(P),
    /// The subscriber fell behind and this many payloads were skipped.
    Lagged(u64),
    /// Every sender is gone.
    Closed,
}

/// What a subscription does after one wait.
pub enum RecvStep<P> {
    /// Hand this payload to the subscriber.
    Deliver(P),
    /// Skipped payloads are absorbed: wait again, the subscription goes on.
    WaitAgain,
    /// The channel closed under a live subscriber, which the registry rules
    /// out while the subscription is attached.
    Broken,
}

/// The decision of a subscription's receive loop: a payload is delivered,
/// a lag report is absorbed by waiting again, and a closed channel is a
/// broken invariant.
pub fn recv_step<P>(outcome: Received<P>) -> (r: RecvStep<P>)
    ensures
        outcome matches Received::Payload(p) ==> r == RecvStep::Deliver(p),
        outcome is Lagged ==> r is WaitAgain,
        outcome is Closed ==> r is Broken,
{
    match outcome {
        Received::Payload(p) => RecvStep::Deliver(p),
        Received::Lagged(_) => RecvStep::WaitAgain,
        Received::Closed => RecvStep::Broken,
    }
}

/// Detaches `receiver` from kind `B` under `id`; when it was the last
/// subscriber, the entry leaves the registry at once.
pub fn close<B: Broadcast>(
    channels: &mut TypeMap<FanoutEntry>,
    pending: &mut DeferredRemovals,
    id: Identity,
    receiver: Receiver<B::Payload>,
)
    requires
        old(pending).wf(),
    ensures
        final(pending).wf(),
        final(pending)@ == Seq::<Identity>::empty(),
        counts(final(channels)@) == detach_one(
            detach_all(counts(old(channels)@), old(pending)@),
            id,
        ),
{
    apply_deferred(channels, pending);
    {
        let detached = receiver;
    }
    detach(channels, id);
}

/// The teardown of a subscription that was dropped without being closed: the
/// receiver goes and the departure is queued, to be counted at the next
/// exclusive operation. It never touches the registry map, whose lock may
/// not be taken here.
pub fn abandon<B: Broadcast>(receiver: Receiver<B::Payload>, pending: &mut DeferredRemovals, id: Identity)
    requires
        old(pending).wf(),
    ensures
        final(pending).wf(),
        final(pending)@ == old(pending)@.push(id),
{
    {
        let detached = receiver;
    }
    pending.enqueue(id);
}

} // verus!
