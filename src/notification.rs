//! Notifications: many producers, one subscriber per kind.

use crate::mailbox::{mailbox, posting, MailboxReceiver, MailboxSender, Posting};
use crate::registry::{attached, drained, DeferredRemovals, Identity, TypeMap};
use crate::untyped_box::UntypedBox;
use vstd::prelude::*;

verus! {

/// A kind of notification, delivered to at most one subscriber at a time.
pub trait Notification: Sized + 'static {
    /// The number of notifications that can be sent without waiting for the
    /// subscriber; 0 for an unbounded mailbox, at most `usize::MAX / 8`.
    const BUFFER_SIZE: usize;

    /// The kind's name in diagnostics.
    const DEBUG_NAME: &'static str;

    /// The data that a notification of this kind carries.
    type Payload: Send + 'static;
}

/// Why a notification was not delivered; the payload comes back.
#[non_exhaustive]
pub enum NotifyError<N: Notification> {
    /// No subscription of this kind is open.
    NotSubscribed(N::Payload),
    /// The subscription's mailbox closed before the payload got in.
    SendError(N::Payload),
    /// The entry under this kind's identity holds another kind's mailbox.
    /// Identities are unique per kind, so this reports a broken invariant.
    KindMismatch(N::Payload),
}

impl<N: Notification> NotifyError<N> {
    /// A one-line description naming the kind and the failure.
    pub fn describe(&self) -> (r: String)
        ensures
            r@ == "NotifyError in "@ + N::DEBUG_NAME@ + match self {
                NotifyError::NotSubscribed(_) => ": NotSubscribed"@,
                NotifyError::SendError(_) => ": SendError"@,
                NotifyError::KindMismatch(_) => ": KindMismatch"@,
            },
    {
        let mut text = String::from_str("NotifyError in ");
        text.append(N::DEBUG_NAME);
        match self {
            NotifyError::NotSubscribed(_) => text.append(": NotSubscribed"),
            NotifyError::SendError(_) => text.append(": SendError"),
            NotifyError::KindMismatch(_) => text.append(": KindMismatch"),
        }
        text
    }
}

/// Opens the subscription of kind `N` under `id`: fails when one is already
/// open, otherwise registers a new mailbox and returns its receiving half.
pub fn subscribe<N: Notification>(
    channels: &mut TypeMap<UntypedBox>,
    pending: &mut DeferredRemovals,
    id: Identity,
) -> (r: Option<
    MailboxReceiver<N::Payload>,
>)
    requires
        old(pending).wf(),
        N::BUFFER_SIZE <= usize::MAX / 8,
    ensures
        final(pending)@ == Seq::<Identity>::empty(),
        final(pending).wf(),
        attached(drained(old(channels)@, old(pending)@), final(channels)@, id, r.is_some()),
        r matches Some(rx) ==> (rx is Unbounded <==> N::BUFFER_SIZE == 0),
{
    channels.apply_deferred(pending);
    if channels.contains_key(id) {
        return None;
    }
    let (tx, rx) = mailbox::<N::Payload>(N::BUFFER_SIZE);
    channels.insert(id, UntypedBox::new(tx));
    assert(channels@.remove(id) =~= drained(old(channels)@, old(pending)@));
    Some(rx)
}

/// Sends `payload` to the subscription of kind `N` under `id`, as far as that
/// is possible without waiting. The payload comes back as `NotSubscribed`
/// exactly when no subscription is open; a closed mailbox hands it back as
/// `SendError`, and an entry of another kind as `KindMismatch`.
pub fn notify<'a, N: Notification>(
    channels: &'a TypeMap<UntypedBox>,
    id: Identity,
    payload: N::Payload,
) -> (r: Result<Posting<'a, N::Payload>, NotifyError<N>>)
    ensures
        !channels@.contains_key(id) ==> r == Err::<Posting<'a, N::Payload>, NotifyError<N>>(
            NotifyError::NotSubscribed(payload),
        ),
        (r matches Err(NotifyError::NotSubscribed(_))) <==> !channels@.contains_key(id),
        r matches Err(NotifyError::NotSubscribed(p)) ==> p == payload,
        r matches Err(NotifyError::SendError(p)) ==> p == payload && channels@.contains_key(id),
        r matches Err(NotifyError::KindMismatch(p)) ==> p == payload && channels@.contains_key(id),
        r matches Ok(Posting::MustWait(_, p)) ==> p == payload,
        r is Ok ==> channels@.contains_key(id),
{
    let entry = match channels.get(id) {
        Some(entry) => entry,
        None => return Err(NotifyError::NotSubscribed(payload)),
    };
    let tx = match entry.get_ref::<MailboxSender<N::Payload>>() {
        Some(tx) => tx,
        None => return Err(NotifyError::KindMismatch(payload)),
    };
    let dispatched = tx.dispatch(payload);
    match posting(tx, dispatched) {
        Ok(posted) => Ok(posted),
        Err(p) => Err(NotifyError::SendError(p)),
    }
}

/// Closes the subscription of kind `N` under `id`: its mailbox stops taking
/// payloads and the entry leaves the registry at once, so that a new
/// subscriber can attach.
pub fn close<N: Notification>(
    channels: &mut TypeMap<UntypedBox>,
    pending: &mut DeferredRemovals,
    id: Identity,
    receiver: MailboxReceiver<N::Payload>,
)
    requires
        old(pending).wf(),
    ensures
        final(pending)@ == Seq::<Identity>::empty(),
        final(pending).wf(),
        final(channels)@ == drained(old(channels)@, old(pending)@).remove(id),
{
    channels.apply_deferred(pending);
    let mut receiver = receiver;
    receiver.close();
    channels.remove(id);
}

/// The teardown of a subscription that was dropped without being closed: its
/// mailbox stops taking payloads and its identity is queued for removal. It
/// never touches the registry map, whose lock may not be taken here.
pub fn abandon<N: Notification>(receiver: &mut MailboxReceiver<N::Payload>, pending: &mut DeferredRemovals, id: Identity)
    requires
        old(pending).wf(),
    ensures
        final(pending).wf(),
        final(pending)@ == old(pending)@.push(id),
{
    receiver.close();
    pending.enqueue(id);
}

} // verus!
