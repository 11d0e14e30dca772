//! Request-response: one listener per kind answers each request through a
//! one-shot reply slot.

use crate::mailbox::{mailbox, posting, MailboxReceiver, MailboxSender, Posting};
use crate::registry::{attached, drained, DeferredRemovals, Identity, TypeMap};
use crate::untyped_box::UntypedBox;
use tokio::sync::oneshot;
use tokio::sync::oneshot::error::RecvError;
use vstd::prelude::*;

verus! {

#[verifier::external_type_specification]
#[verifier::external_body]
#[verifier::reject_recursive_types(T)]
pub struct ExReplySender<T>(oneshot::Sender<T>);

#[verifier::external_type_specification]
#[verifier::external_body]
#[verifier::reject_recursive_types(T)]
pub struct ExReplyReceiver<T>(oneshot::Receiver<T>);

#[verifier::external_type_specification]
#[verifier::external_body]
pub struct ExRecvError(RecvError);

pub assume_specification<T>[ oneshot::channel::<T> ]() -> (oneshot::Sender<T>, oneshot::Receiver<T>);

/// Relies on `oneshot::Sender::send`, which hands the value back when the
/// receiving half is gone.
#[verifier::external_body]
fn send_reply<T>(responder: oneshot::Sender<T>, value: T) -> (r: Result<(), T>)
    ensures
        r matches Err(v) ==> v == value,
{
    responder.send(value)
}

/// A kind of request, answered by at most one listener at a time.
pub trait Request: Sized + 'static {
    /// The number of requests that can be sent without waiting for the
    /// listener; 0 for an unbounded mailbox, at most `usize::MAX / 8`.
    const BUFFER_SIZE: usize;

    /// The kind's name in diagnostics.
    const DEBUG_NAME: &'static str;

    /// The data that a request of this kind carries.
    type Payload: Send + 'static;

    /// The data that the listener answers with.
    type Response: Send + 'static;
}

/// Why a request got no response.
#[non_exhaustive]
pub enum RequestError<R: Request> {
    /// No listener of this kind is open; the payload comes back.
    NotListened(R::Payload),
    /// The listener's mailbox closed before the request got in; the payload
    /// comes back.
    SendError(R::Payload),
    /// The listener dropped the request without answering.
    NotResponded,
    /// The entry under this kind's identity holds another kind's mailbox;
    /// the payload comes back. Identities are unique per kind, so this
    /// reports a broken invariant.
    KindMismatch(R::Payload),
}

impl<R: Request> RequestError<R> {
    /// A one-line description naming the kind and the failure.
    pub fn describe(&self) -> (r: String)
        ensures
            r@ == "RequestError in "@ + R::DEBUG_NAME@ + match self {
                RequestError::NotListened(_) => ": NotListened"@,
                RequestError::SendError(_) => ": SendError"@,
                RequestError::NotResponded => ": NotResponded"@,
                RequestError::KindMismatch(_) => ": KindMismatch"@,
            },
    {
        let mut text = String::from_str("RequestError in ");
        text.append(R::DEBUG_NAME);
        match self {
            RequestError::NotListened(_) => text.append(": NotListened"),
            RequestError::SendError(_) => text.append(": SendError"),
            RequestError::NotResponded => text.append(": NotResponded"),
            RequestError::KindMismatch(_) => text.append(": KindMismatch"),
        }
        text
    }
}

/// A request in flight: its payload and the slot its answer goes to.
pub struct RequestPair<R: Request> {
    /// What the requester sent.
    pub payload: R::Payload,
    /// Where the answer goes.
    pub responder: oneshot::Sender<R::Response>,
}

/// Opens the listener of kind `R` under `id`: fails when one is already
/// open, otherwise registers a new mailbox and returns its receiving half.
pub fn listen<R: Request>(
    channels: &mut TypeMap<UntypedBox>,
    pending: &mut DeferredRemovals,
    id: Identity,
) -> (r: Option<
    MailboxReceiver<RequestPair<R>>,
>)
    requires
        old(pending).wf(),
        R::BUFFER_SIZE <= usize::MAX / 8,
    ensures
        final(pending)@ == Seq::<Identity>::empty(),
        final(pending).wf(),
        attached(drained(old(channels)@, old(pending)@), final(channels)@, id, r.is_some()),
        r matches Some(rx) ==> (rx is Unbounded <==> R::BUFFER_SIZE == 0),
{
    channels.apply_deferred(pending);
    if channels.contains_key(id) {
        return None;
    }
    let (tx, rx) = mailbox::<RequestPair<R>>(R::BUFFER_SIZE);
    channels.insert(id, UntypedBox::new(tx));
    assert(channels@.remove(id) =~= drained(old(channels)@, old(pending)@));
    Some(rx)
}

/// Sends a request of kind `R` with `payload` to the listener under `id`, as
/// far as that is possible without waiting, and returns the slot its answer
/// will arrive in. The payload comes back as `NotListened` exactly when no
/// listener is open; a closed mailbox hands it back as `SendError`, and an
/// entry of another kind as `KindMismatch`.
pub fn request<'a, R: Request>(
    channels: &'a TypeMap<UntypedBox>,
    id: Identity,
    payload: R::Payload,
) -> (r: Result<(Posting<'a, RequestPair<R>>, oneshot::Receiver<R::Response>), RequestError<R>>)
    ensures
        !channels@.contains_key(id) ==> r == Err::<
            (Posting<'a, RequestPair<R>>, oneshot::Receiver<R::Response>),
            RequestError<R>,
        >(RequestError::NotListened(payload)),
        (r matches Err(RequestError::NotListened(_))) <==> !channels@.contains_key(id),
        r matches Err(RequestError::NotListened(p)) ==> p == payload,
        r matches Err(RequestError::SendError(p)) ==> p == payload && channels@.contains_key(id),
        r matches Err(RequestError::KindMismatch(p)) ==> p == payload && channels@.contains_key(id),
        !(r matches Err(RequestError::NotResponded)),
        r matches Ok((Posting::MustWait(_, pair), _)) ==> pair.payload == payload,
        r is Ok ==> channels@.contains_key(id),
{
    let entry = match channels.get(id) {
        Some(entry) => entry,
        None => return Err(RequestError::NotListened(payload)),
    };
    let tx = match entry.get_ref::<MailboxSender<RequestPair<R>>>() {
        Some(tx) => tx,
        None => return Err(RequestError::KindMismatch(payload)),
    };
    let (responder, reply) = oneshot::channel();
    let pair = RequestPair::<R> { payload, responder };
    let dispatched = tx.dispatch(pair);
    match posting(tx, dispatched) {
        Ok(posted) => Ok((posted, reply)),
        Err(pair) => Err(RequestError::SendError(pair.payload)),
    }
}

/// The outcome of a request once its reply slot has resolved: the answer, or
/// `NotResponded` when the slot was dropped unanswered.
pub fn settle<R: Request>(reply: Result<R::Response, RecvError>) -> (r: Result<
    R::Response,
    RequestError<R>,
>)
    ensures
        reply matches Ok(v) ==> r == Ok::<R::Response, RequestError<R>>(v),
        reply is Err ==> r == Err::<R::Response, RequestError<R>>(RequestError::NotResponded),
{
    match reply {
        Ok(v) => Ok(v),
        Err(_) => Err(RequestError::NotResponded),
    }
}

/// Writes `response` into a request's reply slot. Returns whether it got
/// there: it does not when the requester already gave up, and the answer is
/// then dropped.
pub fn respond<T>(responder: oneshot::Sender<T>, response: T) -> (r: bool) {
    send_reply(responder, response).is_ok()
}

/// Closes the listener of kind `R` under `id`: its mailbox stops taking
/// requests and the entry leaves the registry at once. Requests still queued
/// are dropped with the receiver, so their requesters see `NotResponded`.
pub fn close<R: Request>(
    channels: &mut TypeMap<UntypedBox>,
    pending: &mut DeferredRemovals,
    id: Identity,
    receiver: MailboxReceiver<RequestPair<R>>,
)
    requires
        old(pending).wf(),
    ensures
        final(pending)@ == Seq::<Identity>::empty(),
        final(pending).wf(),
        final(channels)@ == drained(old(channels)@, old(pending)@).remove(id),
{
    channels.apply_deferred(pending);
    let mut receiver = receiver;
    receiver.close();
    channels.remove(id);
}

/// The teardown of a listener that was dropped without being closed: its
/// mailbox stops taking payloads and its identity is queued for removal. It
/// never touches the registry map, whose lock may not be taken here.
pub fn abandon<R: Request>(receiver: &mut MailboxReceiver<RequestPair<R>>, pending: &mut DeferredRemovals, id: Identity)
    requires
        old(pending).wf(),
    ensures
        final(pending).wf(),
        final(pending)@ == old(pending)@.push(id),
{
    receiver.close();
    pending.enqueue(id);
}

} // verus!
