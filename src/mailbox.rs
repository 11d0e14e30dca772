//! Single-consumer mailboxes, bounded or unbounded, built on tokio's `mpsc`
//! channels.

use tokio::sync::mpsc;
use tokio::sync::mpsc::error::TrySendError;
use vstd::prelude::*;

verus! {

#[verifier::external_type_specification]
#[verifier::external_body]
#[verifier::reject_recursive_types(T)]
pub struct ExBoundedSender<T>(mpsc::Sender<T>);

#[verifier::external_type_specification]
#[verifier::external_body]
#[verifier::reject_recursive_types(T)]
pub struct ExBoundedReceiver<T>(mpsc::Receiver<T>);

#[verifier::external_type_specification]
#[verifier::external_body]
#[verifier::reject_recursive_types(T)]
pub struct ExUnboundedSender<T>(mpsc::UnboundedSender<T>);

#[verifier::external_type_specification]
#[verifier::external_body]
#[verifier::reject_recursive_types(T)]
pub struct ExUnboundedReceiver<T>(mpsc::UnboundedReceiver<T>);

/// `tokio::sync::mpsc::channel` asserts that the buffer is not empty, and
/// its semaphore that it holds at most `usize::MAX >> 3` permits.
pub assume_specification<T>[ mpsc::channel::<T> ](buffer: usize) -> (mpsc::Sender<T>, mpsc::Receiver<T>)
    requires
        0 < buffer <= usize::MAX / 8,
;

pub assume_specification<T>[ mpsc::unbounded_channel::<T> ]() -> (mpsc::UnboundedSender<T>, mpsc::UnboundedReceiver<T>);

pub assume_specification<T>[ mpsc::Receiver::<T>::close ](rx: &mut mpsc::Receiver<T>);

pub assume_specification<T>[ mpsc::UnboundedReceiver::<T>::close ](rx: &mut mpsc::UnboundedReceiver<T>);

/// What became of a payload handed to a mailbox without waiting.
pub enum Dispatch<P> {
    /// The payload is in the mailbox.
    Sent,
    /// The bounded mailbox has no free slot; the payload comes back.
    Full(P),
    /// The receiving half is gone; the payload comes back.
    Closed(P),
}

/// Relies on `mpsc::Sender::try_send`, which enqueues without waiting and
/// hands the value back inside its error when the channel is full or closed.
#[verifier::external_body]
fn try_send_bounded<P>(tx: &mpsc::Sender<P>, payload: P) -> (r: Dispatch<P>)
    ensures
        r matches Dispatch::Full(p) ==> p == payload,
        r matches Dispatch::Closed(p) ==> p == payload,
{
    match tx.try_send(payload) {
        Ok(()) => Dispatch::Sent,
        Err(TrySendError::Full(p)) => Dispatch::Full(p),
        Err(TrySendError::Closed(p)) => Dispatch::Closed(p),
    }
}

/// Relies on `mpsc::UnboundedSender::send`, which never waits and hands the
/// value back inside its error when the receiving half is gone.
#[verifier::external_body]
fn send_unbounded<P>(tx: &mpsc::UnboundedSender<P>, payload: P) -> (r: Result<(), P>)
    ensures
        r matches Err(p) ==> p == payload,
{
    tx.send(payload).map_err(|e| e.0)
}

/// The producer half of a mailbox.
#[verifier::reject_recursive_types(P)]
pub enum MailboxSender<P> {
    /// A mailbox with a fixed number of slots.
    Bounded(mpsc::Sender<P>),
    /// A mailbox without a bound.
    Unbounded(mpsc::UnboundedSender<P>),
}

/// The consumer half of a mailbox.
#[verifier::reject_recursive_types(P)]
pub enum MailboxReceiver<P> {
    /// A mailbox with a fixed number of slots.
    Bounded(mpsc::Receiver<P>),
    /// A mailbox without a bound.
    Unbounded(mpsc::UnboundedReceiver<P>),
}

/// Creates a mailbox: unbounded when `buffer_size` is 0, otherwise with
/// `buffer_size` slots, at most `usize::MAX / 8`.
pub fn mailbox<P>(buffer_size: usize) -> (r: (MailboxSender<P>, MailboxReceiver<P>))
    requires
        buffer_size <= usize::MAX / 8,
    ensures
        r.0 is Unbounded <==> buffer_size == 0,
        r.1 is Unbounded <==> buffer_size == 0,
{
    if buffer_size == 0 {
        let (tx, rx) = mpsc::unbounded_channel();
        (MailboxSender::Unbounded(tx), MailboxReceiver::Unbounded(rx))
    } else {
        let (tx, rx) = mpsc::channel(buffer_size);
        (MailboxSender::Bounded(tx), MailboxReceiver::Bounded(rx))
    }
}

impl<P> MailboxSender<P> {
    /// Hands `payload` to the mailbox without waiting. Only a bounded
    /// mailbox can be full; every payload that is not sent comes back.
    pub fn dispatch(&self, payload: P) -> (r: Dispatch<P>)
        ensures
            r matches Dispatch::Full(p) ==> p == payload && self is Bounded,
            r matches Dispatch::Closed(p) ==> p == payload,
    {
        match self {
            MailboxSender::Bounded(tx) => try_send_bounded(tx, payload),
            MailboxSender::Unbounded(tx) => match send_unbounded(tx, payload) {
                Ok(()) => Dispatch::Sent,
                Err(p) => Dispatch::Closed(p),
            },
        }
    }
}

impl<P> MailboxReceiver<P> {
    /// Closes the mailbox: later sends fail, queued payloads can still be
    /// received.
    pub fn close(&mut self)
        ensures
            (*final(self) is Unbounded) <==> (*old(self) is Unbounded),
    {
        match self {
            MailboxReceiver::Bounded(rx) => rx.close(),
            MailboxReceiver::Unbounded(rx) => rx.close(),
        }
    }
}

/// How far a payload got without waiting.
#[verifier::reject_recursive_types(P)]
pub enum Posting<'a, P> {
    /// The payload is in the mailbox.
    Delivered,
    /// The bounded mailbox is full: the payload is to be sent
    /// through this sender once a slot frees up.
    MustWait(&'a mpsc::Sender<P>, P),
}

/// What a payload handed to `sender` without waiting comes to: in the
/// mailbox, waiting for a slot of the bounded mailbox, or back with the
/// caller (`Err`) when the mailbox is closed.
pub fn posting<'a, P>(sender: &'a MailboxSender<P>, dispatched: Dispatch<P>) -> (r: Result<
    Posting<'a, P>,
    P,
>)
    requires
        dispatched is Full ==> sender is Bounded,
    ensures
        dispatched is Sent ==> r == Ok::<Posting<'a, P>, P>(Posting::Delivered),
        dispatched matches Dispatch::Closed(p) ==> r == Err::<Posting<'a, P>, P>(p),
        dispatched matches Dispatch::Full(p) ==> (sender matches MailboxSender::Bounded(bounded)
            && r == Ok::<Posting<'a, P>, P>(Posting::MustWait(bounded, p))),
{
    match dispatched {
        Dispatch::Sent => Ok(Posting::Delivered),
        Dispatch::Closed(p) => Err(p),
        Dispatch::Full(p) => match sender {
            MailboxSender::Bounded(bounded) => Ok(Posting::MustWait(bounded, p)),
            MailboxSender::Unbounded(_) => Err(p),
        },
    }
}

} // verus!
