use intercomm::mailbox::{MailboxReceiver, Posting};
use intercomm::notification::{self, Notification, NotifyError};
use intercomm::registry::{DeferredRemovals, TypeMap};
use intercomm::UntypedBox;

struct Ready;

impl Notification for Ready {
    const BUFFER_SIZE: usize = 0;
    const DEBUG_NAME: &'static str = "Ready";
    type Payload = i32;
}

struct Tick;

impl Notification for Tick {
    const BUFFER_SIZE: usize = 1;
    const DEBUG_NAME: &'static str = "Tick";
    type Payload = (i32, bool);
}

struct Boxed;

struct Payload {
    data: Box<i32>,
}

impl Notification for Boxed {
    const BUFFER_SIZE: usize = 0;
    const DEBUG_NAME: &'static str = "Boxed";
    type Payload = Payload;
}

const BOXED: usize = 2;
const READY: usize = 0;
const TICK: usize = 1;

fn take<P>(rx: &mut MailboxReceiver<P>) -> Option<P> {
    match rx {
        MailboxReceiver::Bounded(rx) => rx.try_recv().ok(),
        MailboxReceiver::Unbounded(rx) => rx.try_recv().ok(),
    }
}

fn delivered<P, E>(r: Result<Posting<'_, P>, E>) -> bool {
    matches!(r, Ok(Posting::Delivered))
}

#[test]
fn buffer_size_picks_the_mailbox() {
    let mut map: TypeMap<UntypedBox> = TypeMap::new();
    let mut pending = DeferredRemovals::new();
    let ready = notification::subscribe::<Ready>(&mut map, &mut pending, READY).unwrap();
    let tick = notification::subscribe::<Tick>(&mut map, &mut pending, TICK).unwrap();
    assert!(matches!(ready, MailboxReceiver::Unbounded(_)));
    assert!(matches!(tick, MailboxReceiver::Bounded(_)));
}

#[test]
fn second_subscriber_is_refused_until_close() {
    let mut map: TypeMap<UntypedBox> = TypeMap::new();
    let mut pending = DeferredRemovals::new();
    let first = notification::subscribe::<Ready>(&mut map, &mut pending, READY).unwrap();
    assert!(notification::subscribe::<Ready>(&mut map, &mut pending, READY).is_none());
    assert!(notification::subscribe::<Ready>(&mut map, &mut pending, READY).is_none());
    notification::close::<Ready>(&mut map, &mut pending, READY, first);
    assert!(!map.contains_key(READY));
    assert!(notification::subscribe::<Ready>(&mut map, &mut pending, READY).is_some());
}

#[test]
fn single_producer_order_is_kept() {
    let mut map: TypeMap<UntypedBox> = TypeMap::new();
    let mut pending = DeferredRemovals::new();
    let mut rx = notification::subscribe::<Ready>(&mut map, &mut pending, READY).unwrap();
    for i in 1..=5 {
        assert!(delivered(notification::notify::<Ready>(&map, READY, i)));
    }
    for i in 1..=5 {
        assert_eq!(take(&mut rx), Some(i));
    }
    assert_eq!(take(&mut rx), None);
}

#[test]
fn parallel_notifications() {
    let mut map: TypeMap<UntypedBox> = TypeMap::new();
    let mut pending = DeferredRemovals::new();
    let mut tick = notification::subscribe::<Tick>(&mut map, &mut pending, TICK).unwrap();
    let mut boxed = notification::subscribe::<Boxed>(&mut map, &mut pending, BOXED).unwrap();
    for i in 1..=3i32 {
        assert!(delivered(notification::notify::<Tick>(&map, TICK, (i, i == 3))));
        assert!(delivered(notification::notify::<Boxed>(
            &map,
            BOXED,
            Payload { data: Box::new(i) }
        )));
        assert_eq!(take(&mut tick), Some((i, i == 3)));
    }
    for i in 1..=3i32 {
        let Payload { data } = take(&mut boxed).unwrap();
        assert_eq!(*data, i);
    }
    notification::close::<Tick>(&mut map, &mut pending, TICK, tick);
    notification::close::<Boxed>(&mut map, &mut pending, BOXED, boxed);
    assert!(!map.contains_key(TICK));
    assert!(!map.contains_key(BOXED));
}

#[test]
fn full_bounded_mailbox_hands_the_payload_back_to_wait() {
    let mut map: TypeMap<UntypedBox> = TypeMap::new();
    let mut pending = DeferredRemovals::new();
    let mut rx = notification::subscribe::<Tick>(&mut map, &mut pending, TICK).unwrap();
    assert!(delivered(notification::notify::<Tick>(&map, TICK, (1, false))));
    match notification::notify::<Tick>(&map, TICK, (2, true)) {
        Ok(Posting::MustWait(_, p)) => assert_eq!(p, (2, true)),
        _ => panic!("a mailbox of one slot is full after one notification"),
    }
    assert_eq!(take(&mut rx), Some((1, false)));
    assert!(delivered(notification::notify::<Tick>(&map, TICK, (3, true))));
    assert_eq!(take(&mut rx), Some((3, true)));
}

#[test]
fn notify_without_subscriber_returns_the_payload() {
    let map: TypeMap<UntypedBox> = TypeMap::new();
    match notification::notify::<Ready>(&map, READY, 42) {
        Err(NotifyError::NotSubscribed(p)) => assert_eq!(p, 42),
        _ => panic!("nobody subscribed"),
    }
}

#[test]
fn notify_to_a_dropped_mailbox_is_a_send_error() {
    let mut map: TypeMap<UntypedBox> = TypeMap::new();
    let mut pending = DeferredRemovals::new();
    let rx = notification::subscribe::<Ready>(&mut map, &mut pending, READY).unwrap();
    drop(rx);
    match notification::notify::<Ready>(&map, READY, 9) {
        Err(NotifyError::SendError(p)) => assert_eq!(p, 9),
        _ => panic!("the receiving half is gone"),
    }
}

#[test]
fn reopen_subscription() {
    let mut map: TypeMap<UntypedBox> = TypeMap::new();
    let mut pending = DeferredRemovals::new();
    for round in 0..2 {
        let mut rx = notification::subscribe::<Tick>(&mut map, &mut pending, TICK).unwrap();
        assert!(delivered(notification::notify::<Tick>(&map, TICK, (round, true))));
        assert_eq!(take(&mut rx), Some((round, true)));
        notification::close::<Tick>(&mut map, &mut pending, TICK, rx);
    }
}

#[test]
fn abandoned_subscription_is_removed_by_the_next_exclusive_operation() {
    let mut map: TypeMap<UntypedBox> = TypeMap::new();
    let mut pending = DeferredRemovals::new();
    let mut rx = notification::subscribe::<Ready>(&mut map, &mut pending, READY).unwrap();
    notification::abandon::<Ready>(&mut rx, &mut pending, READY);
    drop(rx);
    assert!(matches!(
        notification::notify::<Ready>(&map, READY, 1),
        Err(NotifyError::SendError(1))
    ));
    assert!(pending.is_dirty());
    assert!(map.contains_key(READY));

    let _tick = notification::subscribe::<Tick>(&mut map, &mut pending, TICK).unwrap();
    assert!(!pending.is_dirty());
    assert!(!map.contains_key(READY));
    assert!(map.contains_key(TICK));
    assert!(notification::subscribe::<Ready>(&mut map, &mut pending, READY).is_some());
}

#[test]
fn notify_error_descriptions() {
    let e: NotifyError<Ready> = NotifyError::NotSubscribed(1);
    assert_eq!(e.describe(), "NotifyError in Ready: NotSubscribed");
    let e: NotifyError<Tick> = NotifyError::SendError((1, true));
    assert_eq!(e.describe(), "NotifyError in Tick: SendError");
}

#[test]
fn notify_to_an_entry_of_another_kind_is_a_kind_mismatch() {
    let mut map: TypeMap<UntypedBox> = TypeMap::new();
    let mut pending = DeferredRemovals::new();
    let _rx = notification::subscribe::<Ready>(&mut map, &mut pending, READY).unwrap();
    match notification::notify::<Tick>(&map, READY, (1, true)) {
        Err(NotifyError::KindMismatch(p)) => assert_eq!(p, (1, true)),
        _ => panic!("the entry holds a mailbox of i32"),
    }
    let e: NotifyError<Tick> = NotifyError::KindMismatch((1, true));
    assert_eq!(e.describe(), "NotifyError in Tick: KindMismatch");
}
