use mpmc_channel::mpmc::{async_channel, PollNext};
use std::sync::atomic::{AtomicBool, Ordering};
use std::sync::Arc;
use std::task::{Wake, Waker};

/// A wake handle that records whether it has been woken.
struct Flag(AtomicBool);

impl Flag {
    fn new() -> Arc<Flag> {
        Arc::new(Flag(AtomicBool::new(false)))
    }

    fn woken(&self) -> bool {
        self.0.load(Ordering::SeqCst)
    }
}

impl Wake for Flag {
    fn wake(self: Arc<Self>) {
        self.0.store(true, Ordering::SeqCst);
    }
}

#[test]
fn async_wake() {
    // poll with no pending data: suspend and register; send: the wake
    // signal fires; re-poll: ready with the sent value
    let (tx, rx) = async_channel::<i32>();
    let flag = Flag::new();
    let waker = Waker::from(flag.clone());
    assert!(matches!(rx.poll_next(&waker), PollNext::Pending));
    assert!(!flag.woken(), "no send happened yet");
    tx.send(7);
    assert!(flag.woken(), "the send must signal the wake slot");
    match rx.poll_next(&waker) {
        PollNext::Ready(v) => assert_eq!(v, 7),
        PollNext::Pending => panic!("data was pending"),
    }
}

#[test]
fn async_send_before_poll() {
    // a value sent before the first poll is ready at once; no suspension
    let (tx, rx) = async_channel::<i32>();
    tx.send(1);
    let flag = Flag::new();
    let waker = Waker::from(flag.clone());
    match rx.poll_next(&waker) {
        PollNext::Ready(v) => assert_eq!(v, 1),
        PollNext::Pending => panic!("data was pending"),
    }
    assert!(!flag.woken(), "a successful poll registers nothing");
}

#[test]
fn async_clones_share_slot_and_queue() {
    // a cloned sender sends to the same queue and signals the same slot
    let (tx, rx) = async_channel::<i32>();
    let tx2 = tx.clone();
    let rx2 = rx.clone();
    let flag = Flag::new();
    let waker = Waker::from(flag.clone());
    assert!(matches!(rx2.poll_next(&waker), PollNext::Pending));
    tx2.send(11);
    assert!(flag.woken());
    match rx.poll_next(&waker) {
        PollNext::Ready(v) => assert_eq!(v, 11),
        PollNext::Pending => panic!("data was pending"),
    }
}

#[test]
fn fifo_order_through_async_channel() {
    let (tx, rx) = async_channel::<i32>();
    for v in 1..=4 {
        tx.send(v);
    }
    let flag = Flag::new();
    let waker = Waker::from(flag.clone());
    for expected in 1..=4 {
        match rx.poll_next(&waker) {
            PollNext::Ready(v) => assert_eq!(v, expected),
            PollNext::Pending => panic!("data was pending"),
        }
    }
    assert!(matches!(rx.poll_next(&waker), PollNext::Pending));
}
