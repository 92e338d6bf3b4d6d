//! # Asynchronous Multi-Producer-Multi-Consumer Channel
//!
//! Wraps the channel handles with one shared wake slot (a
//! single-registration notifier), turning a failed receive into a
//! suspend/resume point for a cooperative task scheduler: a poll that finds
//! no data registers the polling task's wake handle and suspends; every
//! send signals the slot, so a suspended task is re-polled.
//!
//! The slot holds a single registration: if several tasks suspend on clones
//! of the same receiver, a later registration silently overwrites an
//! earlier one and the overwritten task is never woken by subsequent sends.
//! The adapter is therefore safe for a single suspended consumer only; the
//! underlying queue itself supports any number of consumers.

use crate::mpmc::queue::Queue;
use crate::mpmc::{channel, share, QueuePred, Receiver, Sender};
use futures_util::task::AtomicWaker;
use std::sync::Arc;
use std::task::Waker;
use vstd::prelude::*;
use vstd::rwlock::RwLock;

verus! {

/// Relies on `futures_util::task::AtomicWaker`: an atomic cell holding at
/// most one task wake handle.
#[verifier::external_type_specification]
#[verifier::external_body]
pub struct ExAtomicWaker(AtomicWaker);

/// Relies on `core::task::Waker`: the scheduler-provided wake handle.
#[verifier::external_type_specification]
#[verifier::external_body]
pub struct ExWaker(Waker);

/// Relies on `AtomicWaker::new`: creates an empty wake slot.
pub assume_specification[ AtomicWaker::new ]() -> AtomicWaker;

/// Relies on `AtomicWaker::register`: stores the wake handle in the slot; a
/// later registration overwrites an earlier one.
pub assume_specification[ AtomicWaker::register ](slot: &AtomicWaker, waker: &Waker);

/// Relies on `AtomicWaker::wake`: wakes the last registered handle, if any.
pub assume_specification[ AtomicWaker::wake ](slot: &AtomicWaker);

/// Create both sides of an asynchronous mpmc channel: one underlying
/// channel plus one shared wake slot.
pub fn async_channel<T>() -> (pair: (AsyncSender<T>, AsyncReceiver<T>))
    ensures
        pair.0.queue() == pair.1.queue(),
        pair.0.wake_slot() == pair.1.wake_slot(),
{
    let (tx, rx) = channel();
    let waker = Arc::new(AtomicWaker::new());
    let rx_waker = share(&waker);
    (AsyncSender { tx, waker }, AsyncReceiver { rx, waker: rx_waker })
}

/// The sending part of an asynchronous mpmc channel.
pub struct AsyncSender<T> {
    tx: Sender<T>,
    waker: Arc<AtomicWaker>,
}

impl<T> AsyncSender<T> {
    /// The lock, and thereby the queue, this handle operates on.
    pub closed spec fn queue(self) -> RwLock<Queue<T>, QueuePred> {
        self.tx.shared_queue()
    }

    /// The wake slot this handle signals.
    pub closed spec fn wake_slot(self) -> AtomicWaker {
        *self.waker
    }

    /// Send data through the channel, then unconditionally signal the wake
    /// slot — wake-on-every-send, so no suspended receiver is missed.
    pub fn send(&self, data: T) {
        self.tx.send(data);
        self.waker.wake();
    }
}

impl<T> Clone for AsyncSender<T> {
    /// A clone sends to the same queue and signals the same wake slot.
    fn clone(&self) -> (res: AsyncSender<T>)
        ensures
            res.queue() == self.queue(),
            res.wake_slot() == self.wake_slot(),
    {
        AsyncSender { tx: self.tx.clone(), waker: share(&self.waker) }
    }
}

/// The receiving part of an asynchronous mpmc channel.
pub struct AsyncReceiver<T> {
    rx: Receiver<T>,
    waker: Arc<AtomicWaker>,
}

/// Outcome of one poll step on an [`AsyncReceiver`].
pub enum PollNext<T> {
    /// A value was available; the task resumes with it at once.
    Ready(T),
    /// Nothing was available; the polling task's wake handle is registered
    /// in the wake slot and the task suspends until a subsequent send
    /// signals the slot.
    Pending,
}

impl<T> AsyncReceiver<T> {
    /// The lock, and thereby the queue, this handle operates on.
    pub closed spec fn queue(self) -> RwLock<Queue<T>, QueuePred> {
        self.rx.shared_queue()
    }

    /// The wake slot this handle registers with.
    pub closed spec fn wake_slot(self) -> AtomicWaker {
        *self.waker
    }

    /// One poll step, as driven by a cooperative scheduler: try to receive;
    /// on success resume at once with the value, otherwise register the
    /// polling task's wake handle — a subsequent send signals it — and
    /// report "not ready yet".
    pub fn poll_next(&self, waker: &Waker) -> (r: PollNext<T>) {
        match self.rx.recv() {
            Ok(v) => PollNext::Ready(v),
            Err(_) => {
                self.waker.register(waker);
                PollNext::Pending
            },
        }
    }
}

impl<T> Clone for AsyncReceiver<T> {
    /// A clone receives from the same queue and registers with the same
    /// wake slot.
    fn clone(&self) -> (res: AsyncReceiver<T>)
        ensures
            res.queue() == self.queue(),
            res.wake_slot() == self.wake_slot(),
    {
        AsyncReceiver { rx: self.rx.clone(), waker: share(&self.waker) }
    }
}

} // verus!
