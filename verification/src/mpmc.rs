//! # Multi Producer Multi Consumer Channel
//!
//! A cloneable sender/receiver handle pair over one shared [`queue::Queue`].
//! Every handle holds shared ownership of the queue; a verified
//! reader-writer lock serializes the handles' accesses, standing in for the
//! hardware atomics that would coordinate them on bare metal.  The queue
//! itself still implements the full head/tail pointer protocol.

pub mod async_adapter;
pub mod queue;

pub use async_adapter::{async_channel, AsyncReceiver, AsyncSender, PollNext};
pub use queue::{Pop, Queue};

use std::sync::Arc;
use vstd::prelude::*;
use vstd::rwlock::{RwLock, RwLockPredicate};

verus! {

/// The one invariant every handle maintains on the shared queue: it stays
/// well formed.
pub struct QueuePred;

impl<T> RwLockPredicate<Queue<T>> for QueuePred {
    open spec fn inv(self, q: Queue<T>) -> bool {
        q.wf()
    }
}

/// Relies on `alloc::sync::Arc::clone`: the clone is a new handle to the
/// same allocation, so its mathematical value equals the original's.
#[verifier::external_body]
pub(crate) fn share<T>(a: &Arc<T>) -> (res: Arc<T>)
    ensures
        res == *a,
{
    a.clone()
}

/// Create both sides of a mpmc channel, sharing one fresh queue.
pub fn channel<T>() -> (pair: (Sender<T>, Receiver<T>))
    ensures
        pair.0.shared_queue() == pair.1.shared_queue(),
{
    let queue = Arc::new(RwLock::new(Queue::new(), Ghost(QueuePred {})));
    let tx_queue = share(&queue);
    (Sender::new(tx_queue), Receiver::new(queue))
}

/// Collapse the three-way pop outcome into the channel's uniform result:
/// data comes through unchanged; both no-data outcomes (truly empty and
/// transient race) become one failure, leaving any retry policy to the
/// caller.  No payload is ever dropped here.
fn collapse<T>(p: Pop<T>) -> (r: Result<T, ()>)
    ensures
        p matches Pop::Data(v) ==> r == Ok::<T, ()>(v),
        !(p is Data) ==> r == Err::<T, ()>(()),
{
    match p {
        Pop::Data(v) => Ok(v),
        _ => Err(()),
    }
}

/// Sender that is using the shared queue to push messages that a receiver
/// could work on.  Clones may be used by several execution contexts in
/// parallel to fill the same queue.
pub struct Sender<T> {
    inner: Arc<RwLock<Queue<T>, QueuePred>>,
}

impl<T> Sender<T> {
    /// The lock, and thereby the queue, this handle operates on.
    pub closed spec fn shared_queue(self) -> RwLock<Queue<T>, QueuePred> {
        *self.inner
    }

    pub fn new(inner: Arc<RwLock<Queue<T>, QueuePred>>) -> (s: Sender<T>)
        ensures
            s.shared_queue() == *inner,
    {
        Sender { inner }
    }

    /// Enqueue one value into the shared queue; never fails and never
    /// blocks the caller beyond the serialization of the handles.
    pub fn send(&self, data: T) {
        let (mut q, handle) = self.inner.acquire_write();
        q.push(data);
        handle.release_write(q);
    }
}

impl<T> Clone for Sender<T> {
    /// A clone pushes to the very same queue as the original.
    fn clone(&self) -> (res: Sender<T>)
        ensures
            res.shared_queue() == self.shared_queue(),
    {
        Sender { inner: share(&self.inner) }
    }
}

/// Receiver that is using the shared queue to pop messages that have been
/// pushed there for processing.  Clones may be used by several execution
/// contexts in parallel to drain the same queue.
pub struct Receiver<T> {
    inner: Arc<RwLock<Queue<T>, QueuePred>>,
}

impl<T> Receiver<T> {
    /// The lock, and thereby the queue, this handle operates on.
    pub closed spec fn shared_queue(self) -> RwLock<Queue<T>, QueuePred> {
        *self.inner
    }

    pub fn new(inner: Arc<RwLock<Queue<T>, QueuePred>>) -> (r: Receiver<T>)
        ensures
            r.shared_queue() == *inner,
    {
        Receiver { inner }
    }

    /// Dequeue the oldest value, or fail uniformly when nothing is
    /// consumable right now — whether the queue is truly empty or a
    /// concurrent operation was mid-flight is intentionally not exposed.
    pub fn recv(&self) -> (r: Result<T, ()>) {
        let (mut q, handle) = self.inner.acquire_write();
        let popped = q.pop();
        handle.release_write(q);
        collapse(popped)
    }
}

impl<T> Clone for Receiver<T> {
    /// A clone pops from the very same queue as the original.
    fn clone(&self) -> (res: Receiver<T>)
        ensures
            res.shared_queue() == self.shared_queue(),
    {
        Receiver { inner: share(&self.inner) }
    }
}

} // verus!
