//! # Multi Producer Multi Consumer Queue
//!
//! An unbounded FIFO queue over a chain of individually allocated nodes.
//! Elements are pushed to the back (the `head` end) and popped from the
//! front (the `tail` end).
//!
//! The chain lives in a slot arena: every node occupies one slot, a node's
//! `next` field holds the slot index of the node pushed immediately after
//! it, and a freed slot is recycled through a free list.  The `head` and
//! `tail` fields mirror the two ends of the chain; `tail` doubles as a
//! transient empty/busy marker, exactly as in the pointer protocol this
//! queue implements: a pop first takes `tail` out (claiming the oldest
//! node exclusively), then clears `head` if the claimed node was the only
//! one, and finally publishes the claimed node's successor as the new
//! `tail`.

use vstd::prelude::*;

verus! {

/// One link in the queue's chain.
struct Node<T> {
    /// Slot index of the node pushed immediately after this one, or `None`
    /// while this node is still the newest.  It is always the *subsequent*
    /// push that fills this field in, never the push that created the node.
    next: Option<usize>,
    /// The payload; taken exactly once, by the pop that consumes the node.
    value: T,
}

/// Outcome of one [`Queue::pop`] attempt.
pub enum Pop<T> {
    /// The queue held no unconsumed element: `tail` and `head` were both
    /// observed unset.
    Empty,
    /// The oldest available value; ownership is transferred to the caller.
    Data(T),
    /// A transient state was observed: `tail` was unset while `head` was
    /// not, meaning another pop is in its critical window or a push has not
    /// finished linking.  The caller must retry.  A single caller holding
    /// exclusive access never sees this outcome.
    Intermediate,
}

/// The actual queue.
pub struct Queue<T> {
    /// The slot arena holding the chain's nodes; `None` marks a freed slot.
    slots: Vec<Option<Node<T>>>,
    /// Indices of freed slots, available for reuse by the next push.
    free: Vec<usize>,
    /// Slot index of the node written last (the newest element), or `None`
    /// if no unconsumed element anchors the back of the chain.
    head: Option<usize>,
    /// Slot index of the node to read next (the oldest unconsumed element),
    /// or `None` meaning empty or mid-pop.
    tail: Option<usize>,
    /// The chain itself, oldest first, as slot indices.
    chain: Ghost<Seq<usize>>,
}

impl<T> View for Queue<T> {
    type V = Seq<T>;

    /// The queue's contents, oldest first.
    closed spec fn view(&self) -> Seq<T> {
        Seq::new(
            self.chain@.len(),
            |k: int| self.slots@[self.chain@[k] as int]->0.value,
        )
    }
}

impl<T> Queue<T> {
    /// Well-formedness: `chain` lists distinct live slots, each node's
    /// `next` points at the node pushed right after it, and `head`/`tail`
    /// anchor the two ends of the chain (both unset exactly when the chain
    /// is empty).  The free list holds distinct indices of dead slots.
    pub closed spec fn wf(self) -> bool {
        let c = self.chain@;
        let f = self.free@;
        &&& forall|k: int|
            0 <= k < c.len() ==> (#[trigger] c[k]) < self.slots@.len() && self.slots@[c[k] as int] is Some
        &&& forall|k: int|
            0 <= k < c.len() - 1 ==> (#[trigger] self.slots@[c[k] as int])->0.next == Some(c[k + 1])
        &&& c.len() > 0 ==> self.slots@[c[c.len() - 1] as int]->0.next is None
        &&& if c.len() == 0 {
            self.head is None && self.tail is None
        } else {
            self.head == Some(c[c.len() - 1]) && self.tail == Some(c[0])
        }
        &&& forall|k1: int, k2: int| 0 <= k1 < k2 < c.len() ==> #[trigger] c[k1] != #[trigger] c[k2]
        &&& forall|k: int|
            0 <= k < f.len() ==> (#[trigger] f[k]) < self.slots@.len() && self.slots@[f[k] as int] is None
        &&& forall|k1: int, k2: int| 0 <= k1 < k2 < f.len() ==> #[trigger] f[k1] != #[trigger] f[k2]
    }

    /// Create a new empty queue: neither `head` nor `tail` points anywhere.
    pub fn new() -> (q: Queue<T>)
        ensures
            q.wf(),
            q@ == Seq::<T>::empty(),
    {
        let q = Queue {
            slots: Vec::new(),
            free: Vec::new(),
            head: None,
            tail: None,
            chain: Ghost(Seq::empty()),
        };
        proof {
            assert(q@ =~= Seq::<T>::empty());
        }
        q
    }

    /// Place a node into a dead slot (reusing a freed one when available)
    /// and return its index.  The chain, `head` and `tail` are untouched.
    fn place_node(&mut self, node: Node<T>) -> (idx: usize)
        requires
            old(self).wf(),
        ensures
            final(self).wf(),
            final(self).chain@ == old(self).chain@,
            final(self).head == old(self).head,
            final(self).tail == old(self).tail,
            idx < final(self).slots@.len(),
            final(self).slots@[idx as int] == Some(node),
            forall|j: int|
                0 <= j < old(self).slots@.len() && j != idx ==> final(self).slots@[j] == #[trigger] old(
                    self,
                ).slots@[j],
            forall|k: int| 0 <= k < final(self).chain@.len() ==> #[trigger] final(self).chain@[k] != idx,
            final(self)@ == old(self)@,
    {
        let idx: usize;
        match self.free.pop() {
            Some(i) => {
                idx = i;
                self.slots[idx] = Some(node);
            },
            None => {
                idx = self.slots.len();
                self.slots.push(Some(node));
            },
        }
        proof {
            assert forall|k: int| 0 <= k < self.chain@.len() implies #[trigger] self.chain@[k]
                != idx by {
                assert(old(self).slots@[self.chain@[k] as int] is Some);
            }
            assert(self@ =~= old(self)@);
        }
        idx
    }

    /// Push a new element to the back of the queue, taking ownership of the
    /// value.  Never fails.
    ///
    /// The new node is placed first, then `head` is exchanged with it, then
    /// the previous head node (if any) learns its successor, and finally
    /// `tail` is set to the new node if it was unset — anchoring the very
    /// first element at both ends of the chain.
    pub fn push(&mut self, value: T)
        requires
            old(self).wf(),
        ensures
            final(self).wf(),
            final(self)@ == old(self)@.push(value),
    {
        // 1. allocate a new node; its successor is not known yet
        let node = Node { next: None, value };
        let idx = self.place_node(node);
        let ghost mid = *self;
        // 2. exchange the head with the new node
        let old_head = self.head;
        self.head = Some(idx);
        // 3. let the previous head node know its successor
        if let Some(h) = old_head {
            let prev = self.slots[h].take();
            match prev {
                Some(mut n) => {
                    n.next = Some(idx);
                    self.slots[h] = Some(n);
                },
                None => {
                    // unreachable: the head always names a live slot
                },
            }
        }
        // 4. if the tail is not yet pointing anywhere, anchor it at the new
        //    node (the queue was empty)
        if self.tail.is_none() {
            self.tail = Some(idx);
        }
        proof {
            self.chain@ = mid.chain@.push(idx);
            let c = mid.chain@;
            if c.len() > 0 {
                assert(mid.slots@[c[c.len() - 1] as int] is Some);
            }
            assert forall|k: int|
                0 <= k < self.chain@.len() - 1 implies (#[trigger] self.slots@[self.chain@[k] as int])->0.next
                == Some(self.chain@[k + 1]) by {
                if k < c.len() - 1 {
                    assert(c[k] != c[c.len() - 1]);
                }
            }
            assert(self@ =~= old(self)@.push(value));
        }
    }

    /// Pop the oldest element from the front of the queue.
    ///
    /// With exclusive access the outcome is exact: [`Pop::Empty`] on an
    /// empty queue, otherwise [`Pop::Data`] carrying the oldest value.
    /// [`Pop::Intermediate`] signals a transient state that only a
    /// concurrent interleaving can expose; a caller that shares the queue
    /// must treat it as "try again".
    pub fn pop(&mut self) -> (r: Pop<T>)
        requires
            old(self).wf(),
        ensures
            final(self).wf(),
            old(self)@.len() == 0 ==> r is Empty && final(self)@ == old(self)@,
            old(self)@.len() > 0 ==> r == Pop::<T>::Data(old(self)@[0]) && final(self)@ == old(
                self,
            )@.drop_first(),
    {
        // 1. take the tail out, claiming the oldest node exclusively; from
        //    this moment any other observer sees the tail as unset
        let claimed = self.tail;
        self.tail = None;
        let i = match claimed {
            None => {
                // nothing claimable: truly empty only if the head is unset
                // as well, otherwise another pop is in its critical window
                if self.head.is_none() {
                    return Pop::Empty;
                } else {
                    return Pop::Intermediate;
                }
            },
            Some(i) => i,
        };
        // 2. if the claimed node is also the head, the chain held exactly
        //    one element: clear the head so the queue resets to empty
        let at_head = match self.head {
            Some(h) => h == i,
            None => false,
        };
        if at_head {
            self.head = None;
        }
        // 3. reconstruct exclusive ownership of the claimed node and free
        //    its slot; no other operation may touch it now
        let taken = self.slots[i].take();
        self.free.push(i);
        let node = match taken {
            Some(n) => n,
            None => vstd::pervasive::unreached(),
        };
        proof {
            self.chain@ = old(self).chain@.drop_first();
        }
        // 4. if the claimed node has a successor, publish it as the new
        //    tail for the next pop; the tail is still unset here — we took
        //    it out ourselves in step 1 and hold exclusive access
        if let Some(nxt) = node.next {
            assert(self.tail is None);
            self.tail = Some(nxt);
        }
        proof {
            let c = old(self).chain@;
            assert(c[0] == i);
            assert forall|k1: int, k2: int|
                0 <= k1 < k2 < self.chain@.len() implies #[trigger] self.chain@[k1]
                != #[trigger] self.chain@[k2] by {
                assert(c[k1 + 1] != c[k2 + 1]);
            }
            assert(self@ =~= old(self)@.drop_first());
        }
        // 5. hand the value out
        Pop::Data(node.value)
    }

    /// Drain the queue: pop until nothing is left, dropping every payload.
    /// Dropping the queue itself also releases every remaining node, but a
    /// drain makes the point at which the payload destructors run explicit.
    ///
    /// Stopping at the first no-data outcome is sound only because the
    /// caller holds exclusive access: a concurrent pop could otherwise be
    /// mid-flight, hiding a node behind an unset `tail`.
    pub fn drain(&mut self)
        requires
            old(self).wf(),
        ensures
            final(self).wf(),
            final(self)@.len() == 0,
    {
        loop
            invariant
                self.wf(),
            ensures
                self@.len() == 0,
            decreases self@.len(),
        {
            match self.pop() {
                Pop::Data(_) => {},
                _ => {
                    break ;
                },
            }
        }
    }
}

/// FIFO order for a single producer and a single consumer: [`Queue::push`]
/// appends to the contents and [`Queue::pop`] returns the front element and
/// drops it, so when the contents are `vs`, the queue after `k` pops holds
/// `vs.skip(k)` and the next pop returns `vs[k]` — the values come out in
/// exactly the order they were pushed.
pub proof fn lemma_fifo_order<T>(vs: Seq<T>, k: int)
    requires
        0 <= k < vs.len(),
    ensures
        vs.skip(k).len() == vs.len() - k,
        vs.skip(k)[0] == vs[k],
        vs.skip(k).drop_first() == vs.skip(k + 1),
{
    assert(vs.skip(k).drop_first() =~= vs.skip(k + 1));
}

/// No loss, no duplication: a push adds exactly its value to the multiset
/// of queued contents, and a pop removes exactly the value it returns.  So
/// over any interleaving of pushes and pops, the multiset of values the
/// consumers obtain equals the multiset the producers pushed — nothing is
/// dropped and nothing comes out twice.
pub proof fn lemma_no_loss_no_duplication<T>(s: Seq<T>, v: T)
    ensures
        s.push(v).to_multiset() == s.to_multiset().insert(v),
        s.len() > 0 ==> s.to_multiset() == s.drop_first().to_multiset().insert(s[0]),
{
    broadcast use vstd::seq_lib::group_to_multiset_ensures;

    assert(s.push(v).to_multiset() =~= s.to_multiset().insert(v));
    if s.len() > 0 {
        assert(s.remove(0) =~= s.drop_first());
        assert(s.remove(0).to_multiset() =~= s.to_multiset().remove(s[0]));
        assert(s.contains(s[0]));
        assert(s.to_multiset().count(s[0]) > 0);
        assert(s.to_multiset().remove(s[0]).insert(s[0]) =~= s.to_multiset());
    }
}

} // verus!
