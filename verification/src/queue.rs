//! Fixed-capacity circular FIFO buffer, used to move values between an
//! interrupt handler and polling code.
//!
//! The queue owns a ring of `QUEUE_CAPACITY` slots and a write cursor; the
//! read cursor is derived from the cursor and the count. Its abstract view
//! is the sequence of pending items, oldest first: `enqueue` appends to that
//! sequence (or fails and changes nothing when it is full), and
//! `try_dequeue` removes and returns its head (or reports emptiness and
//! changes nothing).

use vstd::prelude::*;

verus! {

/// Number of slots in every queue.
pub const QUEUE_CAPACITY: usize = 32;

/// The slot holding the `k`-th oldest pending item of a ring whose next
/// write goes to slot `first_free` and which holds `count` items.
pub open spec fn ring_slot(first_free: int, count: int, k: int) -> int {
    let raw = first_free + QUEUE_CAPACITY - count + k;
    if raw >= QUEUE_CAPACITY { raw - QUEUE_CAPACITY } else { raw }
}

/// Fixed-capacity FIFO queue over copyable items.
pub struct Queue<T: Copy> {
    buffer: Vec<Option<T>>,
    first_free_index: usize,
    pub count: usize,
}

impl<T: Copy> View for Queue<T> {
    type V = Seq<T>;

    /// The pending items, oldest first.
    closed spec fn view(&self) -> Seq<T> {
        Seq::new(
            self.count as nat,
            |k: int|
                self.buffer@[ring_slot(
                    self.first_free_index as int,
                    self.count as int,
                    k,
                )].unwrap(),
        )
    }
}

/// Reduces `x % QUEUE_CAPACITY` for the small values the cursors take.
proof fn lemma_mod_cap(x: int)
    requires
        0 <= x < 2 * QUEUE_CAPACITY,
    ensures
        x % (QUEUE_CAPACITY as int) == if x >= QUEUE_CAPACITY {
            x - QUEUE_CAPACITY
        } else {
            x
        },
{
    assert(x % (QUEUE_CAPACITY as int) == if x >= QUEUE_CAPACITY {
        x - QUEUE_CAPACITY
    } else {
        x
    }) by (nonlinear_arith)
        requires
            0 <= x < 2 * QUEUE_CAPACITY,
    ;
}

impl<T: Copy> Queue<T> {
    /// The ring is fully allocated, the cursors are in range, and every
    /// occupied slot holds a value.
    pub closed spec fn wf(&self) -> bool {
        &&& self.buffer@.len() == QUEUE_CAPACITY
        &&& self.first_free_index < QUEUE_CAPACITY
        &&& self.count <= QUEUE_CAPACITY
        &&& forall|k: int|
            #![trigger ring_slot(self.first_free_index as int, self.count as int, k)]
            0 <= k < self.count ==> self.buffer@[ring_slot(
                self.first_free_index as int,
                self.count as int,
                k,
            )] is Some
    }

    /// Creates an empty queue.
    pub fn new() -> (q: Queue<T>)
        ensures
            q.wf(),
            q@ == Seq::<T>::empty(),
    {
        let mut buffer: Vec<Option<T>> = Vec::new();
        let mut i: usize = 0;
        while i < QUEUE_CAPACITY
            invariant
                buffer@.len() == i,
                i <= QUEUE_CAPACITY,
            decreases QUEUE_CAPACITY - i,
        {
            buffer.push(None);
            i = i + 1;
        }
        let q = Queue { buffer, first_free_index: 0, count: 0 };
        proof {
            assert(q@ =~= Seq::<T>::empty());
        }
        q
    }

    /// The number of pending items, as `count` also reports.
    pub fn len(&self) -> (r: usize)
        ensures
            r == self@.len(),
    {
        self.count
    }

    /// Appends `item` behind all pending items; when the queue is already
    /// full it reports failure and leaves the queue exactly as it was.
    pub fn enqueue(&mut self, item: T) -> (r: Result<(), ()>)
        requires
            old(self).wf(),
        ensures
            final(self).wf(),
            old(self)@.len() <= QUEUE_CAPACITY,
            final(self)@.len() <= QUEUE_CAPACITY,
            old(self)@.len() == QUEUE_CAPACITY ==> r is Err && *final(self) == *old(self),
            old(self)@.len() < QUEUE_CAPACITY ==> r is Ok && final(self)@ == old(self)@.push(
                item,
            ),
    {
        if self.count == self.buffer.len() {
            Err(())
        } else {
            let idx = self.first_free_index;
            self.buffer[idx] = Some(item);
            self.first_free_index = (self.first_free_index + 1) % self.buffer.len();
            self.count = self.count + 1;
            proof {
                let off = old(self).first_free_index as int;
                let c = old(self).count as int;
                let nf = self.first_free_index as int;
                lemma_mod_cap(off + 1);
                assert(nf == if off + 1 == QUEUE_CAPACITY {
                    0int
                } else {
                    off + 1
                });
                assert forall|k: int| 0 <= k <= c implies #[trigger] ring_slot(nf, c + 1, k)
                    == ring_slot(off, c, k) by {}
                assert forall|k: int| 0 <= k < c implies #[trigger] ring_slot(off, c, k) != off by {}
                assert(ring_slot(off, c, c) == off);
                assert(self@ =~= old(self)@.push(item));
            }
            Ok(())
        }
    }

    /// The slot of the oldest pending item, derived from the write cursor.
    fn first_value_index(&self) -> (r: usize)
        requires
            self.wf(),
        ensures
            r == ring_slot(self.first_free_index as int, self.count as int, 0),
            r < QUEUE_CAPACITY,
    {
        proof {
            lemma_mod_cap(
                self.buffer@.len() + self.first_free_index - self.count,
            );
        }
        (self.buffer.len() + self.first_free_index - self.count) % self.buffer.len()
    }

    /// Removes and returns the oldest pending item; on an empty queue it
    /// reports that there is no value and changes no state.
    pub fn try_dequeue(&mut self) -> (r: Option<T>)
        requires
            old(self).wf(),
        ensures
            final(self).wf(),
            old(self)@.len() <= QUEUE_CAPACITY,
            old(self)@.len() == 0 ==> r is None && *final(self) == *old(self),
            old(self)@.len() > 0 ==> r == Some(old(self)@[0]) && final(self)@ == old(
                self,
            )@.subrange(1, old(self)@.len() as int),
    {
        if self.count == 0 {
            None
        } else {
            let idx = self.first_value_index();
            let item = self.buffer[idx];
            self.count = self.count - 1;
            proof {
                let off = self.first_free_index as int;
                let c = old(self).count as int;
                assert forall|k: int| 0 <= k < c - 1 implies #[trigger] ring_slot(off, c - 1, k)
                    == ring_slot(off, c, k + 1) by {}
                assert(self@ =~= old(self)@.subrange(1, c));
            }
            Some(item.unwrap())
        }
    }
}

/// FIFO bound at one state: a well-formed queue never holds more than the
/// capacity. `lemma_ops_bounded` extends this over whole operation
/// sequences.
pub proof fn lemma_pending_bounded<T: Copy>(q: &Queue<T>)
    requires
        q.wf(),
    ensures
        q@.len() <= QUEUE_CAPACITY,
{
}

/// One queue operation, for stating laws over whole operation sequences.
pub enum QueueOp<T> {
    Enqueue(T),
    Dequeue,
}

/// The run of an operation sequence over the pending items, exactly as the
/// contracts of `enqueue` and `try_dequeue` describe one step: a full queue
/// refuses the value and an empty queue has nothing to hand out. Returns
/// the pending items afterwards, the values the dequeues returned in order,
/// and the values the enqueues accepted in order.
pub open spec fn run_ops<T>(pending: Seq<T>, ops: Seq<QueueOp<T>>) -> (Seq<T>, Seq<T>, Seq<T>)
    decreases ops.len(),
{
    if ops.len() == 0 {
        (pending, Seq::<T>::empty(), Seq::<T>::empty())
    } else {
        let rest = ops.subrange(1, ops.len() as int);
        match ops[0] {
            QueueOp::Enqueue(x) => if pending.len() < QUEUE_CAPACITY {
                let (left, out, accepted) = run_ops(pending.push(x), rest);
                (left, out, seq![x] + accepted)
            } else {
                run_ops(pending, rest)
            },
            QueueOp::Dequeue => if pending.len() > 0 {
                let (left, out, accepted) = run_ops(
                    pending.subrange(1, pending.len() as int),
                    rest,
                );
                (left, seq![pending[0]] + out, accepted)
            } else {
                run_ops(pending, rest)
            },
        }
    }
}

/// FIFO bound over every operation sequence: starting within capacity, the
/// number of pending items never exceeds the capacity.
pub proof fn lemma_ops_bounded<T>(pending: Seq<T>, ops: Seq<QueueOp<T>>)
    requires
        pending.len() <= QUEUE_CAPACITY,
    ensures
        run_ops(pending, ops).0.len() <= QUEUE_CAPACITY,
    decreases ops.len(),
{
    if ops.len() > 0 {
        let rest = ops.subrange(1, ops.len() as int);
        match ops[0] {
            QueueOp::Enqueue(x) => {
                if pending.len() < QUEUE_CAPACITY {
                    lemma_ops_bounded(pending.push(x), rest);
                } else {
                    lemma_ops_bounded(pending, rest);
                }
            },
            QueueOp::Dequeue => {
                if pending.len() > 0 {
                    lemma_ops_bounded(pending.subrange(1, pending.len() as int), rest);
                } else {
                    lemma_ops_bounded(pending, rest);
                }
            },
        }
    }
}

/// FIFO order over every operation sequence: what the dequeues returned,
/// followed by what is still pending, is exactly what was pending at the
/// start followed by what the enqueues accepted — values come out in
/// exactly the order they went in. In particular, starting from an empty
/// queue, the dequeued values are a prefix of the accepted values.
pub proof fn lemma_fifo_order<T>(pending: Seq<T>, ops: Seq<QueueOp<T>>)
    ensures
        ({
            let (left, out, accepted) = run_ops(pending, ops);
            out + left == pending + accepted
        }),
    decreases ops.len(),
{
    if ops.len() == 0 {
        let (left, out, accepted) = run_ops(pending, ops);
        assert(out + left =~= pending + accepted);
    } else {
        let rest = ops.subrange(1, ops.len() as int);
        match ops[0] {
            QueueOp::Enqueue(x) => {
                if pending.len() < QUEUE_CAPACITY {
                    lemma_fifo_order(pending.push(x), rest);
                    let (left, out, accepted) = run_ops(pending.push(x), rest);
                    assert(out + left =~= pending + (seq![x] + accepted));
                } else {
                    lemma_fifo_order(pending, rest);
                }
            },
            QueueOp::Dequeue => {
                if pending.len() > 0 {
                    let tail = pending.subrange(1, pending.len() as int);
                    lemma_fifo_order(tail, rest);
                    let (left, out, accepted) = run_ops(tail, rest);
                    let head = seq![pending[0]];
                    assert(pending =~= head + tail);
                    assert((head + out) + left =~= head + (out + left));
                    assert(head + (tail + accepted) =~= (head + tail) + accepted);
                } else {
                    lemma_fifo_order(pending, rest);
                }
            },
        }
    }
}

} // verus!
