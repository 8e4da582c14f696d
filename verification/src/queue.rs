//! The hand-off between the realtime producer and the writer loop.
//!
//! The queue is a bounded FIFO. A bound with an explicit overflow
//! policy replaces the unbounded channel a capture pipeline is often
//! built on: a slow consumer must not grow memory without limit, and
//! the realtime producer must never block, so on a full queue `push`
//! refuses the newest buffer and reports the refusal to the caller.
//!
//! The writer loop's verified core is here too: draining the queue
//! emits every buffer's wire bytes in exactly the order the buffers
//! were enqueued.

use vstd::prelude::*;
use crate::codec::SampleBuffer;

verus! {

/// A bounded FIFO carrying values from one producer to one consumer.
/// Delivery order equals production order; a push onto a full queue
/// is refused rather than blocking or evicting.
pub struct HandoffQueue<T> {
    items: Vec<T>,
    capacity: usize,
}

impl<T> HandoffQueue<T> {
    /// The pending values, oldest first.
    pub closed spec fn view(&self) -> Seq<T> {
        self.items@
    }

    /// The most the queue will hold at once.
    pub closed spec fn spec_capacity(&self) -> nat {
        self.capacity as nat
    }

    /// The queue never holds more than its capacity, and the capacity
    /// admits at least one buffer.
    pub open spec fn well_formed(&self) -> bool {
        self@.len() <= self.spec_capacity() && self.spec_capacity() >= 1
    }

    /// Makes an empty queue that will hold at most `capacity` values.
    pub fn new(capacity: usize) -> (q: HandoffQueue<T>)
        requires
            capacity >= 1,
        ensures
            q@ == Seq::<T>::empty(),
            q.spec_capacity() == capacity,
            q.well_formed(),
    {
        HandoffQueue { items: Vec::new(), capacity }
    }

    /// How many values are pending.
    pub fn len(&self) -> (r: usize)
        ensures
            r == self@.len(),
    {
        self.items.len()
    }

    /// The most the queue will hold at once.
    pub fn capacity(&self) -> (r: usize)
        ensures
            r == self.spec_capacity(),
    {
        self.capacity
    }

    /// The producer's enqueue. Never blocks: a value offered to a full
    /// queue is refused, and the result says so, so the producer can
    /// count the loss. An accepted value goes to the back.
    pub fn push(&mut self, value: T) -> (accepted: bool)
        requires
            old(self).well_formed(),
        ensures
            final(self).well_formed(),
            final(self).spec_capacity() == old(self).spec_capacity(),
            accepted == (old(self)@.len() < old(self).spec_capacity()),
            accepted ==> final(self)@ == old(self)@.push(value),
            !accepted ==> final(self)@ == old(self)@,
    {
        if self.items.len() < self.capacity {
            self.items.push(value);
            true
        } else {
            false
        }
    }

    /// The consumer's dequeue: the oldest pending value, or `None` on
    /// an empty queue.
    pub fn pop(&mut self) -> (r: Option<T>)
        requires
            old(self).well_formed(),
        ensures
            final(self).well_formed(),
            final(self).spec_capacity() == old(self).spec_capacity(),
            old(self)@.len() == 0 ==> r is None && final(self)@ == old(self)@,
            old(self)@.len() > 0 ==> r == Some(old(self)@[0]) && final(self)@ == old(self)@.skip(
                1,
            ),
    {
        if self.items.len() == 0 {
            None
        } else {
            let v = self.items.remove(0);
            proof {
                assert(self.items@ =~= old(self)@.skip(1));
            }
            Some(v)
        }
    }
}

/// The capture callback's verified core, run once per buffer the
/// backend delivers. It only offers the buffer to the hand-off queue
/// and reports that capture goes on: it never blocks and never stops
/// the stream. A buffer the full queue refuses is dropped — the newest
/// data loses, never the realtime thread — and the drop is counted;
/// the count saturates rather than wraps.
pub fn producer_step(
    q: &mut HandoffQueue<SampleBuffer>,
    buffer: SampleBuffer,
    dropped: &mut u64,
) -> (go_on: bool)
    requires
        old(q).well_formed(),
    ensures
        final(q).well_formed(),
        final(q).spec_capacity() == old(q).spec_capacity(),
        go_on,
        old(q)@.len() < old(q).spec_capacity() ==> final(q)@ == old(q)@.push(buffer)
            && *final(dropped) == *old(dropped),
        old(q)@.len() >= old(q).spec_capacity() ==> final(q)@ == old(q)@,
        old(q)@.len() >= old(q).spec_capacity() && *old(dropped) < u64::MAX ==> *final(dropped)
            == *old(dropped) + 1,
        old(q)@.len() >= old(q).spec_capacity() && *old(dropped) == u64::MAX ==> *final(dropped)
            == *old(dropped),
{
    let accepted = q.push(buffer);
    if !accepted && *dropped < u64::MAX {
        *dropped = *dropped + 1;
    }
    true
}

// --- the writer loop's verified core ---

/// The bytes a sequence of buffers puts on the output stream: each
/// buffer's wire bytes, buffers in sequence order.
pub open spec fn wire_of_buffers(bufs: Seq<SampleBuffer>) -> Seq<u8>
    decreases bufs.len(),
{
    if bufs.len() == 0 {
        Seq::empty()
    } else {
        wire_of_buffers(bufs.drop_last()) + bufs.last().wire()
    }
}

/// The FIFO law of the output stream: the bytes of buffers produced
/// first stand before the bytes of buffers produced later, byte for
/// byte, with nothing between them.
pub proof fn lemma_wire_of_buffers_concat(a: Seq<SampleBuffer>, b: Seq<SampleBuffer>)
    ensures
        wire_of_buffers(a + b) == wire_of_buffers(a) + wire_of_buffers(b),
    decreases b.len(),
{
    if b.len() == 0 {
        assert(a + b =~= a);
        assert(wire_of_buffers(a) + wire_of_buffers(b) =~= wire_of_buffers(a));
    } else {
        lemma_wire_of_buffers_concat(a, b.drop_last());
        assert((a + b).drop_last() =~= a + b.drop_last());
        assert((a + b).last() == b.last());
        let left = wire_of_buffers(a) + wire_of_buffers(b.drop_last());
        assert(wire_of_buffers(a) + wire_of_buffers(b) =~= left + b.last().wire());
    }
}

/// One turn of the writer loop: take the oldest pending buffer, if
/// any, and append its wire bytes to the output. Returns whether a
/// buffer was written.
pub fn writer_step(q: &mut HandoffQueue<SampleBuffer>, out: &mut Vec<u8>) -> (wrote: bool)
    requires
        old(q).well_formed(),
    ensures
        final(q).well_formed(),
        final(q).spec_capacity() == old(q).spec_capacity(),
        wrote == (old(q)@.len() > 0),
        wrote ==> final(q)@ == old(q)@.skip(1) && final(out)@ == old(out)@ + old(q)@[0].wire(),
        !wrote ==> final(q)@ == old(q)@ && final(out)@ == old(out)@,
{
    match q.pop() {
        Some(buf) => {
            let mut bytes = buf.serialize();
            out.append(&mut bytes);
            true
        },
        None => false,
    }
}

/// The writer loop run to exhaustion: drains the queue and appends
/// every pending buffer's wire bytes to the output in FIFO order.
pub fn drain_to_bytes(q: &mut HandoffQueue<SampleBuffer>, out: &mut Vec<u8>)
    requires
        old(q).well_formed(),
    ensures
        final(q).well_formed(),
        final(q).spec_capacity() == old(q).spec_capacity(),
        final(q)@ == Seq::<SampleBuffer>::empty(),
        final(out)@ == old(out)@ + wire_of_buffers(old(q)@),
{
    let ghost all = old(q)@;
    let ghost start = old(out)@;
    let ghost mut done: int = 0;
    loop
        invariant
            q.well_formed(),
            q.spec_capacity() == old(q).spec_capacity(),
            0 <= done <= all.len(),
            q@ == all.skip(done),
            out@ == start + wire_of_buffers(all.take(done)),
        ensures
            q.well_formed(),
            q.spec_capacity() == old(q).spec_capacity(),
            q@ == Seq::<SampleBuffer>::empty(),
            out@ == start + wire_of_buffers(all),
        decreases all.len() - done,
    {
        let wrote = writer_step(q, out);
        if !wrote {
            proof {
                assert(all.take(done) =~= all);
                assert(q@ =~= Seq::<SampleBuffer>::empty());
            }
            break;
        }
        proof {
            assert(all.skip(done)[0] == all[done]);
            assert(all.skip(done).skip(1) =~= all.skip(done + 1));
            assert(all.take(done + 1).drop_last() =~= all.take(done));
            assert(all.take(done + 1).last() == all[done]);
            done = done + 1;
        }
    }
}

} // verus!
