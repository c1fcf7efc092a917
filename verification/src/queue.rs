//! The bounded hand-off queue between the synthesizer and the output callback.

use vstd::prelude::*;

verus! {

/// A `ringbuf::HeapRb` of samples, used unsplit. It is opaque to proofs: all
/// that is known of it is what the functions below state.
#[verifier::external_body]
pub struct SampleRing {
    ring: ringbuf::HeapRb<i32>,
}

/// The samples that a ring buffer holds, oldest first.
pub uninterp spec fn ring_contents(rb: SampleRing) -> Seq<i32>;

/// The number of slots that a ring buffer was made with.
pub uninterp spec fn ring_capacity(rb: SampleRing) -> nat;

/// Calls `ringbuf::HeapRb::try_new`, which reserves exactly `capacity` slots and
/// starts with both indices at zero: a buffer that comes back is empty and has
/// that capacity. Nothing comes back when the allocation fails. A zero capacity
/// would panic and is left out.
#[verifier::external_body]
fn ring_try_new(capacity: usize) -> (r: Option<SampleRing>)
    requires
        capacity > 0,
    ensures
        r matches Some(rb) ==> ring_contents(rb) == Seq::<i32>::empty() && ring_capacity(rb)
            == capacity,
{
    ringbuf::HeapRb::<i32>::try_new(capacity).ok().map(|ring| SampleRing { ring })
}

/// Calls `ringbuf::traits::Producer::try_push` on an unsplit buffer: the sample
/// is appended behind the others when a slot is free, and handed back, with
/// the buffer untouched, when none is.
#[verifier::external_body]
fn ring_try_push(rb: &mut SampleRing, sample: i32) -> (pushed: bool)
    requires
        ring_contents(*old(rb)).len() <= ring_capacity(*old(rb)),
    ensures
        ring_capacity(*final(rb)) == ring_capacity(*old(rb)),
        pushed == (ring_contents(*old(rb)).len() < ring_capacity(*old(rb))),
        pushed ==> ring_contents(*final(rb)) == ring_contents(*old(rb)).push(sample),
        !pushed ==> ring_contents(*final(rb)) == ring_contents(*old(rb)),
{
    ringbuf::traits::Producer::try_push(&mut rb.ring, sample).is_ok()
}

/// Calls `ringbuf::traits::Consumer::try_pop` on an unsplit buffer: the oldest
/// sample leaves and is returned, or nothing happens when the buffer is empty.
#[verifier::external_body]
fn ring_try_pop(rb: &mut SampleRing) -> (popped: Option<i32>)
    ensures
        ring_capacity(*final(rb)) == ring_capacity(*old(rb)),
        ring_contents(*old(rb)).len() == 0 ==> popped.is_none() && ring_contents(*final(rb))
            == ring_contents(*old(rb)),
        ring_contents(*old(rb)).len() > 0 ==> popped == Some(ring_contents(*old(rb))[0])
            && ring_contents(*final(rb)) == ring_contents(*old(rb)).skip(1),
{
    ringbuf::traits::Consumer::try_pop(&mut rb.ring)
}

/// Calls `ringbuf::traits::Observer::vacant_len` on an unsplit buffer: the
/// number of slots that are still free.
#[verifier::external_body]
fn ring_vacant_len(rb: &SampleRing) -> (free: usize)
    requires
        ring_contents(*rb).len() <= ring_capacity(*rb),
    ensures
        free == ring_capacity(*rb) - ring_contents(*rb).len(),
{
    ringbuf::traits::Observer::vacant_len(&rb.ring)
}

/// Calls `ringbuf::traits::Observer::occupied_len` on an unsplit buffer: the
/// number of samples that wait in it.
#[verifier::external_body]
fn ring_occupied_len(rb: &SampleRing) -> (held: usize)
    requires
        ring_contents(*rb).len() <= ring_capacity(*rb),
    ensures
        held == ring_contents(*rb).len(),
{
    ringbuf::traits::Observer::occupied_len(&rb.ring)
}

/// Calls `ringbuf::traits::Observer::capacity` on an unsplit buffer: the
/// number of slots that it was made with.
#[verifier::external_body]
fn ring_slots(rb: &SampleRing) -> (slots: usize)
    ensures
        slots == ring_capacity(*rb),
{
    ringbuf::traits::Observer::capacity(&rb.ring).get()
}

/// The producing half of a split `ringbuf::HeapRb`, a `ringbuf::HeapProd`.
#[verifier::external_body]
pub struct ProducerRing {
    prod: ringbuf::HeapProd<i32>,
}

/// The consuming half of a split `ringbuf::HeapRb`, a `ringbuf::HeapCons`.
#[verifier::external_body]
pub struct ConsumerRing {
    cons: ringbuf::HeapCons<i32>,
}

/// The slots that a producing half knows to be free: those between its write
/// index and the read index as it last fetched it. The consuming half can
/// only add to them.
pub uninterp spec fn producer_room(p: ProducerRing) -> nat;

/// The samples that a consuming half knows to wait, oldest first: those
/// between its read index and the write index as it last fetched it. The
/// producing half can only append behind them.
pub uninterp spec fn consumer_ready(c: ConsumerRing) -> Seq<i32>;

/// Calls `ringbuf::traits::Split::split`, which shares the buffer between a
/// producing and a consuming half. Each half starts from the buffer's indices
/// as they are: the one knows the free slots, the other the waiting samples.
#[verifier::external_body]
fn ring_split(rb: SampleRing) -> (halves: (ProducerRing, ConsumerRing))
    requires
        ring_contents(rb).len() <= ring_capacity(rb),
    ensures
        producer_room(halves.0) == ring_capacity(rb) - ring_contents(rb).len(),
        consumer_ready(halves.1) == ring_contents(rb),
{
    let (prod, cons) = ringbuf::traits::Split::split(rb.ring);
    (ProducerRing { prod }, ConsumerRing { cons })
}

/// Calls `ringbuf::traits::Observer::vacant_len` on a producing half, which
/// fetches the read index anew and counts the free slots from it. The count
/// is what the half then knows, and is no less than what it knew before.
#[verifier::external_body]
fn producer_fetch_room(p: &mut ProducerRing) -> (free: usize)
    ensures
        free == producer_room(*final(p)),
        producer_room(*final(p)) >= producer_room(*old(p)),
{
    ringbuf::traits::Observer::vacant_len(&p.prod)
}

/// Calls `ringbuf::traits::Producer::try_push` on a producing half. While the
/// half knows of a free slot the sample goes in and one slot less is free.
/// Else the half fetches the read index anew, and the sample goes in or not
/// by what the consuming half has freed; where it does not, no slot is free.
#[verifier::external_body]
fn producer_try_push(p: &mut ProducerRing, sample: i32) -> (pushed: bool)
    ensures
        producer_room(*old(p)) > 0 ==> pushed && producer_room(*final(p)) == producer_room(*old(p))
            - 1,
        !pushed ==> producer_room(*final(p)) == 0,
{
    ringbuf::traits::Producer::try_push(&mut p.prod, sample).is_ok()
}

/// Calls `ringbuf::traits::Consumer::try_pop` on a consuming half. While the
/// half knows of a waiting sample the oldest one leaves and is returned. Else
/// the half fetches the write index anew, and returns a sample or none by
/// what the producing half has appended; where it returns none, none waits.
#[verifier::external_body]
fn consumer_try_pop(c: &mut ConsumerRing) -> (popped: Option<i32>)
    ensures
        consumer_ready(*old(c)).len() > 0 ==> popped == Some(consumer_ready(*old(c))[0])
            && consumer_ready(*final(c)) == consumer_ready(*old(c)).skip(1),
        popped.is_none() ==> consumer_ready(*final(c)) == Seq::<i32>::empty(),
{
    ringbuf::traits::Consumer::try_pop(&mut c.cons)
}

/// Why a queue could not be made.
#[derive(Clone, Copy, Debug, PartialEq, Eq, Structural)]
pub enum QueueError {
    /// A queue needs at least one slot.
    ZeroCapacity,
    /// The memory for the slots could not be had.
    AllocationFailed,
}

/// A fixed-capacity FIFO of raw samples, never resized.
pub struct HandoffQueue {
    ring: SampleRing,
}

impl View for HandoffQueue {
    type V = Seq<i32>;

    /// The waiting samples, oldest first.
    closed spec fn view(&self) -> Seq<i32> {
        ring_contents(self.ring)
    }
}

impl HandoffQueue {
    /// The number of slots.
    pub closed spec fn capacity_spec(&self) -> nat {
        ring_capacity(self.ring)
    }

    /// A queue has at least one slot and never holds more samples than slots.
    pub open spec fn wf(&self) -> bool {
        0 < self.capacity_spec() && self@.len() <= self.capacity_spec()
    }

    /// The number of slots that are free.
    pub open spec fn free_spec(&self) -> int {
        self.capacity_spec() - self@.len()
    }

    /// Wraps what the allocation gave: a buffer becomes an empty queue, and no
    /// buffer is a failed allocation.
    fn from_allocation(ring: Option<SampleRing>, Ghost(capacity): Ghost<nat>) -> (r:
        Result<HandoffQueue, QueueError>)
        requires
            capacity > 0,
            ring matches Some(rb) ==> ring_contents(rb) == Seq::<i32>::empty() && ring_capacity(rb)
                == capacity,
        ensures
            ring.is_none() <==> r == Err::<HandoffQueue, QueueError>(QueueError::AllocationFailed),
            ring.is_some() <==> r.is_ok(),
            r matches Ok(q) ==> q.wf() && q@ == Seq::<i32>::empty() && q.capacity_spec()
                == capacity,
    {
        match ring {
            Some(rb) => Ok(HandoffQueue { ring: rb }),
            None => Err(QueueError::AllocationFailed),
        }
    }

    /// Makes an empty queue of `capacity` slots. A zero capacity is refused;
    /// otherwise the only failure is that of the allocation.
    pub fn new(capacity: usize) -> (r: Result<HandoffQueue, QueueError>)
        ensures
            capacity == 0 <==> r == Err::<HandoffQueue, QueueError>(QueueError::ZeroCapacity),
            r matches Ok(q) ==> q.wf() && q@ == Seq::<i32>::empty() && q.capacity_spec()
                == capacity,
    {
        if capacity == 0 {
            return Err(QueueError::ZeroCapacity);
        }
        Self::from_allocation(ring_try_new(capacity), Ghost(capacity as nat))
    }

    /// The number of slots.
    pub fn capacity(&self) -> (n: usize)
        requires
            self.wf(),
        ensures
            n == self.capacity_spec(),
    {
        ring_slots(&self.ring)
    }

    /// The number of waiting samples.
    pub fn len(&self) -> (n: usize)
        requires
            self.wf(),
        ensures
            n == self@.len(),
    {
        ring_occupied_len(&self.ring)
    }

    /// The number of free slots.
    pub fn free(&self) -> (n: usize)
        requires
            self.wf(),
        ensures
            n == self.free_spec(),
    {
        ring_vacant_len(&self.ring)
    }

    /// Appends `sample` unless the queue is full. Returns whether it was
    /// appended; a full queue is left as it was.
    pub fn try_push(&mut self, sample: i32) -> (pushed: bool)
        requires
            old(self).wf(),
        ensures
            final(self).wf(),
            final(self).capacity_spec() == old(self).capacity_spec(),
            pushed == (old(self)@.len() < old(self).capacity_spec()),
            pushed ==> final(self)@ == old(self)@.push(sample),
            !pushed ==> final(self)@ == old(self)@,
            pushed == accepts(old(self)@, old(self).capacity_spec(), QueueOp::Push(sample)),
            final(self)@ == contents_after(
                old(self)@,
                old(self).capacity_spec(),
                QueueOp::Push(sample),
            ),
    {
        ring_try_push(&mut self.ring, sample)
    }

    /// Takes the oldest sample out, or returns `None` from an empty queue.
    pub fn try_pop(&mut self) -> (popped: Option<i32>)
        requires
            old(self).wf(),
        ensures
            final(self).wf(),
            final(self).capacity_spec() == old(self).capacity_spec(),
            old(self)@.len() == 0 ==> popped.is_none() && final(self)@ == old(self)@,
            old(self)@.len() > 0 ==> popped == Some(old(self)@[0]) && final(self)@ == old(self)@.skip(1),
            popped == pops(old(self)@, QueueOp::Pop),
            final(self)@ == contents_after(old(self)@, old(self).capacity_spec(), QueueOp::Pop),
    {
        ring_try_pop(&mut self.ring)
    }

    /// Splits the queue into the half that pushes and the half that pops, so
    /// that each of two threads owns one. The producer knows the free slots
    /// and the consumer the waiting samples.
    pub fn split(self) -> (halves: (SampleProducer, SampleConsumer))
        requires
            self.wf(),
        ensures
            halves.0.room() == self.free_spec(),
            halves.1.ready() == self@,
    {
        let (prod, cons) = ring_split(self.ring);
        (SampleProducer { ring: prod }, SampleConsumer { ring: cons })
    }

    /// Makes the call `op`. Returns what it handed out: the oldest sample for
    /// a pop on a queue that is not empty, nothing otherwise.
    pub fn apply(&mut self, op: QueueOp) -> (popped: Option<i32>)
        requires
            old(self).wf(),
        ensures
            final(self).wf(),
            final(self).capacity_spec() == old(self).capacity_spec(),
            popped == pops(old(self)@, op),
            final(self)@ == contents_after(old(self)@, old(self).capacity_spec(), op),
    {
        match op {
            QueueOp::Push(sample) => {
                let _ = self.try_push(sample);
                None
            },
            QueueOp::Pop => self.try_pop(),
        }
    }
}

/// The half of a split queue that pushes. It belongs to the one thread that
/// produces samples.
pub struct SampleProducer {
    ring: ProducerRing,
}

/// The half of a split queue that pops. It belongs to the one thread that
/// consumes samples.
pub struct SampleConsumer {
    ring: ConsumerRing,
}

impl SampleProducer {
    /// The slots that this half knows to be free. The other half can free
    /// more at any time, and never takes one away.
    pub closed spec fn room(&self) -> nat {
        producer_room(self.ring)
    }

    /// Looks anew at how many slots are free. What it returns is what this
    /// half then knows, and no less than it knew before.
    pub fn refresh(&mut self) -> (free: usize)
        ensures
            free == final(self).room(),
            final(self).room() >= old(self).room(),
    {
        producer_fetch_room(&mut self.ring)
    }

    /// Appends `sample` unless the queue is full; never waits. The push
    /// succeeds whenever this half knows of a free slot, and then one slot
    /// less is free; after one that fails this half knows of none.
    pub fn try_push(&mut self, sample: i32) -> (pushed: bool)
        ensures
            old(self).room() > 0 ==> pushed && final(self).room() == old(self).room() - 1,
            !pushed ==> final(self).room() == 0,
    {
        producer_try_push(&mut self.ring, sample)
    }
}

impl SampleConsumer {
    /// The samples that this half knows to wait, oldest first. The other
    /// half can append more at any time, and never changes these.
    pub closed spec fn ready(&self) -> Seq<i32> {
        consumer_ready(self.ring)
    }

    /// Takes the oldest sample out; never waits. While this half knows of a
    /// waiting sample, that one is returned; after a call that returns
    /// `None` it knows of none.
    pub fn try_pop(&mut self) -> (popped: Option<i32>)
        ensures
            old(self).ready().len() > 0 ==> popped == Some(old(self).ready()[0]) && final(self).ready() == old(self).ready().skip(1),
            popped.is_none() ==> final(self).ready() == Seq::<i32>::empty(),
    {
        consumer_try_pop(&mut self.ring)
    }
}

/// One call on a queue: a push of a sample, or a pop.
#[derive(Clone, Copy, Debug, PartialEq, Eq, Structural)]
pub enum QueueOp {
    Push(i32),
    Pop,
}

/// Whether `op` is a push that a queue of `capacity` slots holding `contents` accepts.
pub open spec fn accepts(contents: Seq<i32>, capacity: nat, op: QueueOp) -> bool {
    op is Push && contents.len() < capacity
}

/// What `op` hands out: the oldest sample for a pop on a queue that is not
/// empty, nothing otherwise.
pub open spec fn pops(contents: Seq<i32>, op: QueueOp) -> Option<i32> {
    if op is Pop && contents.len() > 0 {
        Some(contents[0])
    } else {
        None
    }
}

/// What a queue of `capacity` slots holds after `op`, if it held `contents` before.
pub open spec fn contents_after(contents: Seq<i32>, capacity: nat, op: QueueOp) -> Seq<i32> {
    match op {
        QueueOp::Push(sample) => if contents.len() < capacity {
            contents.push(sample)
        } else {
            contents
        },
        QueueOp::Pop => if contents.len() > 0 {
            contents.skip(1)
        } else {
            contents
        },
    }
}

/// What a queue holds after the calls `ops`, made in order.
pub open spec fn run_contents(contents: Seq<i32>, capacity: nat, ops: Seq<QueueOp>) -> Seq<i32>
    decreases ops.len(),
{
    if ops.len() == 0 {
        contents
    } else {
        contents_after(run_contents(contents, capacity, ops.drop_last()), capacity, ops.last())
    }
}

/// The samples that the pushes among `ops` got accepted, in the order of the calls.
pub open spec fn run_accepted(contents: Seq<i32>, capacity: nat, ops: Seq<QueueOp>) -> Seq<i32>
    decreases ops.len(),
{
    if ops.len() == 0 {
        Seq::<i32>::empty()
    } else {
        let before = run_contents(contents, capacity, ops.drop_last());
        let earlier = run_accepted(contents, capacity, ops.drop_last());
        match ops.last() {
            QueueOp::Push(sample) => if before.len() < capacity {
                earlier.push(sample)
            } else {
                earlier
            },
            QueueOp::Pop => earlier,
        }
    }
}

/// The samples that the pops among `ops` handed out, in the order of the calls.
pub open spec fn run_popped(contents: Seq<i32>, capacity: nat, ops: Seq<QueueOp>) -> Seq<i32>
    decreases ops.len(),
{
    if ops.len() == 0 {
        Seq::<i32>::empty()
    } else {
        let before = run_contents(contents, capacity, ops.drop_last());
        let earlier = run_popped(contents, capacity, ops.drop_last());
        match pops(before, ops.last()) {
            Some(sample) => earlier.push(sample),
            None => earlier,
        }
    }
}

/// First in, first out: however pushes and pops interleave, what was popped,
/// followed by what still waits, is what waited at first followed by what
/// was accepted since, each in its order. Nothing is lost, repeated or
/// reordered, and the queue never holds more than its capacity.
pub proof fn lemma_fifo(contents: Seq<i32>, capacity: nat, ops: Seq<QueueOp>)
    requires
        contents.len() <= capacity,
    ensures
        run_popped(contents, capacity, ops) + run_contents(contents, capacity, ops) == contents
            + run_accepted(contents, capacity, ops),
        run_contents(contents, capacity, ops).len() <= capacity,
    decreases ops.len(),
{
    if ops.len() == 0 {
        assert(Seq::<i32>::empty() + contents =~= contents + Seq::<i32>::empty());
    } else {
        let front = ops.drop_last();
        lemma_fifo(contents, capacity, front);
        let before = run_contents(contents, capacity, front);
        let popped = run_popped(contents, capacity, front);
        let accepted = run_accepted(contents, capacity, front);
        match ops.last() {
            QueueOp::Push(sample) => {
                if before.len() < capacity {
                    assert(popped + before.push(sample) =~= (popped + before).push(sample));
                    assert(contents + accepted.push(sample) =~= (contents + accepted).push(
                        sample,
                    ));
                }
            },
            QueueOp::Pop => {
                if before.len() > 0 {
                    assert(popped.push(before[0]) + before.skip(1) =~= popped + before);
                }
            },
        }
    }
}

/// On a queue that starts empty, the samples come out in exactly the order
/// in which they were accepted: what was popped is a prefix of what was pushed.
pub proof fn lemma_pops_follow_pushes(capacity: nat, ops: Seq<QueueOp>)
    ensures
        run_popped(Seq::<i32>::empty(), capacity, ops).is_prefix_of(
            run_accepted(Seq::<i32>::empty(), capacity, ops),
        ),
{
    let popped = run_popped(Seq::<i32>::empty(), capacity, ops);
    let accepted = run_accepted(Seq::<i32>::empty(), capacity, ops);
    let waiting = run_contents(Seq::<i32>::empty(), capacity, ops);
    lemma_fifo(Seq::<i32>::empty(), capacity, ops);
    assert(Seq::<i32>::empty() + accepted =~= accepted);
    assert(popped =~= (popped + waiting).subrange(0, popped.len() as int));
}

} // verus!
