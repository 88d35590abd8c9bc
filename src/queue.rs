//! The bounded single-producer/single-consumer sample queue that links the
//! decoding loop to the playback callback.
//!
//! The queue is viewed as the sequence of samples it holds, oldest first.
//! `push` transfers the longest prefix that fits, `pop` the oldest samples,
//! and neither ever waits, fails or panics.
use vstd::prelude::*;
use vstd::slice::slice_subrange;
use crate::ring::{
    Ring, RingConsumer, RingProducer, consumer_pop_slice, producer_push_slice,
    ring_split, ring_capacity, ring_capacity_of, ring_contents, ring_new, ring_occupied_len,
    ring_pop_slice, ring_push_slice,
};

verus! {

/// How many of `samples` a push into a queue holding `held` with room for
/// `cap` takes: all of them if they fit, else as many as there are free slots.
pub open spec fn push_count(held: Seq<u32>, cap: nat, samples: Seq<u32>) -> nat {
    if held.len() + samples.len() <= cap {
        samples.len()
    } else if held.len() <= cap {
        (cap - held.len()) as nat
    } else {
        0
    }
}

/// What a queue holding `held` holds after a push of `samples`.
pub open spec fn after_push(held: Seq<u32>, cap: nat, samples: Seq<u32>) -> Seq<u32> {
    held + samples.take(push_count(held, cap, samples) as int)
}

/// How many samples a pop into a buffer of `room` slots takes from `held`.
pub open spec fn pop_count(held: Seq<u32>, room: nat) -> nat {
    if room <= held.len() {
        room
    } else {
        held.len()
    }
}

/// `n` samples of silence.
pub open spec fn silence(n: nat) -> Seq<u32> {
    Seq::new(n, |i: int| 0u32)
}

/// A fixed-capacity FIFO queue of interleaved samples, each carried as its
/// 32-bit pattern.
pub struct SampleQueue {
    ring: Ring,
}

impl View for SampleQueue {
    type V = Seq<u32>;

    closed spec fn view(&self) -> Seq<u32> {
        ring_contents(self.ring)
    }
}

impl SampleQueue {
    /// The number of samples the queue was made to hold.
    pub closed spec fn cap(&self) -> nat {
        ring_capacity(self.ring)
    }

    /// The queue holds no more than its capacity, which is positive.
    pub closed spec fn wf(&self) -> bool {
        &&& 0 < self.cap() <= usize::MAX / 2
        &&& self@.len() <= self.cap()
    }

    /// An empty queue with room for `capacity` samples.
    pub fn new(capacity: usize) -> (q: SampleQueue)
        requires
            0 < capacity <= usize::MAX / 8,
        ensures
            q.wf(),
            q@ == Seq::<u32>::empty(),
            q.cap() == capacity,
    {
        SampleQueue { ring: ring_new(capacity) }
    }

    /// The number of samples the queue was made to hold.
    pub fn capacity(&self) -> (r: usize)
        ensures
            r == self.cap(),
    {
        ring_capacity_of(&self.ring)
    }

    /// The number of samples waiting to be popped.
    pub fn len(&self) -> (r: usize)
        requires
            self.wf(),
        ensures
            r == self@.len(),
            r <= self.cap(),
    {
        ring_occupied_len(&self.ring)
    }

    /// The number of samples a push could take now.
    pub fn free_len(&self) -> (r: usize)
        requires
            self.wf(),
        ensures
            r == self.cap() - self@.len(),
    {
        let cap = ring_capacity_of(&self.ring);
        let held = ring_occupied_len(&self.ring);
        cap - held
    }

    /// Whether the queue holds no sample.
    pub fn is_empty(&self) -> (r: bool)
        requires
            self.wf(),
        ensures
            r == (self@.len() == 0),
    {
        ring_occupied_len(&self.ring) == 0
    }

    /// Appends the longest prefix of `samples` that fits and returns its length.
    pub fn push(&mut self, samples: &[u32]) -> (n: usize)
        requires
            old(self).wf(),
        ensures
            final(self).wf(),
            final(self).cap() == old(self).cap(),
            n == push_count(old(self)@, old(self).cap(), samples@),
            n <= old(self).cap() - old(self)@.len(),
            final(self)@ == after_push(old(self)@, old(self).cap(), samples@),
    {
        ring_push_slice(&mut self.ring, samples)
    }

    /// Moves the oldest samples, as many as `out` has room for and the queue
    /// holds, to the front of `out`; the rest of `out` is left as it was.
    pub fn pop(&mut self, out: &mut Vec<u32>) -> (n: usize)
        requires
            old(self).wf(),
        ensures
            final(self).wf(),
            final(self).cap() == old(self).cap(),
            n == pop_count(old(self)@, old(out)@.len()),
            final(out)@ == old(self)@.take(n as int) + old(out)@.skip(n as int),
            final(self)@ == old(self)@.skip(n as int),
    {
        let n = ring_pop_slice(&mut self.ring, out);
        assert(final(out)@ =~= final(out)@.take(n as int) + final(out)@.skip(n as int));
        n
    }

    /// Appends the longest prefix of `samples[from..]` that fits and returns
    /// how far into `samples` the queue has now taken.
    pub fn push_from(&mut self, samples: &[u32], from: usize) -> (next: usize)
        requires
            old(self).wf(),
            from <= samples@.len(),
        ensures
            final(self).wf(),
            final(self).cap() == old(self).cap(),
            from <= next <= samples@.len(),
            next - from == push_count(old(self)@, old(self).cap(), samples@.skip(from as int)),
            final(self)@ == old(self)@ + samples@.subrange(from as int, next as int),
    {
        let rest = slice_subrange(samples, from, samples.len());
        assert(rest@ =~= samples@.skip(from as int));
        let n = self.push(rest);
        assert(samples@.subrange(from as int, (from + n) as int) =~= rest@.take(n as int));
        from + n
    }
}
impl SampleQueue {
    /// Splits the queue into the half the decoding thread pushes into and the
    /// half the playback thread pops from; neither half ever locks.
    pub fn split(self) -> (r: (SampleProducer, SampleConsumer)) {
        let (p, c) = ring_split(self.ring);
        (SampleProducer { ring: p }, SampleConsumer { ring: c })
    }
}

/// The pushing half of a split queue. The other half may pop at any time, so
/// what it holds is not known here.
pub struct SampleProducer {
    ring: RingProducer,
}

impl SampleProducer {
    /// Appends a prefix of `samples[from..]`, as long as the room seen at the
    /// time, and returns how far into `samples` the queue has now taken.
    pub fn push_from(&mut self, samples: &[u32], from: usize) -> (next: usize)
        requires
            from <= samples@.len(),
        ensures
            from <= next <= samples@.len(),
    {
        let rest = slice_subrange(samples, from, samples.len());
        let n = producer_push_slice(&mut self.ring, rest);
        from + n
    }
}

/// The popping half of a split queue. The other half may push at any time,
/// so what it holds is not known here.
pub struct SampleConsumer {
    ring: RingConsumer,
}

impl SampleConsumer {
    /// Moves the oldest samples to the front of `out`, no more than `out`
    /// has room for; the rest of `out` is left as it was.
    pub fn pop(&mut self, out: &mut Vec<u32>) -> (n: usize)
        ensures
            n <= old(out)@.len(),
            final(out)@.len() == old(out)@.len(),
            final(out)@.skip(n as int) == old(out)@.skip(n as int),
    {
        consumer_pop_slice(&mut self.ring, out)
    }
}

/// A run of queue operations: each step pushes a sequence of samples, then
/// pops into a buffer of the given number of slots.
pub type Steps = Seq<(Seq<u32>, nat)>;

/// What a run of `steps` on a queue holding `held` with room for `cap` pops,
/// in order, and what the queue holds afterwards.
pub open spec fn run_steps(held: Seq<u32>, cap: nat, steps: Steps) -> (Seq<u32>, Seq<u32>)
    decreases steps.len(),
{
    if steps.len() == 0 {
        (Seq::empty(), held)
    } else {
        let pushed = after_push(held, cap, steps[0].0);
        let k = pop_count(pushed, steps[0].1);
        let rest = run_steps(pushed.skip(k as int), cap, steps.drop_first());
        (pushed.take(k as int) + rest.0, rest.1)
    }
}

/// All the samples the steps push, in order.
pub open spec fn all_pushed(steps: Steps) -> Seq<u32>
    decreases steps.len(),
{
    if steps.len() == 0 {
        Seq::empty()
    } else {
        steps[0].0 + all_pushed(steps.drop_first())
    }
}

/// Whether every push of the run fits in the room left at its time, so that
/// no sample is turned away.
pub open spec fn pushes_fit(held: Seq<u32>, cap: nat, steps: Steps) -> bool
    decreases steps.len(),
{
    steps.len() == 0 || {
        let pushed = after_push(held, cap, steps[0].0);
        let k = pop_count(pushed, steps[0].1);
        &&& held.len() + steps[0].0.len() <= cap
        &&& pushes_fit(pushed.skip(k as int), cap, steps.drop_first())
    }
}

/// A well-formed queue never holds more than its capacity, and a push never
/// takes more than the free room.
pub proof fn lemma_within_capacity(q: SampleQueue, samples: Seq<u32>)
    requires
        q.wf(),
    ensures
        q@.len() <= q.cap(),
        push_count(q@, q.cap(), samples) <= q.cap() - q@.len(),
        after_push(q@, q.cap(), samples).len() <= q.cap(),
{
}

/// First in, first out: whatever the pushes and pops, as long as each push
/// fits in the room left at its time, the samples popped followed by those
/// still held are exactly the samples first held followed by all those pushed.
pub proof fn lemma_fifo(held: Seq<u32>, cap: nat, steps: Steps)
    requires
        pushes_fit(held, cap, steps),
    ensures
        run_steps(held, cap, steps).0 + run_steps(held, cap, steps).1 == held + all_pushed(steps),
    decreases steps.len(),
{
    if steps.len() > 0 {
        let s = steps[0].0;
        let pushed = after_push(held, cap, s);
        let k = pop_count(pushed, steps[0].1);
        let tail = steps.drop_first();
        assert(all_pushed(steps) == s + all_pushed(tail));
        assert(pushed == held + s);
        lemma_fifo(pushed.skip(k as int), cap, tail);
        let rest = run_steps(pushed.skip(k as int), cap, tail);
        assert(pushed.take(k as int) + pushed.skip(k as int) =~= pushed);
        assert(pushed.take(k as int) + rest.0 + rest.1 =~= pushed.take(k as int) + (rest.0 + rest.1));
        assert(held + s + all_pushed(tail) =~= held + (s + all_pushed(tail)));
    }
}

/// Pushes whose total fits in the room left all fit: no sample is turned
/// away, whatever the pops between them.
pub proof fn lemma_total_within_room_fits(held: Seq<u32>, cap: nat, steps: Steps)
    requires
        held.len() + all_pushed(steps).len() <= cap,
    ensures
        pushes_fit(held, cap, steps),
    decreases steps.len(),
{
    if steps.len() > 0 {
        let s = steps[0].0;
        let pushed = after_push(held, cap, s);
        let k = pop_count(pushed, steps[0].1);
        assert(all_pushed(steps) == s + all_pushed(steps.drop_first()));
        assert(pushed == held + s);
        lemma_total_within_room_fits(pushed.skip(k as int), cap, steps.drop_first());
    }
}

/// A frame that fits in an empty queue comes out whole and in order: pushed
/// into the empty queue it is taken entirely, and a pop into a buffer of its
/// length hands back exactly its samples and leaves the queue empty.
pub proof fn lemma_whole_frame_delivered(cap: nat, frame: Seq<u32>)
    requires
        frame.len() <= cap,
    ensures
        push_count(Seq::empty(), cap, frame) == frame.len(),
        after_push(Seq::empty(), cap, frame) == frame,
        pop_count(after_push(Seq::empty(), cap, frame), frame.len()) == frame.len(),
        after_push(Seq::empty(), cap, frame).take(frame.len() as int) == frame,
        after_push(Seq::empty(), cap, frame).skip(frame.len() as int).len() == 0,
{
    assert(Seq::<u32>::empty() + frame.take(frame.len() as int) =~= frame);
    assert(frame.take(frame.len() as int) =~= frame);
}

} // verus!
