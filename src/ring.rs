//! The lock-free ring buffer of the `ringbuf` crate, as the sample queue uses it.
//!
//! Its contents are named by `ring_contents` (oldest sample first) and its fixed
//! size by `ring_capacity`; each wrapper below states what the crate's method
//! does to them.
use vstd::prelude::*;
use ringbuf::traits::{Consumer, Observer, Producer, Split};

verus! {

/// A heap-allocated `ringbuf::HeapRb` of samples. The crate's type cannot be
/// declared to the verifier (its parameter is bounded by one of the crate's
/// traits), so it is held here, out of the verifier's sight.
#[verifier::external_body]
pub struct Ring {
    rb: ringbuf::HeapRb<u32>,
}

/// The samples held by a ring buffer, oldest first.
pub uninterp spec fn ring_contents(rb: Ring) -> Seq<u32>;

/// The number of samples a ring buffer was made to hold.
pub uninterp spec fn ring_capacity(rb: Ring) -> nat;

/// Relies on `HeapRb::new`: an empty buffer with exactly `capacity` slots
/// (it panics on a zero capacity, and when the slots would take more than
/// `isize::MAX` bytes).
#[verifier::external_body]
pub(crate) fn ring_new(capacity: usize) -> (r: Ring)
    requires
        0 < capacity,
        capacity <= usize::MAX / 8,
    ensures
        ring_contents(r) == Seq::<u32>::empty(),
        ring_capacity(r) == capacity as nat,
{
    Ring { rb: ringbuf::HeapRb::<u32>::new(capacity) }
}

/// Relies on `Observer::capacity`: the size the buffer was made with.
#[verifier::external_body]
pub(crate) fn ring_capacity_of(rb: &Ring) -> (r: usize)
    ensures
        r as nat == ring_capacity(*rb),
        ring_contents(*rb).len() <= r,
{
    rb.rb.capacity().get()
}

/// Relies on `Observer::occupied_len`: the number of samples held.
#[verifier::external_body]
pub(crate) fn ring_occupied_len(rb: &Ring) -> (r: usize)
    ensures
        r as nat == ring_contents(*rb).len(),
        r as nat <= ring_capacity(*rb),
{
    rb.rb.occupied_len()
}

/// Relies on `Producer::push_slice`: appends the longest prefix of `elems`
/// that fits in the free slots and returns its length.
#[verifier::external_body]
pub(crate) fn ring_push_slice(rb: &mut Ring, elems: &[u32]) -> (n: usize)
    ensures
        ring_capacity(*final(rb)) == ring_capacity(*old(rb)),
        n as nat == if elems@.len() + ring_contents(*old(rb)).len() <= ring_capacity(*old(rb)) {
            elems@.len()
        } else {
            (ring_capacity(*old(rb)) - ring_contents(*old(rb)).len()) as nat
        },
        ring_contents(*final(rb)) == ring_contents(*old(rb)) + elems@.take(n as int),
        ring_contents(*final(rb)).len() <= ring_capacity(*final(rb)),
{
    rb.rb.push_slice(elems)
}

/// Relies on `Consumer::pop_slice`: moves the oldest samples, as many as
/// `out` has room for and the buffer holds, to the front of `out`, leaving the
/// rest of `out` as it was, and returns how many it moved.
#[verifier::external_body]
pub(crate) fn ring_pop_slice(rb: &mut Ring, out: &mut Vec<u32>) -> (n: usize)
    ensures
        ring_capacity(*final(rb)) == ring_capacity(*old(rb)),
        n as nat == if old(out)@.len() <= ring_contents(*old(rb)).len() {
            old(out)@.len()
        } else {
            ring_contents(*old(rb)).len()
        },
        final(out)@.len() == old(out)@.len(),
        final(out)@.take(n as int) == ring_contents(*old(rb)).take(n as int),
        final(out)@.skip(n as int) == old(out)@.skip(n as int),
        ring_contents(*final(rb)) == ring_contents(*old(rb)).skip(n as int),
        ring_contents(*final(rb)).len() <= ring_capacity(*final(rb)),
{
    rb.rb.pop_slice(out.as_mut_slice())
}

/// The producing half of a split `ringbuf::HeapRb`, which another thread
/// may drain at any time; held out of the verifier's sight like `Ring`.
#[verifier::external_body]
pub struct RingProducer {
    p: ringbuf::HeapProd<u32>,
}

/// The consuming half of a split `ringbuf::HeapRb`, which another thread
/// may fill at any time; held out of the verifier's sight like `Ring`.
#[verifier::external_body]
pub struct RingConsumer {
    c: ringbuf::HeapCons<u32>,
}

/// Relies on `Split::split` for `HeapRb`: the buffer shared by a producer
/// and a consumer half.
#[verifier::external_body]
pub(crate) fn ring_split(rb: Ring) -> (r: (RingProducer, RingConsumer)) {
    let (p, c) = rb.rb.split();
    (RingProducer { p }, RingConsumer { c })
}

/// Relies on `Producer::push_slice` of the producer half: it appends a prefix
/// of `elems`, as long as the free room it sees, and returns its length.
#[verifier::external_body]
pub(crate) fn producer_push_slice(p: &mut RingProducer, elems: &[u32]) -> (n: usize)
    ensures
        n <= elems@.len(),
{
    p.p.push_slice(elems)
}

/// Relies on `Consumer::pop_slice` of the consumer half: it moves the oldest
/// samples to the front of `out`, no more than `out` has room for, leaves
/// the rest of `out` as it was, and returns how many it moved.
#[verifier::external_body]
pub(crate) fn consumer_pop_slice(c: &mut RingConsumer, out: &mut Vec<u32>) -> (n: usize)
    ensures
        n <= old(out)@.len(),
        final(out)@.len() == old(out)@.len(),
        final(out)@.skip(n as int) == old(out)@.skip(n as int),
{
    c.c.pop_slice(out.as_mut_slice())
}

} // verus!
