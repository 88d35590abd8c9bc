//! The playback callback: fills the device's output buffer from the queue.
use vstd::prelude::*;
use crate::queue::{SampleConsumer, SampleQueue, pop_count, silence};

verus! {

/// Fills `out` with the oldest queued samples, in order, as many as are
/// queued, and the rest of `out` with silence; returns how many came from the
/// queue. It never waits: an underrun is heard as silence.
pub fn write_audio(out: &mut Vec<u32>, samples: &mut SampleQueue) -> (n: usize)
    requires
        old(samples).wf(),
    ensures
        final(samples).wf(),
        final(samples).cap() == old(samples).cap(),
        n == pop_count(old(samples)@, old(out)@.len()),
        final(out)@ == old(samples)@.take(n as int) + silence((old(out)@.len() - n) as nat),
        final(samples)@ == old(samples)@.skip(n as int),
{
    let n = samples.pop(out);
    silence_from(out, n);
    n
}

/// Fills the rest of `out`, from index `from` on, with silence.
fn silence_from(out: &mut Vec<u32>, from: usize)
    requires
        from <= old(out)@.len(),
    ensures
        final(out)@ == old(out)@.take(from as int) + silence((old(out)@.len() - from) as nat),
{
    let ghost filled = out@;
    let mut i: usize = from;
    while i < out.len()
        invariant
            from <= i <= out@.len(),
            out@.len() == filled.len(),
            forall|j: int| 0 <= j < from ==> out@[j] == filled[j],
            forall|j: int| from <= j < i ==> out@[j] == 0u32,
        decreases out@.len() - i,
    {
        out.set(i, 0u32);
        i = i + 1;
    }
    assert(out@ =~= filled.take(from as int) + silence((out@.len() - from) as nat));
}

/// The callback on the playback thread of a split queue: fills `out` with
/// the oldest samples the queue holds, as many as are there, and the rest of
/// `out` with silence; returns how many came from the queue. It never waits
/// nor locks.
pub fn write_audio_shared(out: &mut Vec<u32>, samples: &mut SampleConsumer) -> (n: usize)
    ensures
        n <= old(out)@.len(),
        final(out)@.len() == old(out)@.len(),
        final(out)@.skip(n as int) == silence((old(out)@.len() - n) as nat),
{
    let n = samples.pop(out);
    silence_from(out, n);
    assert(out@.skip(n as int) =~= silence((out@.len() - n) as nat));
    n
}

} // verus!
