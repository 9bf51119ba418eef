//! The glue that the audio device calls once per period. It only pops from
//! or pushes to a jitter buffer: no allocation, no I/O, no waiting.

use crate::ring::{pop_value, popped_n, pushed_all, JitterBuffer};
use vstd::prelude::*;

verus! {

/// Fills a device buffer for playback: one pop per slot, in order, with
/// silence wherever the jitter buffer has run dry.
pub fn fill_playback(buffer: &mut JitterBuffer, out: &mut [u32])
    requires
        old(buffer).wf(),
    ensures
        final(buffer).wf(),
        final(buffer)@ == popped_n(old(buffer)@, old(out)@.len()),
        final(out)@.len() == old(out)@.len(),
        forall|i: int|
            0 <= i < old(out)@.len() ==> final(out)@[i] == pop_value(
                popped_n(old(buffer)@, i as nat),
            ),
{
    let n: usize = out.len();
    let mut i: usize = 0;
    while i < n
        invariant
            i <= n,
            n == out@.len(),
            n == old(out)@.len(),
            buffer.wf(),
            buffer@ == popped_n(old(buffer)@, i as nat),
            forall|k: int|
                0 <= k < i ==> out@[k] == pop_value(popped_n(old(buffer)@, k as nat)),
        decreases n - i,
    {
        let r = buffer.pop();
        out[i] = r.value();
        i += 1;
    }
}

/// Hands a captured device buffer to the jitter buffer: one push per sample,
/// in order.
pub fn capture(buffer: &mut JitterBuffer, data: &[u32])
    requires
        old(buffer).wf(),
    ensures
        final(buffer).wf(),
        final(buffer)@ == pushed_all(old(buffer)@, data@),
{
    let n: usize = data.len();
    let mut i: usize = 0;
    while i < n
        invariant
            i <= n,
            n == data@.len(),
            buffer.wf(),
            buffer@ == pushed_all(old(buffer)@, data@.subrange(0, i as int)),
        decreases n - i,
    {
        let _ = buffer.push(data[i]);
        assert(data@.subrange(0, i + 1).drop_last() =~= data@.subrange(0, i as int));
        i += 1;
    }
    assert(data@.subrange(0, n as int) =~= data@);
}

} // verus!
