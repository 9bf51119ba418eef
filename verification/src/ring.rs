//! The jitter buffer: a bounded first-in first-out queue of samples between
//! the audio callback and the network.
//!
//! Neither side ever waits. A push into a full buffer discards the oldest
//! queued sample; a pop from an empty buffer yields silence. Both events are
//! counted. The storage is a `ringbuf` heap ring buffer of sample bit
//! patterns.

use ringbuf::Rb;
use vstd::prelude::*;

verus! {

/// The bit pattern of a silent sample.
pub const SILENCE: u32 = 0;

/// The storage of a buffer: a heap ring buffer of the `ringbuf` crate. Its
/// contents are known only through [`ring_items`] and [`ring_capacity`].
#[verifier::external_body]
pub struct SampleRing {
    inner: ringbuf::HeapRb<u32>,
}

/// The samples that a ring holds, oldest first.
pub uninterp spec fn ring_items(ring: SampleRing) -> Seq<u32>;

/// The number of samples that a ring was made to hold.
pub uninterp spec fn ring_capacity(ring: SampleRing) -> nat;

/// `ringbuf::HeapRb::<u32>::try_new`: when the allocation succeeds, the new
/// ring is empty and has the capacity asked for. A capacity of zero is left
/// out because the call panics on it; the upper bound keeps the ring's cursor
/// modulus, twice the capacity, within `usize`.
#[verifier::external_body]
fn ring_try_new(capacity: usize) -> (r: Option<SampleRing>)
    requires
        0 < capacity <= usize::MAX / 2,
    ensures
        r matches Some(ring) ==> ring_items(ring) == Seq::<u32>::empty() && ring_capacity(ring)
            == capacity,
{
    match ringbuf::HeapRb::<u32>::try_new(capacity) {
        Ok(inner) => Some(SampleRing { inner }),
        Err(_) => None,
    }
}

/// `ringbuf::Rb::push`: appends the sample behind the newest one and reports
/// `true` when fewer samples than the capacity are held; otherwise changes
/// nothing and reports `false`.
#[verifier::external_body]
fn ring_push(ring: &mut SampleRing, sample: u32) -> (accepted: bool)
    ensures
        ring_capacity(*final(ring)) == ring_capacity(*old(ring)),
        accepted == (ring_items(*old(ring)).len() < ring_capacity(*old(ring))),
        accepted ==> ring_items(*final(ring)) == ring_items(*old(ring)).push(sample),
        !accepted ==> ring_items(*final(ring)) == ring_items(*old(ring)),
{
    ring.inner.push(sample).is_ok()
}

/// `ringbuf::Rb::pop`: removes and returns the oldest sample, or returns
/// `None` and changes nothing when no sample is held.
#[verifier::external_body]
fn ring_pop(ring: &mut SampleRing) -> (r: Option<u32>)
    ensures
        ring_capacity(*final(ring)) == ring_capacity(*old(ring)),
        ring_items(*old(ring)).len() == 0 ==> r.is_none() && ring_items(*final(ring))
            == ring_items(*old(ring)),
        ring_items(*old(ring)).len() > 0 ==> r == Some(ring_items(*old(ring))[0]) && ring_items(
            *final(ring),
        ) == ring_items(*old(ring)).drop_first(),
{
    ring.inner.pop()
}

/// `ringbuf::Rb::len`: the number of samples held.
#[verifier::external_body]
fn ring_len(ring: &SampleRing) -> (n: usize)
    ensures
        n == ring_items(*ring).len(),
{
    ring.inner.len()
}

/// `ringbuf::Rb::capacity`: the number of samples that the ring was made to
/// hold.
#[verifier::external_body]
fn ring_capacity_of(ring: &SampleRing) -> (n: usize)
    ensures
        n == ring_capacity(*ring),
{
    ring.inner.capacity()
}

/// The mathematical value of a [`JitterBuffer`].
pub struct BufferModel {
    /// The queued samples, oldest first.
    pub items: Seq<u32>,
    /// The largest number of samples that can be queued.
    pub capacity: nat,
    /// How many pushes found the buffer full.
    pub overflows: nat,
    /// How many pops found the buffer empty.
    pub underflows: nat,
}

/// One operation on a buffer.
pub enum Op {
    Push(u32),
    Pop,
}

/// A counter after one more event: it counts up to `u64::MAX` and stays there.
pub open spec fn bump(count: nat) -> nat {
    if count < u64::MAX {
        count + 1
    } else {
        count
    }
}

/// The invariant of a buffer: it holds at most its capacity, which is not
/// zero, and its counters fit their type.
pub open spec fn model_wf(b: BufferModel) -> bool {
    &&& 1 <= b.capacity
    &&& b.items.len() <= b.capacity
    &&& b.overflows <= u64::MAX
    &&& b.underflows <= u64::MAX
}

/// The buffer after a push: the sample joins behind the newest; if the buffer
/// was full the oldest sample leaves first and one overflow is counted.
pub open spec fn pushed(b: BufferModel, sample: u32) -> BufferModel {
    if b.items.len() < b.capacity {
        BufferModel { items: b.items.push(sample), ..b }
    } else {
        BufferModel {
            items: b.items.drop_first().push(sample),
            overflows: bump(b.overflows),
            ..b
        }
    }
}

/// The buffer after a pop: the oldest sample leaves; if there was none, one
/// underflow is counted.
pub open spec fn popped(b: BufferModel) -> BufferModel {
    if b.items.len() > 0 {
        BufferModel { items: b.items.drop_first(), ..b }
    } else {
        BufferModel { underflows: bump(b.underflows), ..b }
    }
}

/// What a pop hands out: the oldest sample, or silence if there is none.
pub open spec fn pop_value(b: BufferModel) -> u32 {
    if b.items.len() > 0 {
        b.items[0]
    } else {
        SILENCE
    }
}

/// The buffer after pushing each of `samples` in order.
pub open spec fn pushed_all(b: BufferModel, samples: Seq<u32>) -> BufferModel
    decreases samples.len(),
{
    if samples.len() == 0 {
        b
    } else {
        pushed(pushed_all(b, samples.drop_last()), samples.last())
    }
}

/// The buffer after `n` pops.
pub open spec fn popped_n(b: BufferModel, n: nat) -> BufferModel
    decreases n,
{
    if n == 0 {
        b
    } else {
        popped(popped_n(b, (n - 1) as nat))
    }
}

/// The buffer after a sequence of operations.
pub open spec fn run(b: BufferModel, ops: Seq<Op>) -> BufferModel
    decreases ops.len(),
{
    if ops.len() == 0 {
        b
    } else {
        let before = run(b, ops.drop_last());
        match ops.last() {
            Op::Push(sample) => pushed(before, sample),
            Op::Pop => popped(before),
        }
    }
}

/// A fresh buffer for a latency target of `latency_samples`: twice that
/// capacity, and that many silent samples queued.
pub open spec fn prefilled_model(latency_samples: nat) -> BufferModel {
    BufferModel {
        items: Seq::new(latency_samples, |i: int| SILENCE),
        capacity: 2 * latency_samples,
        overflows: 0,
        underflows: 0,
    }
}

/// What a push did.
#[derive(Clone, Copy, Debug, PartialEq, Eq, Structural)]
pub enum PushResult {
    /// There was room; nothing was lost.
    Stored,
    /// The buffer was full; the oldest sample was discarded to make room.
    DroppedOldest,
}

/// What a pop produced.
#[derive(Clone, Copy, Debug, PartialEq, Eq, Structural)]
pub enum PopResult {
    /// The oldest queued sample.
    Sample(u32),
    /// The buffer was empty; silence stands in.
    Silence,
}

impl PopResult {
    /// The sample to play.
    pub open spec fn spec_value(self) -> u32 {
        match self {
            PopResult::Sample(s) => s,
            PopResult::Silence => SILENCE,
        }
    }

    /// The sample to play: the queued one, or silence.
    #[verifier::when_used_as_spec(spec_value)]
    pub fn value(self) -> (v: u32)
        ensures
            v == self.spec_value(),
    {
        match self {
            PopResult::Sample(s) => s,
            PopResult::Silence => SILENCE,
        }
    }
}

/// Why a buffer could not be made.
#[derive(Clone, Copy, Debug, PartialEq, Eq, Structural)]
pub enum BufferError {
    /// The latency target is zero samples, so the buffer would hold nothing.
    ZeroCapacity,
    /// Twice the latency target is more than a ring can index.
    TooLarge,
    /// The storage could not be allocated.
    OutOfMemory,
}

/// The largest latency target, in samples, for which a buffer can be made.
pub const MAX_LATENCY_SAMPLES: usize = usize::MAX / 4;

/// A bounded queue of samples that never makes either side wait.
pub struct JitterBuffer {
    ring: SampleRing,
    overflows: u64,
    underflows: u64,
}

impl View for JitterBuffer {
    type V = BufferModel;

    closed spec fn view(&self) -> BufferModel {
        BufferModel {
            items: ring_items(self.ring),
            capacity: ring_capacity(self.ring),
            overflows: self.overflows as nat,
            underflows: self.underflows as nat,
        }
    }
}

fn count_up(count: u64) -> (r: u64)
    ensures
        r == bump(count as nat),
{
    if count < u64::MAX {
        count + 1
    } else {
        count
    }
}

impl JitterBuffer {
    /// The invariant that every buffer made by this module satisfies.
    pub open spec fn wf(&self) -> bool {
        model_wf(self@)
    }

    /// Makes the buffer for a latency target of `latency_samples` samples:
    /// capacity twice the target, pre-filled with that many silent samples.
    ///
    /// A target of zero is refused as `ZeroCapacity`, one above
    /// [`MAX_LATENCY_SAMPLES`] as `TooLarge`. For any other target the only
    /// failure left is that of the allocation, `OutOfMemory`.
    pub fn new(latency_samples: usize) -> (r: Result<JitterBuffer, BufferError>)
        ensures
            latency_samples == 0 ==> r == Err::<JitterBuffer, BufferError>(
                BufferError::ZeroCapacity,
            ),
            latency_samples > MAX_LATENCY_SAMPLES ==> r == Err::<JitterBuffer, BufferError>(
                BufferError::TooLarge,
            ),
            0 < latency_samples <= MAX_LATENCY_SAMPLES ==> match r {
                Ok(b) => b.wf() && b@ == prefilled_model(latency_samples as nat),
                Err(e) => e == BufferError::OutOfMemory,
            },
    {
        if latency_samples == 0 {
            return Err(BufferError::ZeroCapacity);
        }
        if latency_samples > MAX_LATENCY_SAMPLES {
            return Err(BufferError::TooLarge);
        }
        let ring = ring_try_new(2 * latency_samples);
        JitterBuffer::prefilled(ring, latency_samples)
    }

    /// Makes the buffer from freshly allocated storage, or reports that there
    /// is none: `Err(OutOfMemory)` exactly when `ring` is `None`, and otherwise
    /// the buffer with `latency_samples` silent samples queued.
    pub fn prefilled(ring: Option<SampleRing>, latency_samples: usize) -> (r: Result<
        JitterBuffer,
        BufferError,
    >)
        requires
            0 < latency_samples,
            ring matches Some(fresh) ==> ring_items(fresh).len() == 0 && ring_capacity(fresh) == 2
                * latency_samples,
        ensures
            ring is None ==> r == Err::<JitterBuffer, BufferError>(BufferError::OutOfMemory),
            ring is Some ==> r is Ok && r->Ok_0.wf() && r->Ok_0@ == prefilled_model(
                latency_samples as nat,
            ),
    {
        let mut ring = match ring {
            Some(fresh) => fresh,
            None => {
                return Err(BufferError::OutOfMemory);
            },
        };
        let mut i: usize = 0;
        while i < latency_samples
            invariant
                i <= latency_samples,
                ring_capacity(ring) == 2 * latency_samples,
                ring_items(ring) =~= Seq::new(i as nat, |k: int| SILENCE),
            decreases latency_samples - i,
        {
            let _ = ring_push(&mut ring, SILENCE);
            i += 1;
        }
        let b = JitterBuffer { ring, overflows: 0, underflows: 0 };
        assert(b@.items =~= prefilled_model(latency_samples as nat).items);
        Ok(b)
    }

    /// Queues one sample without ever waiting. When the buffer is full the
    /// oldest queued sample is discarded first and the overflow is counted.
    pub fn push(&mut self, sample: u32) -> (r: PushResult)
        requires
            old(self).wf(),
        ensures
            final(self).wf(),
            final(self)@ == pushed(old(self)@, sample),
            r == if old(self)@.items.len() < old(self)@.capacity {
                PushResult::Stored
            } else {
                PushResult::DroppedOldest
            },
    {
        if ring_push(&mut self.ring, sample) {
            return PushResult::Stored;
        }
        let _ = ring_pop(&mut self.ring);
        let _ = ring_push(&mut self.ring, sample);
        self.overflows = count_up(self.overflows);
        PushResult::DroppedOldest
    }

    /// Takes the oldest queued sample without ever waiting. When the buffer
    /// is empty the result is silence and the underflow is counted.
    pub fn pop(&mut self) -> (r: PopResult)
        requires
            old(self).wf(),
        ensures
            final(self).wf(),
            final(self)@ == popped(old(self)@),
            r.spec_value() == pop_value(old(self)@),
            r == if old(self)@.items.len() > 0 {
                PopResult::Sample(old(self)@.items[0])
            } else {
                PopResult::Silence
            },
    {
        match ring_pop(&mut self.ring) {
            Some(s) => PopResult::Sample(s),
            None => {
                self.underflows = count_up(self.underflows);
                PopResult::Silence
            },
        }
    }

    /// The largest number of samples that can be queued: twice the latency
    /// target that the buffer was made for.
    pub fn capacity(&self) -> (n: usize)
        ensures
            n == self@.capacity,
    {
        ring_capacity_of(&self.ring)
    }

    /// Number of samples queued.
    pub fn len(&self) -> (n: usize)
        ensures
            n == self@.items.len(),
    {
        ring_len(&self.ring)
    }

    /// Whether no sample is queued.
    pub fn is_empty(&self) -> (e: bool)
        ensures
            e == (self@.items.len() == 0),
    {
        ring_len(&self.ring) == 0
    }

    /// How many pushes found the buffer full, counted up to `u64::MAX`.
    pub fn overflow_count(&self) -> (n: u64)
        ensures
            n == self@.overflows,
    {
        self.overflows
    }

    /// How many pops found the buffer empty, counted up to `u64::MAX`.
    pub fn underflow_count(&self) -> (n: u64)
        ensures
            n == self@.underflows,
    {
        self.underflows
    }
}

/// Whatever is pushed and popped, in whatever order, the buffer keeps its
/// invariant and its capacity, so a pop is always answered at once: with
/// the oldest sample, or with silence.
pub proof fn lemma_run_keeps_invariant(b: BufferModel, ops: Seq<Op>)
    requires
        model_wf(b),
    ensures
        model_wf(run(b, ops)),
        run(b, ops).capacity == b.capacity,
    decreases ops.len(),
{
    if ops.len() > 0 {
        lemma_run_keeps_invariant(b, ops.drop_last());
    }
}

/// Pushing `samples` without a pop in between keeps the newest samples and
/// discards the oldest: if the queue and the new samples together exceed the
/// capacity by `lost`, exactly the `lost` oldest are gone, and the overflow
/// counter has gone up by `lost` (up to its ceiling).
pub proof fn lemma_push_overflow(b: BufferModel, samples: Seq<u32>)
    requires
        model_wf(b),
    ensures
        ({
            let all = b.items + samples;
            let lost = if all.len() > b.capacity {
                all.len() - b.capacity
            } else {
                0
            };
            let after = pushed_all(b, samples);
            &&& model_wf(after)
            &&& after.capacity == b.capacity
            &&& after.underflows == b.underflows
            &&& after.items == all.subrange(lost, all.len() as int)
            &&& after.overflows == if b.overflows + lost <= u64::MAX {
                b.overflows + lost
            } else {
                u64::MAX as int
            }
        }),
    decreases samples.len(),
{
    let all = b.items + samples;
    if samples.len() == 0 {
        assert(all =~= b.items);
        assert(all.subrange(0, all.len() as int) =~= b.items);
    } else {
        let earlier = samples.drop_last();
        lemma_push_overflow(b, earlier);
        let mid = pushed_all(b, earlier);
        let after = pushed(mid, samples.last());
        let part = b.items + earlier;
        assert(all =~= part.push(samples.last()));
        let lost = if all.len() > b.capacity {
            all.len() - b.capacity
        } else {
            0
        };
        assert(after.items =~= all.subrange(lost, all.len() as int));
    }
}

/// Pops hand the queued samples out oldest first: the pop after `i` earlier
/// ones yields sample `i`, and after `n` pops the first `n` samples are gone.
pub proof fn lemma_pops_in_order(b: BufferModel, n: nat)
    requires
        n <= b.items.len(),
    ensures
        popped_n(b, n).items == b.items.subrange(n as int, b.items.len() as int),
        popped_n(b, n).capacity == b.capacity,
        popped_n(b, n).overflows == b.overflows,
        popped_n(b, n).underflows == b.underflows,
        n < b.items.len() ==> pop_value(popped_n(b, n)) == b.items[n as int],
    decreases n,
{
    if n == 0 {
        assert(b.items.subrange(0, b.items.len() as int) =~= b.items);
    } else {
        lemma_pops_in_order(b, (n - 1) as nat);
        let before = popped_n(b, (n - 1) as nat);
        assert(before.items.drop_first() =~= b.items.subrange(n as int, b.items.len() as int));
    }
}

/// Each pop from an empty buffer yields silence, leaves the buffer empty and
/// counts one underflow: after `n` such pops the counter has gone up by `n`
/// (up to its ceiling).
pub proof fn lemma_underflow_counted(b: BufferModel, n: nat)
    requires
        model_wf(b),
        b.items.len() == 0,
    ensures
        popped_n(b, n).items.len() == 0,
        pop_value(popped_n(b, n)) == SILENCE,
        popped_n(b, n).overflows == b.overflows,
        popped_n(b, n).capacity == b.capacity,
        popped_n(b, n).underflows == if b.underflows + n <= u64::MAX {
            b.underflows + n
        } else {
            u64::MAX as nat
        },
    decreases n,
{
    if n > 0 {
        lemma_underflow_counted(b, (n - 1) as nat);
    }
}

/// The pre-fill delays playback by exactly the latency target: when a fresh
/// buffer receives `samples` (no more than fit beside the pre-fill), the
/// first `latency_samples` pops yield silence and the pops after them yield
/// the samples in the order in which they came.
pub proof fn lemma_prefill_delay(latency_samples: nat, samples: Seq<u32>, i: nat)
    requires
        0 < latency_samples <= MAX_LATENCY_SAMPLES,
        samples.len() <= latency_samples,
        i < latency_samples + samples.len(),
    ensures
        pop_value(popped_n(pushed_all(prefilled_model(latency_samples), samples), i)) == if i
            < latency_samples {
            SILENCE
        } else {
            samples[i - latency_samples]
        },
{
    let fresh = prefilled_model(latency_samples);
    lemma_push_overflow(fresh, samples);
    lemma_pops_in_order(pushed_all(fresh, samples), i);
}

} // verus!
