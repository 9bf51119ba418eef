//! The receiving side between socket and playback buffer: what to do with
//! the bytes of one frame once they have been read.

use crate::adapter::capture;
use crate::codec::{decode, decoded, CodecError, Frame};
use crate::ring::{pushed_all, BufferModel, JitterBuffer};
use crate::sequence::{classify, counted, observed, Arrival, SequenceTracker};
use vstd::prelude::*;

verus! {

/// The state of a reader loop.
#[derive(Clone, Copy, Debug, PartialEq, Eq, Structural)]
pub struct Reader {
    /// What the sequence numbers have shown so far.
    pub tracker: SequenceTracker,
    /// How many frames were dropped because their bytes were no frame.
    pub codec_errors: u64,
}

/// The playback buffer after a frame that arrived as `arrival`: its samples
/// are queued in order, unless the frame is stale.
pub open spec fn delivered(b: BufferModel, arrival: Arrival, samples: Seq<u32>) -> BufferModel {
    if arrival.spec_accepted() {
        pushed_all(b, samples)
    } else {
        b
    }
}

impl Reader {
    /// The reader at the start of a stream.
    pub fn new() -> (r: Reader)
        ensures
            r.tracker == (SequenceTracker {
                expected: 0,
                gap_count: 0,
                stale_count: 0,
                restart_count: 0,
            }),
            r.codec_errors == 0,
    {
        Reader { tracker: SequenceTracker::new(), codec_errors: 0 }
    }

    /// Prepares for the stream of a new connection: frame zero is expected
    /// again; everything counted so far stays.
    pub fn restart(&mut self)
        ensures
            final(self).tracker == (SequenceTracker { expected: 0, ..old(self).tracker }),
            final(self).codec_errors == old(self).codec_errors,
    {
        self.tracker.reset();
    }

    /// Takes a decoded frame: notes its sequence number and, unless the frame
    /// is stale, queues its samples one by one. Never waits for a missing
    /// frame.
    pub fn accept(&mut self, buffer: &mut JitterBuffer, frame: &Frame) -> (a: Arrival)
        requires
            old(buffer).wf(),
        ensures
            a == classify(old(self).tracker.expected, frame.sequence),
            final(self).tracker == observed(old(self).tracker, frame.sequence),
            final(self).codec_errors == old(self).codec_errors,
            final(buffer).wf(),
            final(buffer)@ == delivered(old(buffer)@, a, frame.samples@),
    {
        let a = self.tracker.observe(frame.sequence);
        if a.accepted() {
            capture(buffer, frame.samples.as_slice());
        }
        a
    }

    /// Takes the bytes of one frame as read from the socket. Bytes that are
    /// no frame are dropped and counted, and nothing else changes; a frame is
    /// handled as by [`Reader::accept`].
    pub fn ingest(&mut self, buffer: &mut JitterBuffer, bytes: &[u8]) -> (r: Result<
        Arrival,
        CodecError,
    >)
        requires
            old(buffer).wf(),
        ensures
            final(buffer).wf(),
            match decoded(bytes@) {
                Err(e) => {
                    &&& r == Err::<Arrival, CodecError>(e)
                    &&& final(self).tracker == old(self).tracker
                    &&& final(self).codec_errors == counted(old(self).codec_errors, 1)
                    &&& final(buffer)@ == old(buffer)@
                },
                Ok(f) => {
                    &&& r == Ok::<Arrival, CodecError>(
                        classify(old(self).tracker.expected, f.sequence),
                    )
                    &&& final(self).tracker == observed(old(self).tracker, f.sequence)
                    &&& final(self).codec_errors == old(self).codec_errors
                    &&& final(buffer)@ == delivered(
                        old(buffer)@,
                        classify(old(self).tracker.expected, f.sequence),
                        f.samples,
                    )
                },
            },
    {
        match decode(bytes) {
            Ok(frame) => Ok(self.accept(buffer, &frame)),
            Err(e) => {
                if self.codec_errors < u64::MAX {
                    self.codec_errors = self.codec_errors + 1;
                }
                Err(e)
            },
        }
    }
}

} // verus!
