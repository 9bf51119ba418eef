//! One direction of a stream as a whole: the jitter buffer that the audio
//! device works on, the state of the network loop that feeds or drains it,
//! and the session that says whether that loop may run.
//!
//! The buffer lives as long as the stream. While the session is not
//! established nothing reaches or leaves it over the network, so playback
//! runs into silence and comes back when the connection does.

use crate::adapter::{capture, fill_playback};
use crate::codec::{decoded, encoded, CodecError, MAX_CHANNELS};
use crate::latency::{latency_in_samples, latency_samples};
use crate::reader::{delivered, Reader};
use crate::ring::{
    pop_value, popped_n, prefilled_model, pushed_all, BufferError, BufferModel, JitterBuffer,
    MAX_LATENCY_SAMPLES,
};
use crate::sequence::{classify, counted, following, observed, Arrival, SequenceTracker};
use crate::session::{stepped, Action, Event, RetryPolicy, Session, SessionState};
use crate::writer::{batch, batch_len, Writer};
use vstd::prelude::*;

verus! {

/// What both ends agree on before a stream begins.
#[derive(Clone, Copy, Debug, PartialEq, Eq, Structural)]
pub struct StreamConfig {
    /// The latency target in milliseconds.
    pub latency_ms: u32,
    /// Frames per second.
    pub sample_rate: u32,
    /// Interleaved channels per frame.
    pub channels: u16,
    /// How the session retries after a fault.
    pub retry: RetryPolicy,
}

/// Why a stream could not be started.
#[derive(Clone, Copy, Debug, PartialEq, Eq, Structural)]
pub enum StartError {
    /// The channel count is zero or more than a frame can declare.
    Channels,
    /// The latency target comes to no sample at all.
    ZeroLatency,
    /// The latency target comes to more samples than a buffer can hold.
    LatencyTooLarge,
    /// The buffer could not be allocated.
    OutOfMemory,
}

/// Which error, if any, a configuration is refused with before anything is
/// allocated.
pub open spec fn config_fault(config: StreamConfig) -> Option<StartError> {
    let samples = latency_in_samples(config.latency_ms, config.sample_rate, config.channels);
    if config.channels == 0 || config.channels > MAX_CHANNELS {
        Some(StartError::Channels)
    } else if samples == 0 {
        Some(StartError::ZeroLatency)
    } else if samples > MAX_LATENCY_SAMPLES {
        Some(StartError::LatencyTooLarge)
    } else {
        None
    }
}

/// The receiving end of a stream.
pub struct PlaybackSession {
    pub buffer: JitterBuffer,
    pub reader: Reader,
    pub session: Session,
}

/// The sending end of a stream.
pub struct CaptureSession {
    pub buffer: JitterBuffer,
    pub writer: Writer,
    pub session: Session,
}

fn make_buffer(config: &StreamConfig) -> (r: Result<JitterBuffer, StartError>)
    ensures
        match config_fault(*config) {
            Some(e) => r == Err::<JitterBuffer, StartError>(e),
            None => match r {
                Ok(b) => b.wf() && b@ == prefilled_model(
                    latency_in_samples(
                        config.latency_ms,
                        config.sample_rate,
                        config.channels,
                    ) as nat,
                ),
                Err(e) => e == StartError::OutOfMemory,
            },
        },
{
    if config.channels == 0 || config.channels > MAX_CHANNELS {
        return Err(StartError::Channels);
    }
    let samples: usize = match latency_samples(
        config.latency_ms,
        config.sample_rate,
        config.channels,
    ) {
        Some(n) => n,
        None => {
            return Err(StartError::LatencyTooLarge);
        },
    };
    match JitterBuffer::new(samples) {
        Ok(b) => Ok(b),
        Err(BufferError::ZeroCapacity) => Err(StartError::ZeroLatency),
        Err(BufferError::TooLarge) => Err(StartError::LatencyTooLarge),
        Err(BufferError::OutOfMemory) => Err(StartError::OutOfMemory),
    }
}

/// Starts the receiving end: a buffer sized and pre-filled for the latency
/// target, a reader that expects frame zero, and a session about to connect.
/// A configuration with a fault is refused with that fault; for any other the
/// only failure left is that of the allocation.
pub fn start_playback_session(config: &StreamConfig) -> (r: Result<PlaybackSession, StartError>)
    ensures
        match config_fault(*config) {
            Some(e) => r is Err && r->Err_0 == e,
            None => match r {
                Ok(p) => {
                    &&& p.wf()
                    &&& p.buffer@ == prefilled_model(
                        latency_in_samples(
                            config.latency_ms,
                            config.sample_rate,
                            config.channels,
                        ) as nat,
                    )
                    &&& p.reader.tracker.expected == 0
                    &&& p.reader.tracker.gap_count == 0
                    &&& p.reader.codec_errors == 0
                    &&& p.session.state == SessionState::Connecting
                    &&& p.session.policy == config.retry
                    &&& p.session.reconnect_count == 0
                    &&& !p.session.shutdown_requested
                },
                Err(e) => e == StartError::OutOfMemory,
            },
        },
{
    match make_buffer(config) {
        Ok(buffer) => Ok(
            PlaybackSession { buffer, reader: Reader::new(), session: Session::new(config.retry) },
        ),
        Err(e) => Err(e),
    }
}

/// Starts the sending end: a buffer pre-filled with silence for the latency
/// target, a writer that numbers its first frame zero, and a
/// session about to connect. Failures are those of
/// [`start_playback_session`].
pub fn start_capture_session(config: &StreamConfig) -> (r: Result<CaptureSession, StartError>)
    ensures
        match config_fault(*config) {
            Some(e) => r is Err && r->Err_0 == e,
            None => match r {
                Ok(c) => {
                    &&& c.wf()
                    &&& c.buffer@ == prefilled_model(
                        latency_in_samples(
                            config.latency_ms,
                            config.sample_rate,
                            config.channels,
                        ) as nat,
                    )
                    &&& c.writer == (Writer { next_sequence: 0, channels: config.channels })
                    &&& c.session.state == SessionState::Connecting
                    &&& c.session.policy == config.retry
                    &&& c.session.reconnect_count == 0
                    &&& !c.session.shutdown_requested
                },
                Err(e) => e == StartError::OutOfMemory,
            },
        },
{
    match make_buffer(config) {
        Ok(buffer) => Ok(
            CaptureSession {
                buffer,
                writer: Writer { next_sequence: 0, channels: config.channels },
                session: Session::new(config.retry),
            },
        ),
        Err(e) => Err(e),
    }
}

impl PlaybackSession {
    /// The invariant of the receiving end.
    pub open spec fn wf(&self) -> bool {
        self.buffer.wf()
    }

    /// Reports an event to the session and says what to do. The buffer is
    /// never touched; when the loops are to start, the reader expects frame
    /// zero again.
    pub fn on_event(&mut self, event: Event) -> (action: Action)
        requires
            old(self).wf(),
        ensures
            final(self).wf(),
            (final(self).session, action) == stepped(old(self).session, event),
            final(self).buffer@ == old(self).buffer@,
            final(self).reader.codec_errors == old(self).reader.codec_errors,
            final(self).reader.tracker == if action == Action::StartLoops {
                SequenceTracker { expected: 0, ..old(self).reader.tracker }
            } else {
                old(self).reader.tracker
            },
    {
        let action = self.session.step(event);
        match action {
            Action::StartLoops => {
                self.reader.restart();
            },
            _ => {},
        }
        action
    }

    /// Asks the session to end.
    pub fn shutdown(&mut self) -> (action: Action)
        requires
            old(self).wf(),
        ensures
            final(self).wf(),
            (final(self).session, action) == stepped(old(self).session, Event::ShutdownRequested),
            final(self).buffer@ == old(self).buffer@,
            final(self).reader == old(self).reader,
    {
        self.session.step(Event::ShutdownRequested)
    }

    /// Takes the bytes of one frame from the reader loop. Outside the
    /// established state the loop has to end: the answer is `None` and
    /// nothing changes. Otherwise the bytes are handled as by
    /// [`Reader::ingest`].
    pub fn receive(&mut self, bytes: &[u8]) -> (r: Option<Result<Arrival, CodecError>>)
        requires
            old(self).wf(),
        ensures
            final(self).wf(),
            final(self).session == old(self).session,
            old(self).session.state != SessionState::Established ==> {
                &&& r is None
                &&& final(self).reader == old(self).reader
                &&& final(self).buffer@ == old(self).buffer@
            },
            old(self).session.state == SessionState::Established ==> match decoded(bytes@) {
                Err(e) => {
                    &&& r == Some(Err::<Arrival, CodecError>(e))
                    &&& final(self).reader.tracker == old(self).reader.tracker
                    &&& final(self).reader.codec_errors == counted(
                        old(self).reader.codec_errors,
                        1,
                    )
                    &&& final(self).buffer@ == old(self).buffer@
                },
                Ok(f) => {
                    &&& r == Some(
                        Ok::<Arrival, CodecError>(
                            classify(old(self).reader.tracker.expected, f.sequence),
                        ),
                    )
                    &&& final(self).reader.tracker == observed(
                        old(self).reader.tracker,
                        f.sequence,
                    )
                    &&& final(self).reader.codec_errors == old(self).reader.codec_errors
                    &&& final(self).buffer@ == delivered(
                        old(self).buffer@,
                        classify(old(self).reader.tracker.expected, f.sequence),
                        f.samples,
                    )
                },
            },
    {
        if !self.session.is_established() {
            return None;
        }
        Some(self.reader.ingest(&mut self.buffer, bytes))
    }

    /// Fills a device buffer, in whatever state the session is: queued
    /// samples first, silence where there are none.
    pub fn render(&mut self, out: &mut [u32])
        requires
            old(self).wf(),
        ensures
            final(self).wf(),
            final(self).session == old(self).session,
            final(self).reader == old(self).reader,
            final(self).buffer@ == popped_n(old(self).buffer@, old(out)@.len()),
            final(out)@.len() == old(out)@.len(),
            forall|i: int|
                0 <= i < old(out)@.len() ==> final(out)@[i] == pop_value(
                    popped_n(old(self).buffer@, i as nat),
                ),
    {
        fill_playback(&mut self.buffer, out);
    }

    /// How many samples were discarded because the buffer was full.
    pub fn overflow_count(&self) -> (n: u64)
        ensures
            n == self.buffer@.overflows,
    {
        self.buffer.overflow_count()
    }

    /// How many times silence stood in for a missing sample.
    pub fn underflow_count(&self) -> (n: u64)
        ensures
            n == self.buffer@.underflows,
    {
        self.buffer.underflow_count()
    }

    /// How many times the connection was established again after a fault.
    pub fn reconnect_count(&self) -> (n: u64)
        ensures
            n == self.session.reconnect_count,
    {
        self.session.reconnect_count
    }
}

impl CaptureSession {
    /// The invariant of the sending end.
    pub open spec fn wf(&self) -> bool {
        self.buffer.wf() && self.writer.wf()
    }

    /// Reports an event to the session and says what to do. The buffer is
    /// never touched; when the loops are to start, sequence numbers begin at
    /// zero again.
    pub fn on_event(&mut self, event: Event) -> (action: Action)
        requires
            old(self).wf(),
        ensures
            final(self).wf(),
            (final(self).session, action) == stepped(old(self).session, event),
            final(self).buffer@ == old(self).buffer@,
            final(self).writer == if action == Action::StartLoops {
                Writer { next_sequence: 0, ..old(self).writer }
            } else {
                old(self).writer
            },
    {
        let action = self.session.step(event);
        match action {
            Action::StartLoops => {
                self.writer.restart();
            },
            _ => {},
        }
        action
    }

    /// Asks the session to end.
    pub fn shutdown(&mut self) -> (action: Action)
        requires
            old(self).wf(),
        ensures
            final(self).wf(),
            (final(self).session, action) == stepped(old(self).session, Event::ShutdownRequested),
            final(self).buffer@ == old(self).buffer@,
            final(self).writer == old(self).writer,
    {
        self.session.step(Event::ShutdownRequested)
    }

    /// Queues a captured device buffer, in whatever state the session is.
    pub fn record(&mut self, data: &[u32])
        requires
            old(self).wf(),
        ensures
            final(self).wf(),
            final(self).session == old(self).session,
            final(self).writer == old(self).writer,
            final(self).buffer@ == pushed_all(old(self).buffer@, data@),
    {
        capture(&mut self.buffer, data);
    }

    /// Gives the writer loop the bytes of the next frame, of at most `limit`
    /// samples. Outside the established state, or when less than one sample
    /// per channel is queued, there is none and nothing changes.
    pub fn next_bytes(&mut self, limit: usize) -> (r: Option<Vec<u8>>)
        requires
            old(self).wf(),
        ensures
            final(self).wf(),
            final(self).session == old(self).session,
            ({
                let n = if old(self).session.state == SessionState::Established {
                    batch_len(old(self).writer.channels, old(self).buffer@.items.len(), limit as nat)
                } else {
                    0
                };
                if n == 0 {
                    &&& r is None
                    &&& final(self).writer == old(self).writer
                    &&& final(self).buffer@ == old(self).buffer@
                } else {
                    &&& r is Some
                    &&& r->Some_0@ == encoded(batch(old(self).writer, old(self).buffer@, n))
                    &&& final(self).writer == (Writer {
                        next_sequence: following(old(self).writer.next_sequence),
                        ..old(self).writer
                    })
                    &&& final(self).buffer@ == (BufferModel {
                        items: old(self).buffer@.items.subrange(
                            n as int,
                            old(self).buffer@.items.len() as int,
                        ),
                        ..old(self).buffer@
                    })
                }
            }),
    {
        if !self.session.is_established() {
            return None;
        }
        self.writer.next_bytes(&mut self.buffer, limit)
    }

    /// How many samples were discarded because the buffer was full.
    pub fn overflow_count(&self) -> (n: u64)
        ensures
            n == self.buffer@.overflows,
    {
        self.buffer.overflow_count()
    }

    /// How many times a pop found the buffer empty.
    pub fn underflow_count(&self) -> (n: u64)
        ensures
            n == self.buffer@.underflows,
    {
        self.buffer.underflow_count()
    }

    /// How many times the connection was established again after a fault.
    pub fn reconnect_count(&self) -> (n: u64)
        ensures
            n == self.session.reconnect_count,
    {
        self.session.reconnect_count
    }
}

} // verus!
