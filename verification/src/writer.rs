//! The sending side between capture buffer and socket: assembling the next
//! frame from what the buffer holds.

use crate::codec::{
    decoded, encode, encoded, lemma_decode_encode, valid_frame, CodecError, Frame, FrameModel,
    MAX_CHANNELS, MAX_SAMPLES_PER_CHANNEL,
};
use crate::ring::{lemma_pops_in_order, popped_n, BufferModel, JitterBuffer};
use crate::sequence::following;
use vstd::prelude::*;

verus! {

/// The state of a writer loop.
#[derive(Clone, Copy, Debug, PartialEq, Eq, Structural)]
pub struct Writer {
    /// The sequence number of the next frame.
    pub next_sequence: u32,
    /// The number of interleaved channels in the stream.
    pub channels: u16,
}

/// How many samples go into the next frame when `available` are queued and
/// the caller wants at most `limit`: as many as both allow and a frame can
/// carry, rounded down to whole groups of one sample per channel.
pub open spec fn batch_len(channels: u16, available: nat, limit: nat) -> nat {
    let ceiling = (channels * MAX_SAMPLES_PER_CHANNEL) as nat;
    let wanted = if limit < ceiling {
        limit
    } else {
        ceiling
    };
    let most = if available < wanted {
        available
    } else {
        wanted
    };
    (most - most % (channels as nat)) as nat
}

/// The frame that a writer assembles from the `n` oldest queued samples.
pub open spec fn batch(w: Writer, b: BufferModel, n: nat) -> FrameModel {
    FrameModel {
        sequence: w.next_sequence,
        channels: w.channels,
        samples: b.items.subrange(0, n as int),
    }
}

impl Writer {
    /// The invariant of a writer: a channel count that a frame can declare.
    pub open spec fn wf(&self) -> bool {
        1 <= self.channels <= MAX_CHANNELS
    }

    /// The writer at the start of a stream of `channels` channels, or `None`
    /// exactly when no frame can declare that channel count.
    pub fn new(channels: u16) -> (r: Option<Writer>)
        ensures
            r == if 1 <= channels <= MAX_CHANNELS {
                Some(Writer { next_sequence: 0, channels })
            } else {
                None
            },
    {
        if 1 <= channels && channels <= MAX_CHANNELS {
            Some(Writer { next_sequence: 0, channels })
        } else {
            None
        }
    }

    /// Prepares for the stream of a new connection: sequence numbers begin
    /// at zero again.
    pub fn restart(&mut self)
        ensures
            *final(self) == (Writer { next_sequence: 0, ..*old(self) }),
    {
        self.next_sequence = 0;
    }

    /// Assembles the next frame from the oldest queued samples, at most
    /// `limit` of them, and gives it the next sequence number. When not even
    /// one sample per channel is queued, or `limit` allows none, there is no
    /// frame and nothing changes.
    pub fn next_frame(&mut self, buffer: &mut JitterBuffer, limit: usize) -> (r: Option<Frame>)
        requires
            old(self).wf(),
            old(buffer).wf(),
        ensures
            final(self).wf(),
            final(buffer).wf(),
            final(self).channels == old(self).channels,
            ({
                let n = batch_len(
                    old(self).channels,
                    old(buffer)@.items.len(),
                    limit as nat,
                );
                if n == 0 {
                    &&& r is None
                    &&& *final(self) == *old(self)
                    &&& final(buffer)@ == old(buffer)@
                } else {
                    &&& r is Some
                    &&& r->Some_0@ == batch(*old(self), old(buffer)@, n)
                    &&& valid_frame(r->Some_0@)
                    &&& final(self).next_sequence == following(old(self).next_sequence)
                    &&& final(buffer)@ == (BufferModel {
                        items: old(buffer)@.items.subrange(n as int, old(buffer)@.items.len() as int),
                        ..old(buffer)@
                    })
                }
            }),
    {
        let channels: usize = self.channels as usize;
        let ceiling: usize = channels * (MAX_SAMPLES_PER_CHANNEL as usize);
        let wanted: usize = if limit < ceiling {
            limit
        } else {
            ceiling
        };
        let available: usize = buffer.len();
        let most: usize = if available < wanted {
            available
        } else {
            wanted
        };
        assert(most % channels <= most) by (nonlinear_arith)
            requires
                channels > 0,
        ;
        let n: usize = most - most % channels;
        if n == 0 {
            return None;
        }
        let mut samples: Vec<u32> = Vec::with_capacity(n);
        let mut i: usize = 0;
        while i < n
            invariant
                i <= n,
                n <= old(buffer)@.items.len(),
                buffer.wf(),
                buffer@ == popped_n(old(buffer)@, i as nat),
                samples@ == old(buffer)@.items.subrange(0, i as int),
            decreases n - i,
        {
            proof {
                lemma_pops_in_order(old(buffer)@, i as nat);
            }
            let s = buffer.pop();
            samples.push(s.value());
            assert(samples@ =~= old(buffer)@.items.subrange(0, i + 1));
            i += 1;
        }
        proof {
            lemma_pops_in_order(old(buffer)@, n as nat);
        }
        let sequence: u32 = self.next_sequence;
        self.next_sequence = if sequence == u32::MAX {
            0
        } else {
            sequence + 1
        };
        Some(Frame { sequence, channels: self.channels, samples })
    }

    /// Assembles the next frame as [`Writer::next_frame`] does and puts it on
    /// the wire.
    pub fn next_bytes(&mut self, buffer: &mut JitterBuffer, limit: usize) -> (r: Option<Vec<u8>>)
        requires
            old(self).wf(),
            old(buffer).wf(),
        ensures
            final(self).wf(),
            final(buffer).wf(),
            final(self).channels == old(self).channels,
            ({
                let n = batch_len(
                    old(self).channels,
                    old(buffer)@.items.len(),
                    limit as nat,
                );
                if n == 0 {
                    &&& r is None
                    &&& *final(self) == *old(self)
                    &&& final(buffer)@ == old(buffer)@
                } else {
                    &&& r is Some
                    &&& r->Some_0@ == encoded(batch(*old(self), old(buffer)@, n))
                    &&& final(self).next_sequence == following(old(self).next_sequence)
                    &&& final(buffer)@ == (BufferModel {
                        items: old(buffer)@.items.subrange(n as int, old(buffer)@.items.len() as int),
                        ..old(buffer)@
                    })
                }
            }),
    {
        match self.next_frame(buffer, limit) {
            Some(frame) => Some(encode(&frame)),
            None => None,
        }
    }
}

/// What a writer puts on the wire, a reader gets back: the frame that a
/// writer assembles is valid, and decoding its wire form yields that frame.
pub proof fn lemma_batch_round_trip(w: Writer, b: BufferModel, limit: nat)
    requires
        w.wf(),
        batch_len(w.channels, b.items.len(), limit) > 0,
    ensures
        ({
            let f = batch(w, b, batch_len(w.channels, b.items.len(), limit));
            &&& valid_frame(f)
            &&& f.samples.len() % (w.channels as nat) == 0
            &&& decoded(encoded(f)) == Ok::<FrameModel, CodecError>(f)
        }),
{
    let ceiling = (w.channels * MAX_SAMPLES_PER_CHANNEL) as nat;
    let wanted = if limit < ceiling {
        limit
    } else {
        ceiling
    };
    let most = if b.items.len() < wanted {
        b.items.len()
    } else {
        wanted
    };
    let c = w.channels as nat;
    assert(most % c <= most && (most - most % c) % (c as int) == 0) by (nonlinear_arith)
        requires
            c > 0,
    ;
    lemma_decode_encode(batch(w, b, batch_len(w.channels, b.items.len(), limit)));
}

} // verus!
