//! Sequence numbers of received frames: loss, stale data and stream restarts.
//!
//! Sequence numbers count up by one per frame and wrap at 2^32. A receiver
//! keeps the number it expects next. A frame ahead of it reveals a gap, a
//! frame behind it is stale and discarded, and a frame numbered zero that was
//! not expected opens a new stream.

use vstd::prelude::*;

verus! {

/// How a received frame stands to the one that was expected.
#[derive(Clone, Copy, Debug, PartialEq, Eq, Structural)]
pub enum Arrival {
    /// The expected frame.
    InOrder,
    /// A later frame: this many frames before it never came.
    Gap(u32),
    /// An earlier frame than expected; it is discarded.
    Stale,
    /// Frame zero where a later one was expected: the sender began anew.
    Restart,
}

/// Half the sequence space: a frame less than this far ahead is ahead, any
/// other is behind.
pub const HALF_RANGE: u32 = 0x8000_0000;

/// The sequence number that follows `seq`.
pub open spec fn following(seq: u32) -> u32 {
    if seq == u32::MAX {
        0
    } else {
        (seq + 1) as u32
    }
}

/// How far `seq` is ahead of `expected`, counting through the wrap.
pub open spec fn distance_ahead(expected: u32, seq: u32) -> int {
    if seq >= expected {
        seq - expected
    } else {
        seq + 0x1_0000_0000 - expected
    }
}

/// How a frame numbered `seq` stands to the expected number.
pub open spec fn classify(expected: u32, seq: u32) -> Arrival {
    if seq == expected {
        Arrival::InOrder
    } else if seq == 0 {
        Arrival::Restart
    } else if distance_ahead(expected, seq) < HALF_RANGE {
        Arrival::Gap(distance_ahead(expected, seq) as u32)
    } else {
        Arrival::Stale
    }
}

/// A counter after `n` more events: it counts up to `u64::MAX` and stays there.
pub open spec fn counted(count: u64, n: int) -> u64 {
    if count + n <= u64::MAX {
        (count + n) as u64
    } else {
        u64::MAX
    }
}

/// What a receiver knows of the stream so far.
#[derive(Clone, Copy, Debug, PartialEq, Eq, Structural)]
pub struct SequenceTracker {
    /// The sequence number of the frame that should come next.
    pub expected: u32,
    /// How many frames never came.
    pub gap_count: u64,
    /// How many frames came too late and were discarded.
    pub stale_count: u64,
    /// How many times the sender began a new stream.
    pub restart_count: u64,
}

/// The tracker after a frame numbered `seq` has arrived.
pub open spec fn observed(t: SequenceTracker, seq: u32) -> SequenceTracker {
    match classify(t.expected, seq) {
        Arrival::InOrder => SequenceTracker { expected: following(seq), ..t },
        Arrival::Gap(missing) => SequenceTracker {
            expected: following(seq),
            gap_count: counted(t.gap_count, missing as int),
            ..t
        },
        Arrival::Stale => SequenceTracker { stale_count: counted(t.stale_count, 1), ..t },
        Arrival::Restart => SequenceTracker {
            expected: 1,
            restart_count: counted(t.restart_count, 1),
            ..t
        },
    }
}

fn count_more(count: u64, n: u32) -> (r: u64)
    ensures
        r == counted(count, n as int),
{
    if count <= u64::MAX - (n as u64) {
        count + (n as u64)
    } else {
        u64::MAX
    }
}

impl Arrival {
    /// Whether the frame's samples are to be played.
    pub open spec fn spec_accepted(self) -> bool {
        !(self is Stale)
    }

    /// Whether the frame's samples are to be played: all but stale frames.
    #[verifier::when_used_as_spec(spec_accepted)]
    pub fn accepted(self) -> (a: bool)
        ensures
            a == self.spec_accepted(),
    {
        match self {
            Arrival::Stale => false,
            _ => true,
        }
    }
}

impl SequenceTracker {
    /// The tracker at the start of a stream: frame zero is expected and
    /// nothing has been counted.
    pub fn new() -> (t: SequenceTracker)
        ensures
            t == (SequenceTracker { expected: 0, gap_count: 0, stale_count: 0, restart_count: 0 }),
    {
        SequenceTracker { expected: 0, gap_count: 0, stale_count: 0, restart_count: 0 }
    }

    /// Begins a new sequence space, as after a reconnect: frame zero is
    /// expected again and the counters stay.
    pub fn reset(&mut self)
        ensures
            *final(self) == (SequenceTracker { expected: 0, ..*old(self) }),
    {
        self.expected = 0;
    }

    /// Takes note of a frame numbered `seq` and says how it stands to the
    /// expected one. A gap raises the gap counter by the number of frames
    /// skipped; the receiver then goes on from the frame that came.
    pub fn observe(&mut self, seq: u32) -> (a: Arrival)
        ensures
            a == classify(old(self).expected, seq),
            *final(self) == observed(*old(self), seq),
    {
        let next: u32 = if seq == u32::MAX {
            0
        } else {
            seq + 1
        };
        if seq == self.expected {
            self.expected = next;
            Arrival::InOrder
        } else if seq == 0 {
            self.expected = 1;
            self.restart_count = count_more(self.restart_count, 1);
            Arrival::Restart
        } else {
            let ahead: u32 = if seq >= self.expected {
                seq - self.expected
            } else {
                (u32::MAX - self.expected) + seq + 1
            };
            if ahead < HALF_RANGE {
                self.expected = next;
                self.gap_count = count_more(self.gap_count, ahead);
                Arrival::Gap(ahead)
            } else {
                self.stale_count = count_more(self.stale_count, 1);
                Arrival::Stale
            }
        }
    }
}

/// A frame that comes `skipped` frames early, after `skipped` frames were
/// lost, is accepted, raises the gap counter by exactly `skipped` (up to the
/// counter's ceiling), and the frame after it is then the expected one.
pub proof fn lemma_skip_counted(t: SequenceTracker, skipped: u32)
    requires
        0 < skipped < HALF_RANGE,
        t.expected + skipped != 0x1_0000_0000,
    ensures
        ({
            let seq = ((t.expected + skipped) % 0x1_0000_0000) as u32;
            &&& classify(t.expected, seq) == Arrival::Gap(skipped)
            &&& classify(t.expected, seq).spec_accepted()
            &&& observed(t, seq).gap_count == counted(t.gap_count, skipped as int)
            &&& observed(t, seq).expected == following(seq)
            &&& classify(observed(t, seq).expected, following(seq)) == Arrival::InOrder
        }),
{
}

} // verus!
