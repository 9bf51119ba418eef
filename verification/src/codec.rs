//! Wire representation of one audio frame.
//!
//! A frame on the wire is an eight byte header followed by the samples:
//!
//! | bytes  | field                                   |
//! |--------|-----------------------------------------|
//! | 0..4   | sequence number, little-endian `u32`    |
//! | 4..6   | channel count, little-endian `u16`      |
//! | 6..8   | sample count, little-endian `u16`       |
//! | 8..    | `sample count` samples, four bytes each, little-endian |
//!
//! Every byte is produced and consumed by explicit arithmetic, so the format
//! does not depend on the machine's own byte order.

use vstd::prelude::*;

verus! {

/// Number of bytes in the header of a frame.
pub const HEADER_LEN: usize = 8;

/// Number of bytes that one sample takes on the wire.
pub const SAMPLE_LEN: usize = 4;

/// Largest channel count that a frame may declare.
pub const MAX_CHANNELS: u16 = 8;

/// Largest number of samples per channel that a frame may carry.
pub const MAX_SAMPLES_PER_CHANNEL: u16 = 4096;

/// Why a byte string is not a frame.
#[derive(Clone, Copy, Debug, PartialEq, Eq, Structural)]
pub enum CodecError {
    /// Fewer bytes are present than the header, or than the header declares.
    Truncated,
    /// The header declares a channel or sample count that is zero or above
    /// the ceiling.
    Malformed,
}

/// One batch of interleaved samples, tagged with its sequence number.
#[derive(Clone, Debug, PartialEq, Eq)]
pub struct Frame {
    pub sequence: u32,
    pub channels: u16,
    pub samples: Vec<u32>,
}

/// The mathematical value of a [`Frame`].
pub struct FrameModel {
    pub sequence: u32,
    pub channels: u16,
    pub samples: Seq<u32>,
}

impl View for Frame {
    type V = FrameModel;

    open spec fn view(&self) -> FrameModel {
        FrameModel { sequence: self.sequence, channels: self.channels, samples: self.samples@ }
    }
}

/// The decoded header of a frame.
#[derive(Clone, Copy, Debug, PartialEq, Eq, Structural)]
pub struct Header {
    pub sequence: u32,
    pub channels: u16,
    pub sample_count: u16,
}

/// Byte `i` (0 is the least significant) of a 32-bit value.
pub open spec fn le_byte(v: u32, i: int) -> u8 {
    if i == 0 {
        (v % 256) as u8
    } else if i == 1 {
        (v / 256 % 256) as u8
    } else if i == 2 {
        (v / 65536 % 256) as u8
    } else {
        (v / 16777216 % 256) as u8
    }
}

/// The four bytes of a 32-bit value, least significant first.
pub open spec fn u32_le(v: u32) -> Seq<u8> {
    seq![le_byte(v, 0), le_byte(v, 1), le_byte(v, 2), le_byte(v, 3)]
}

/// The two bytes of a 16-bit value, least significant first.
pub open spec fn u16_le(v: u16) -> Seq<u8> {
    seq![(v % 256) as u8, (v / 256) as u8]
}

/// The 32-bit value whose bytes, least significant first, are given.
pub open spec fn u32_of_le(b0: u8, b1: u8, b2: u8, b3: u8) -> u32 {
    (b0 + 256 * b1 + 65536 * b2 + 16777216 * b3) as u32
}

/// The 16-bit value whose bytes, least significant first, are given.
pub open spec fn u16_of_le(b0: u8, b1: u8) -> u16 {
    (b0 + 256 * b1) as u16
}

/// Whether a channel count and a sample count may stand in a header.
pub open spec fn counts_ok(channels: u16, sample_count: u16) -> bool {
    &&& 1 <= channels <= MAX_CHANNELS
    &&& 1 <= sample_count <= channels * MAX_SAMPLES_PER_CHANNEL
}

/// Whether a frame can be put on the wire.
pub open spec fn valid_frame(f: FrameModel) -> bool {
    &&& 1 <= f.channels <= MAX_CHANNELS
    &&& 1 <= f.samples.len() <= f.channels * MAX_SAMPLES_PER_CHANNEL
}

/// The header of a frame on the wire.
pub open spec fn header_bytes(sequence: u32, channels: u16, sample_count: u16) -> Seq<u8> {
    u32_le(sequence) + u16_le(channels) + u16_le(sample_count)
}

/// The samples of a frame on the wire.
pub open spec fn payload_bytes(samples: Seq<u32>) -> Seq<u8> {
    Seq::new((4 * samples.len()) as nat, |k: int| le_byte(samples[k / 4], k % 4))
}

/// The wire form of a frame.
pub open spec fn encoded(f: FrameModel) -> Seq<u8> {
    header_bytes(f.sequence, f.channels, f.samples.len() as u16) + payload_bytes(f.samples)
}

/// The sequence number that the first eight bytes declare.
pub open spec fn declared_sequence(bytes: Seq<u8>) -> u32 {
    u32_of_le(bytes[0], bytes[1], bytes[2], bytes[3])
}

/// The channel count that the first eight bytes declare.
pub open spec fn declared_channels(bytes: Seq<u8>) -> u16 {
    u16_of_le(bytes[4], bytes[5])
}

/// The sample count that the first eight bytes declare.
pub open spec fn declared_samples(bytes: Seq<u8>) -> u16 {
    u16_of_le(bytes[6], bytes[7])
}

/// Sample `i` of the payload that follows the header.
pub open spec fn sample_at(bytes: Seq<u8>, i: int) -> u32 {
    u32_of_le(bytes[8 + 4 * i], bytes[9 + 4 * i], bytes[10 + 4 * i], bytes[11 + 4 * i])
}

/// What the first eight bytes mean as a header.
pub open spec fn decoded_header(bytes: Seq<u8>) -> Result<Header, CodecError> {
    if bytes.len() < HEADER_LEN {
        Err(CodecError::Truncated)
    } else if !counts_ok(declared_channels(bytes), declared_samples(bytes)) {
        Err(CodecError::Malformed)
    } else {
        Ok(
            Header {
                sequence: declared_sequence(bytes),
                channels: declared_channels(bytes),
                sample_count: declared_samples(bytes),
            },
        )
    }
}

/// What a byte string means as a frame. Bytes beyond the declared length
/// belong to the next frame and are not looked at.
pub open spec fn decoded(bytes: Seq<u8>) -> Result<FrameModel, CodecError> {
    match decoded_header(bytes) {
        Err(e) => Err(e),
        Ok(h) => if bytes.len() < HEADER_LEN + SAMPLE_LEN * h.sample_count {
            Err(CodecError::Truncated)
        } else {
            Ok(
                FrameModel {
                    sequence: h.sequence,
                    channels: h.channels,
                    samples: Seq::new(h.sample_count as nat, |i: int| sample_at(bytes, i)),
                },
            )
        },
    }
}

/// Number of bytes that a frame with `sample_count` samples takes on the wire.
pub open spec fn wire_len(sample_count: int) -> int {
    HEADER_LEN + SAMPLE_LEN * sample_count
}

impl Header {
    /// Length in bytes of the whole frame that this header begins.
    pub fn frame_len(&self) -> (n: usize)
        ensures
            n == wire_len(self.sample_count as int),
    {
        HEADER_LEN + SAMPLE_LEN * (self.sample_count as usize)
    }
}

impl Frame {
    /// Whether the frame can be put on the wire.
    pub fn is_valid(&self) -> (ok: bool)
        ensures
            ok == valid_frame(self@),
    {
        1 <= self.channels && self.channels <= MAX_CHANNELS && 1 <= self.samples.len()
            && self.samples.len() <= (self.channels as usize) * (
        MAX_SAMPLES_PER_CHANNEL as usize)
    }
}

fn push_u16(out: &mut Vec<u8>, v: u16)
    ensures
        final(out)@ == old(out)@ + u16_le(v),
{
    out.push((v % 256) as u8);
    out.push((v / 256) as u8);
    assert(out@ =~= old(out)@ + u16_le(v));
}

fn push_u32(out: &mut Vec<u8>, v: u32)
    ensures
        final(out)@ == old(out)@ + u32_le(v),
{
    out.push((v % 256) as u8);
    out.push((v / 256 % 256) as u8);
    out.push((v / 65536 % 256) as u8);
    out.push((v / 16777216 % 256) as u8);
    assert(out@ =~= old(out)@ + u32_le(v));
}

/// Puts a frame on the wire.
pub fn encode(frame: &Frame) -> (out: Vec<u8>)
    requires
        valid_frame(frame@),
    ensures
        out@ == encoded(frame@),
        out@.len() == wire_len(frame@.samples.len() as int),
{
    let n: usize = frame.samples.len();
    let mut out: Vec<u8> = Vec::with_capacity(HEADER_LEN + SAMPLE_LEN * n);
    push_u32(&mut out, frame.sequence);
    push_u16(&mut out, frame.channels);
    push_u16(&mut out, n as u16);
    let ghost head = header_bytes(frame.sequence, frame.channels, n as u16);
    assert(out@ =~= head);
    let mut i: usize = 0;
    while i < n
        invariant
            i <= n,
            n == frame.samples@.len(),
            head.len() == 8,
            out@ == head + payload_bytes(frame.samples@.subrange(0, i as int)),
        decreases n - i,
    {
        push_u32(&mut out, frame.samples[i]);
        assert(out@ =~= head + payload_bytes(frame.samples@.subrange(0, i + 1))) by {
            let a = payload_bytes(frame.samples@.subrange(0, i as int));
            let b = payload_bytes(frame.samples@.subrange(0, i + 1));
            assert(b =~= a + u32_le(frame.samples@[i as int]));
        }
        i += 1;
    }
    assert(frame.samples@.subrange(0, n as int) =~= frame.samples@);
    out
}

fn read_u16(bytes: &[u8], at: usize) -> (v: u16)
    requires
        at + 2 <= bytes@.len(),
    ensures
        v == u16_of_le(bytes@[at as int], bytes@[at + 1]),
{
    (bytes[at] as u16) + 256 * (bytes[at + 1] as u16)
}

fn read_u32(bytes: &[u8], at: usize) -> (v: u32)
    requires
        at + 4 <= bytes@.len(),
    ensures
        v == u32_of_le(bytes@[at as int], bytes@[at + 1], bytes@[at + 2], bytes@[at + 3]),
{
    (bytes[at] as u32) + 256 * (bytes[at + 1] as u32) + 65536 * (bytes[at + 2] as u32) + 16777216
        * (bytes[at + 3] as u32)
}

/// Reads the header at the start of `bytes`.
///
/// Fails with `Truncated` exactly when fewer than eight bytes are given, and
/// otherwise with `Malformed` exactly when a declared count is zero or above
/// its ceiling.
pub fn decode_header(bytes: &[u8]) -> (r: Result<Header, CodecError>)
    ensures
        r == decoded_header(bytes@),
{
    if bytes.len() < HEADER_LEN {
        return Err(CodecError::Truncated);
    }
    let sequence: u32 = read_u32(bytes, 0);
    let channels: u16 = read_u16(bytes, 4);
    let sample_count: u16 = read_u16(bytes, 6);
    if channels == 0 || channels > MAX_CHANNELS || sample_count == 0 || (sample_count as u32) > (
    channels as u32) * (MAX_SAMPLES_PER_CHANNEL as u32) {
        return Err(CodecError::Malformed);
    }
    Ok(Header { sequence, channels, sample_count })
}

/// Reads the frame at the start of `bytes`.
///
/// Fails with `Truncated` when the header is incomplete, with `Malformed` when
/// a complete header declares a count that is zero or above its ceiling, and
/// with `Truncated` when the header is well-formed but fewer bytes follow it
/// than it declares. On every other input the frame is returned.
pub fn decode(bytes: &[u8]) -> (r: Result<Frame, CodecError>)
    ensures
        match decoded(bytes@) {
            Ok(m) => r is Ok && r->Ok_0@ == m,
            Err(e) => r is Err && r->Err_0 == e,
        },
{
    let h = match decode_header(bytes) {
        Ok(h) => h,
        Err(e) => {
            return Err(e);
        },
    };
    let n: usize = h.sample_count as usize;
    if bytes.len() < HEADER_LEN + SAMPLE_LEN * n {
        return Err(CodecError::Truncated);
    }
    let mut samples: Vec<u32> = Vec::with_capacity(n);
    let mut i: usize = 0;
    while i < n
        invariant
            i <= n,
            n <= u16::MAX,
            8 + 4 * n <= bytes@.len(),
            samples@ == Seq::new(i as nat, |k: int| sample_at(bytes@, k)),
        decreases n - i,
    {
        let v: u32 = read_u32(bytes, HEADER_LEN + SAMPLE_LEN * i);
        samples.push(v);
        assert(samples@ =~= Seq::new((i + 1) as nat, |k: int| sample_at(bytes@, k)));
        i += 1;
    }
    Ok(Frame { sequence: h.sequence, channels: h.channels, samples })
}

proof fn lemma_u16_round_trip(v: u16)
    ensures
        u16_of_le(u16_le(v)[0], u16_le(v)[1]) == v,
{
}

proof fn lemma_u32_round_trip(v: u32)
    ensures
        u32_of_le(le_byte(v, 0), le_byte(v, 1), le_byte(v, 2), le_byte(v, 3)) == v,
{
}

proof fn lemma_encoded_shape(f: FrameModel)
    requires
        valid_frame(f),
    ensures
        encoded(f).len() == wire_len(f.samples.len() as int),
        declared_sequence(encoded(f)) == f.sequence,
        declared_channels(encoded(f)) == f.channels,
        declared_samples(encoded(f)) == f.samples.len(),
        forall|k: int| 0 <= k < 8 ==> encoded(f)[k] == header_bytes(
            f.sequence,
            f.channels,
            f.samples.len() as u16,
        )[k],
{
    lemma_u32_round_trip(f.sequence);
    lemma_u16_round_trip(f.channels);
    lemma_u16_round_trip(f.samples.len() as u16);
}

/// Decoding what `encode` produced gives the frame back: for every valid
/// frame `f`, `decoded(encoded(f))` is `Ok(f)`.
pub proof fn lemma_decode_encode(f: FrameModel)
    requires
        valid_frame(f),
    ensures
        decoded(encoded(f)) == Ok::<FrameModel, CodecError>(f),
{
    lemma_encoded_shape(f);
    let bytes = encoded(f);
    let n = f.samples.len();
    let got = Seq::new(n, |i: int| sample_at(bytes, i));
    assert forall|i: int| 0 <= i < n implies got[i] == f.samples[i] by {
        lemma_u32_round_trip(f.samples[i]);
        assert(bytes[8 + 4 * i] == le_byte(f.samples[i], 0));
        assert(bytes[9 + 4 * i] == le_byte(f.samples[i], 1));
        assert(bytes[10 + 4 * i] == le_byte(f.samples[i], 2));
        assert(bytes[11 + 4 * i] == le_byte(f.samples[i], 3));
    }
    assert(got =~= f.samples);
}

/// Every proper prefix of the wire form of a valid frame is refused as
/// `Truncated`.
pub proof fn lemma_decode_prefix_truncated(f: FrameModel, len: int)
    requires
        valid_frame(f),
        0 <= len < encoded(f).len(),
    ensures
        decoded(encoded(f).subrange(0, len)) == Err::<FrameModel, CodecError>(
            CodecError::Truncated,
        ),
{
    lemma_encoded_shape(f);
    let whole = encoded(f);
    let part = whole.subrange(0, len);
    if len >= 8 {
        assert forall|k: int| 0 <= k < 8 implies part[k] == whole[k] by {}
        assert(declared_channels(part) == declared_channels(whole));
        assert(declared_samples(part) == declared_samples(whole));
    }
}

} // verus!
