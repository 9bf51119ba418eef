//! Real-time transport core for streaming PCM audio between two machines:
//! the wire framing of audio frames, the bounded jitter buffer that sits
//! between the audio callback and the socket, the audio callback glue, the
//! reader and writer steps between socket and buffer, and the connection
//! state machine with its reconnect policy.
//!
//! Samples are carried as the 32-bit patterns of IEEE-754 single precision
//! values; silence is the pattern of positive zero.

pub mod codec;
pub mod ring;
pub mod adapter;
pub mod sequence;
pub mod latency;
pub mod session;
pub mod reader;
pub mod writer;
pub mod stream;
