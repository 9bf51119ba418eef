//! The latency target: a duration in milliseconds, turned once into a count
//! of samples for a given stream format.

use crate::ring::MAX_LATENCY_SAMPLES;
use vstd::prelude::*;

verus! {

/// The number of samples that `latency_ms` milliseconds of audio take at
/// `sample_rate` frames per second with `channels` samples per frame: whole
/// frames only, each counted with all its channels.
pub open spec fn latency_in_samples(latency_ms: u32, sample_rate: u32, channels: u16) -> int {
    (latency_ms * sample_rate / 1000) * channels
}

/// Turns a latency target into a count of samples.
///
/// Returns `None` exactly when the count is above [`MAX_LATENCY_SAMPLES`],
/// the most that a jitter buffer can be made for.
pub fn latency_samples(latency_ms: u32, sample_rate: u32, channels: u16) -> (r: Option<usize>)
    ensures
        latency_in_samples(latency_ms, sample_rate, channels) <= MAX_LATENCY_SAMPLES ==> r
            == Some(latency_in_samples(latency_ms, sample_rate, channels) as usize),
        latency_in_samples(latency_ms, sample_rate, channels) > MAX_LATENCY_SAMPLES ==> r
            is None,
{
    assert(latency_ms * sample_rate <= 0xffff_ffff * 0xffff_ffff) by (nonlinear_arith)
        requires
            latency_ms <= 0xffff_ffff,
            sample_rate <= 0xffff_ffff,
    ;
    let ticks: u128 = (latency_ms as u128) * (sample_rate as u128);
    let frames: u128 = ticks / 1000;
    assert(frames * channels <= 0xffff_ffff_ffff_ffff * 0xffff) by (nonlinear_arith)
        requires
            frames <= 0xffff_ffff_ffff_ffff,
            channels <= 0xffff,
    ;
    let samples: u128 = frames * (channels as u128);
    if samples > MAX_LATENCY_SAMPLES as u128 {
        None
    } else {
        Some(samples as usize)
    }
}

} // verus!
