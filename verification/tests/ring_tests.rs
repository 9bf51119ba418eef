use remote_audio::adapter::{capture, fill_playback};
use remote_audio::ring::{BufferError, JitterBuffer, PopResult, PushResult, SILENCE};

fn empty_buffer(latency: usize) -> JitterBuffer {
    let mut b = JitterBuffer::new(latency).unwrap();
    for _ in 0..latency {
        assert_eq!(b.pop(), PopResult::Sample(SILENCE));
    }
    assert!(b.is_empty());
    b
}

#[test]
fn new_buffer_is_prefilled_with_silence() {
    let mut b = JitterBuffer::new(3).unwrap();
    assert_eq!(b.len(), 3);
    assert!(!b.is_empty());
    assert_eq!(b.overflow_count(), 0);
    assert_eq!(b.underflow_count(), 0);
    for _ in 0..3 {
        assert_eq!(b.pop(), PopResult::Sample(0));
    }
    assert_eq!(b.len(), 0);
    assert_eq!(b.underflow_count(), 0);
}

#[test]
fn capacity_is_twice_the_latency_target() {
    let mut b = JitterBuffer::new(3).unwrap();
    assert_eq!(b.capacity(), 6);
    assert_eq!(JitterBuffer::new(1).unwrap().capacity(), 2);
    assert_eq!(b.push(1), PushResult::Stored);
    assert_eq!(b.push(2), PushResult::Stored);
    assert_eq!(b.push(3), PushResult::Stored);
    assert_eq!(b.len(), 6);
    assert_eq!(b.push(4), PushResult::DroppedOldest);
    assert_eq!(b.len(), 6);
}

#[test]
fn zero_latency_is_refused() {
    assert_eq!(JitterBuffer::new(0).err(), Some(BufferError::ZeroCapacity));
}

#[test]
fn too_large_latency_is_refused() {
    assert_eq!(JitterBuffer::new(usize::MAX / 4 + 1).err(), Some(BufferError::TooLarge));
    assert_eq!(JitterBuffer::new(usize::MAX).err(), Some(BufferError::TooLarge));
}

#[test]
fn failed_allocation_is_reported() {
    assert_eq!(JitterBuffer::new(usize::MAX / 4).err(), Some(BufferError::OutOfMemory));
    assert_eq!(JitterBuffer::prefilled(None, 4).err(), Some(BufferError::OutOfMemory));
}

#[test]
fn samples_come_out_in_the_order_they_went_in() {
    let mut b = empty_buffer(4);
    for s in [10u32, 20, 30] {
        assert_eq!(b.push(s), PushResult::Stored);
    }
    assert_eq!(b.len(), 3);
    assert_eq!(b.pop(), PopResult::Sample(10));
    assert_eq!(b.pop(), PopResult::Sample(20));
    assert_eq!(b.len(), 1);
    assert_eq!(b.pop(), PopResult::Sample(30));
    assert_eq!(b.pop(), PopResult::Silence);
}

#[test]
fn overflow_drops_the_oldest_and_counts_each_drop() {
    // capacity 4, filled from empty with 4 + 2 samples
    let mut b = empty_buffer(2);
    for s in 1..=6u32 {
        b.push(s);
    }
    assert_eq!(b.overflow_count(), 2);
    assert_eq!(b.len(), 4);
    for s in 3..=6u32 {
        assert_eq!(b.pop(), PopResult::Sample(s));
    }
    assert_eq!(b.pop(), PopResult::Silence);
    assert_eq!(b.underflow_count(), 1);
}

#[test]
fn overflow_pushes_out_the_prefill_first() {
    let mut b = JitterBuffer::new(2).unwrap();
    for s in 1..=5u32 {
        b.push(s);
    }
    assert_eq!(b.overflow_count(), 3);
    for s in 2..=5u32 {
        assert_eq!(b.pop(), PopResult::Sample(s));
    }
    assert!(b.is_empty());
}

#[test]
fn underflow_yields_silence_and_is_counted_once_per_pop() {
    let mut b = empty_buffer(2);
    for n in 1..=5u64 {
        let r = b.pop();
        assert_eq!(r, PopResult::Silence);
        assert_eq!(r.value(), 0);
        assert_eq!(f32::from_bits(r.value()), 0.0);
        assert_eq!(b.underflow_count(), n);
    }
    assert_eq!(b.overflow_count(), 0);
    b.push(9);
    assert_eq!(b.pop().value(), 9);
    assert_eq!(b.underflow_count(), 5);
}

#[test]
fn pop_always_answers_through_any_mix_of_calls() {
    let mut b = JitterBuffer::new(2).unwrap();
    let mut state: u32 = 12345;
    for _ in 0..2000 {
        state = state.wrapping_mul(1_664_525).wrapping_add(1_013_904_223);
        if state & 0x10000 == 0 {
            b.push(state);
        } else {
            let before = b.len();
            let r = b.pop();
            assert_eq!(r == PopResult::Silence, before == 0);
        }
        assert!(b.len() <= 4);
    }
}

#[test]
fn playback_fills_every_slot() {
    let mut b = empty_buffer(4);
    capture(&mut b, &[1, 2, 3]);
    let mut out = [77u32; 5];
    fill_playback(&mut b, &mut out);
    assert_eq!(out, [1, 2, 3, 0, 0]);
    assert_eq!(b.underflow_count(), 2);
    assert!(b.is_empty());
}

#[test]
fn playback_into_no_slots_changes_nothing() {
    let mut b = JitterBuffer::new(2).unwrap();
    let mut out: [u32; 0] = [];
    fill_playback(&mut b, &mut out);
    assert_eq!(b.len(), 2);
    assert_eq!(b.underflow_count(), 0);
}

#[test]
fn capture_pushes_every_sample() {
    let mut b = empty_buffer(2);
    capture(&mut b, &[1, 2, 3, 4, 5, 6, 7]);
    assert_eq!(b.overflow_count(), 3);
    let mut out = [0u32; 4];
    fill_playback(&mut b, &mut out);
    assert_eq!(out, [4, 5, 6, 7]);
}

#[test]
fn prefill_delays_playback_by_the_latency_target() {
    let mut b = JitterBuffer::new(3).unwrap();
    capture(&mut b, &[1.0f32.to_bits(), 2.0f32.to_bits(), 3.0f32.to_bits()]);
    let mut out = [9u32; 6];
    fill_playback(&mut b, &mut out);
    let played: Vec<f32> = out.iter().map(|s| f32::from_bits(*s)).collect();
    assert_eq!(played, vec![0.0, 0.0, 0.0, 1.0, 2.0, 3.0]);
    assert_eq!(b.underflow_count(), 0);
    assert_eq!(b.overflow_count(), 0);
}
