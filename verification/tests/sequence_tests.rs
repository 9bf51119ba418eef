use remote_audio::latency::latency_samples;
use remote_audio::sequence::{Arrival, SequenceTracker};

#[test]
fn frames_in_order() {
    let mut t = SequenceTracker::new();
    assert_eq!(t.expected, 0);
    for seq in 0..5u32 {
        assert_eq!(t.observe(seq), Arrival::InOrder);
    }
    assert_eq!(t, SequenceTracker { expected: 5, gap_count: 0, stale_count: 0, restart_count: 0 });
}

#[test]
fn a_skip_is_counted_by_its_size() {
    let mut t = SequenceTracker::new();
    t.observe(0);
    t.observe(1);
    let a = t.observe(5);
    assert_eq!(a, Arrival::Gap(3));
    assert!(a.accepted());
    assert_eq!(t.gap_count, 3);
    assert_eq!(t.expected, 6);
    assert_eq!(t.observe(6), Arrival::InOrder);
    assert_eq!(t.observe(8), Arrival::Gap(1));
    assert_eq!(t.gap_count, 4);
}

#[test]
fn a_late_frame_is_stale() {
    let mut t = SequenceTracker::new();
    for seq in [0u32, 1, 2, 5] {
        t.observe(seq);
    }
    let a = t.observe(4);
    assert_eq!(a, Arrival::Stale);
    assert!(!a.accepted());
    assert_eq!(t.stale_count, 1);
    assert_eq!(t.expected, 6);
    assert_eq!(t.gap_count, 2);
    assert_eq!(t.observe(5), Arrival::Stale);
    assert_eq!(t.stale_count, 2);
}

#[test]
fn frame_zero_out_of_turn_opens_a_new_stream() {
    let mut t = SequenceTracker::new();
    for seq in 0..100u32 {
        t.observe(seq);
    }
    let a = t.observe(0);
    assert_eq!(a, Arrival::Restart);
    assert!(a.accepted());
    assert_eq!(t, SequenceTracker { expected: 1, gap_count: 0, stale_count: 0, restart_count: 1 });
    assert_eq!(t.observe(1), Arrival::InOrder);
}

#[test]
fn sequence_numbers_wrap() {
    let mut t = SequenceTracker { expected: u32::MAX, gap_count: 0, stale_count: 0, restart_count: 0 };
    assert_eq!(t.observe(u32::MAX), Arrival::InOrder);
    assert_eq!(t.expected, 0);
    assert_eq!(t.observe(0), Arrival::InOrder);
    assert_eq!(t.expected, 1);
    assert_eq!(t.restart_count, 0);
}

#[test]
fn a_gap_across_the_wrap() {
    let mut t =
        SequenceTracker { expected: u32::MAX - 1, gap_count: 10, stale_count: 0, restart_count: 0 };
    assert_eq!(t.observe(2), Arrival::Gap(4));
    assert_eq!(t.gap_count, 14);
    assert_eq!(t.expected, 3);
}

#[test]
fn half_the_range_ahead_is_behind() {
    let mut t = SequenceTracker { expected: 1, gap_count: 0, stale_count: 0, restart_count: 0 };
    assert_eq!(t.observe(0x8000_0000), Arrival::Gap(0x7fff_ffff));
    let mut t = SequenceTracker { expected: 1, gap_count: 0, stale_count: 0, restart_count: 0 };
    assert_eq!(t.observe(0x8000_0001), Arrival::Stale);
    assert_eq!(t.expected, 1);
}

#[test]
fn counters_stop_at_their_ceiling() {
    let mut t =
        SequenceTracker { expected: 1, gap_count: u64::MAX - 1, stale_count: u64::MAX, restart_count: 0 };
    assert_eq!(t.observe(4), Arrival::Gap(3));
    assert_eq!(t.gap_count, u64::MAX);
    assert_eq!(t.observe(2), Arrival::Stale);
    assert_eq!(t.stale_count, u64::MAX);
}

#[test]
fn reset_keeps_the_counters() {
    let mut t = SequenceTracker { expected: 9, gap_count: 3, stale_count: 2, restart_count: 1 };
    t.reset();
    assert_eq!(t, SequenceTracker { expected: 0, gap_count: 3, stale_count: 2, restart_count: 1 });
}

#[test]
fn latency_in_samples_counts_whole_frames_of_all_channels() {
    assert_eq!(latency_samples(150, 44_100, 2), Some(13_230));
    assert_eq!(latency_samples(150, 48_000, 1), Some(7_200));
    // 1 ms at 1500 Hz is one and a half frames: one whole frame
    assert_eq!(latency_samples(1, 1_500, 2), Some(2));
    assert_eq!(latency_samples(1, 999, 2), Some(0));
    assert_eq!(latency_samples(0, 48_000, 2), Some(0));
    assert_eq!(latency_samples(10, 48_000, 0), Some(0));
}

#[test]
fn latency_beyond_any_buffer_is_refused() {
    assert_eq!(latency_samples(u32::MAX, u32::MAX, u16::MAX), None);
}
