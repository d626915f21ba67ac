use copper::frame_clock::FrameClock;

#[test]
fn fresh_clock_counts_from_zero() {
    let c = FrameClock::new();
    assert_eq!(c.frame_time_micros(2, 3_000), 2_000_003);
}

#[test]
fn same_instant_gives_zero() {
    let mut c = FrameClock::new();
    c.mark_frame_start(1_700_000_000, 123_456_789);
    assert_eq!(c.frame_time_micros(1_700_000_000, 123_456_789), 0);
}

#[test]
fn elapsed_microseconds_across_a_second() {
    let mut c = FrameClock::new();
    c.mark_frame_start(10, 999_500_000);
    assert_eq!(c.frame_time_micros(11, 16_000), 516);
}

#[test]
fn sub_microsecond_parts_are_dropped() {
    let mut c = FrameClock::new();
    c.mark_frame_start(5, 1_999);
    // 5 s + 1 us start, 5 s + 2 us end
    assert_eq!(c.frame_time_micros(5, 2_001), 1);
}
