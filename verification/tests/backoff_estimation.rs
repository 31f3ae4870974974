use dist_semaphore::backoff::estimate_appropriate_sleep_duration;

#[test]
fn at_or_below_capacity_sleeps_the_base_duration() {
    assert_eq!(estimate_appropriate_sleep_duration(0, 4, 10), 10);
    assert_eq!(estimate_appropriate_sleep_duration(4, 4, 10), 10);
    assert_eq!(estimate_appropriate_sleep_duration(2, 4, 10), 10);
}

#[test]
fn scales_with_the_square_root_of_the_excess() {
    // excess 1..3 -> factor 1; 4..8 -> 2; 9..15 -> 3; 16 -> 4.
    assert_eq!(estimate_appropriate_sleep_duration(5, 4, 10), 10);
    assert_eq!(estimate_appropriate_sleep_duration(8, 4, 10), 20);
    assert_eq!(estimate_appropriate_sleep_duration(12, 4, 10), 20);
    assert_eq!(estimate_appropriate_sleep_duration(13, 4, 10), 30);
    assert_eq!(estimate_appropriate_sleep_duration(20, 4, 10), 40);
}

#[test]
fn the_factor_is_clamped_at_sixteen() {
    // excess 256 -> isqrt 256 = 16; anything larger stays at 16.
    assert_eq!(estimate_appropriate_sleep_duration(260, 4, 10), 160);
    assert_eq!(estimate_appropriate_sleep_duration(10_000, 4, 10), 160);
    assert_eq!(estimate_appropriate_sleep_duration(u32::MAX, 1, 10), 160);
}

#[test]
fn saturates_instead_of_overflowing() {
    assert_eq!(
        estimate_appropriate_sleep_duration(100, 1, u64::MAX),
        u64::MAX
    );
    assert_eq!(
        estimate_appropriate_sleep_duration(100, 1, u64::MAX / 2),
        u64::MAX
    );
}

#[test]
fn never_decreases_as_the_position_grows() {
    let mut last: u64 = 0;
    let mut position: u32 = 0;
    while position < 2000 {
        let d = estimate_appropriate_sleep_duration(position, 3, 7);
        assert!(d >= last);
        assert!(d >= 7);
        last = d;
        position += 1;
    }
}
