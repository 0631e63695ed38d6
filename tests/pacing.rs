use fab_agon_emulator::pacing::{
    FrameClock, FrameTick, DRIFT_THRESHOLD_US, FRAME_INTERVAL_US,
};

#[test]
fn waits_before_the_interval() {
    let mut c = FrameClock::new(1_000);
    assert_eq!(c.tick(1_000 + 16_665), FrameTick::Wait);
    assert_eq!(c.last_frame_us, 1_000);
}

#[test]
fn advances_by_exactly_one_interval() {
    let mut c = FrameClock::new(1_000);
    assert_eq!(c.tick(1_000 + 16_666), FrameTick::Advance);
    assert_eq!(c.last_frame_us, 17_666);
    let mut d = FrameClock::new(0);
    assert_eq!(d.tick(40_000), FrameTick::Advance);
    assert_eq!(d.last_frame_us, FRAME_INTERVAL_US);
    assert_eq!(d.tick(40_000), FrameTick::Advance);
    assert_eq!(d.last_frame_us, 33_332);
    assert_eq!(d.tick(40_000), FrameTick::Wait);
}

#[test]
fn just_below_drift_threshold_advances() {
    let mut c = FrameClock::new(0);
    assert_eq!(c.tick(99_999), FrameTick::Advance);
    assert_eq!(c.last_frame_us, 16_666);
}

#[test]
fn at_drift_threshold_resets() {
    let mut c = FrameClock::new(0);
    assert_eq!(c.tick(DRIFT_THRESHOLD_US), FrameTick::Reset);
    assert_eq!(c.last_frame_us, 100_000);
}

#[test]
fn overrun_of_200ms_resets_once_without_catch_up() {
    let mut c = FrameClock::new(5_000);
    let now = 5_000 + 200_000;
    assert_eq!(c.tick(now), FrameTick::Reset);
    assert_eq!(c.last_frame_us, now);
    let mut frames = 0;
    for _ in 0..20 {
        if c.tick(now) != FrameTick::Wait {
            frames += 1;
        }
    }
    assert_eq!(frames, 0);
}

#[test]
fn reading_before_last_frame_waits() {
    let mut c = FrameClock::new(50_000);
    assert_eq!(c.tick(10), FrameTick::Wait);
    assert_eq!(c.last_frame_us, 50_000);
}

#[test]
fn clock_near_the_top_of_the_range() {
    let mut c = FrameClock::new(u64::MAX - 16_666);
    assert_eq!(c.tick(u64::MAX), FrameTick::Advance);
    assert_eq!(c.last_frame_us, u64::MAX);
}
