use bevy_fps_counter::counter::{
    display_text, FpsCounter, FrameAction, STRING_FORMAT, STRING_INITIAL, STRING_MISSING, UPDATE_INTERVAL_NANOS,
};
use bevy_fps_counter::timer::IntervalTimer;

const FRAME: u64 = 16_000_000;

#[test]
fn default_counter_is_enabled_with_one_second_interval() {
    let c = FpsCounter::default();
    assert!(c.is_enabled());
    assert!(c.update_now);
    assert_eq!(c.timer.duration_nanos, 1_000_000_000);
    assert_eq!(UPDATE_INTERVAL_NANOS, 1_000_000_000);
    assert_eq!(c.timer.elapsed_nanos, 0);
}

#[test]
fn display_strings() {
    assert_eq!(STRING_FORMAT, "FPS: ");
    assert_eq!(STRING_INITIAL, "FPS: ...");
    assert_eq!(STRING_MISSING, "FPS: ???");
}

#[test]
fn first_frame_without_sample_shows_placeholder() {
    let mut c = FpsCounter::default();
    assert_eq!(c.advance(FRAME, None), Some("FPS: ???".to_string()));
}

#[test]
fn disable_while_showing_clears_on_next_frame() {
    let mut c = FpsCounter::default();
    assert_eq!(c.advance(FRAME, Some("60")), Some("FPS: 60".to_string()));
    c.disable();
    assert_eq!(c.advance(FRAME, Some("60")), Some(String::new()));
}

#[test]
fn enable_again_refreshes_on_next_frame() {
    let mut c = FpsCounter::default();
    assert_eq!(c.advance(FRAME, Some("60")), Some("FPS: 60".to_string()));
    c.disable();
    assert_eq!(c.advance(FRAME, Some("60")), Some(String::new()));
    c.enable();
    // Only a few milliseconds into the interval: the refresh does not wait for the boundary.
    assert_eq!(c.advance(FRAME, Some("59")), Some("FPS: 59".to_string()));
}

#[test]
fn disabled_readout_is_cleared_once() {
    let mut c = FpsCounter::default();
    c.disable();
    assert_eq!(c.advance(FRAME, Some("60")), Some(String::new()));
    for _ in 0..100 {
        assert_eq!(c.advance(500_000_000, Some("60")), None);
    }
    assert_eq!(c.timer.elapsed_nanos, 0);
}

#[test]
fn is_enabled_follows_last_switch() {
    let mut c = FpsCounter::default();
    let ops = [false, false, true, false, true, true, false];
    for on in ops {
        if on {
            c.enable();
        } else {
            c.disable();
        }
        assert_eq!(c.is_enabled(), on);
        assert!(c.update_now);
    }
}

#[test]
fn present_sample_shows_prefix_and_rate() {
    assert_eq!(display_text(Some("144")), "FPS: 144");
    assert_eq!(display_text(Some("0")), "FPS: 0");
    assert_eq!(display_text(None), "FPS: ???");
}

#[test]
fn frames_between_boundaries_write_nothing() {
    let mut c = FpsCounter::default();
    assert!(c.advance(FRAME, None).is_some());
    // 16 ms already elapsed; 61 more frames of 16 ms reach 992 ms.
    for _ in 0..61 {
        assert_eq!(c.advance(FRAME, Some("60")), None);
    }
    assert_eq!(c.timer.elapsed_nanos, 992_000_000);
    // The next frame crosses the one-second boundary.
    assert_eq!(c.advance(FRAME, Some("61")), Some("FPS: 61".to_string()));
    assert_eq!(c.timer.elapsed_nanos, 8_000_000);
    assert_eq!(c.advance(FRAME, Some("61")), None);
}

#[test]
fn refresh_latch_is_spent_after_one_frame() {
    let mut c = FpsCounter::default();
    assert!(c.advance(FRAME, None).is_some());
    assert!(!c.update_now);
    assert_eq!(c.advance(FRAME, None), None);
}

#[test]
fn timer_wraps_at_the_boundary() {
    let mut t = IntervalTimer::new(1_000_000_000);
    t.tick(900_000_000);
    assert_eq!(t.elapsed_nanos, 900_000_000);
    assert!(!t.just_finished());
    t.tick(300_000_000);
    assert_eq!(t.elapsed_nanos, 200_000_000);
    assert!(t.just_finished());
    t.tick(2_500_000_000);
    assert_eq!(t.elapsed_nanos, 700_000_000);
    assert!(t.just_finished());
    t.tick(1);
    assert!(!t.just_finished());
}

#[test]
fn paused_timer_keeps_its_time() {
    let mut t = IntervalTimer::new(1_000_000_000);
    t.tick(999_000_000);
    t.pause();
    assert!(t.is_paused());
    t.tick(5_000_000_000);
    assert_eq!(t.elapsed_nanos, 999_000_000);
    assert!(!t.just_finished());
    t.unpause();
    t.tick(1_000_000);
    assert_eq!(t.elapsed_nanos, 0);
    assert!(t.just_finished());
}

#[test]
fn zero_duration_timer_fires_every_tick() {
    let mut t = IntervalTimer::new(0);
    t.tick(0);
    assert_eq!(t.elapsed_nanos, 0);
    assert!(t.just_finished());
    t.tick(123);
    assert_eq!(t.elapsed_nanos, 0);
    assert!(t.just_finished());
}

#[test]
fn boundary_after_many_intervals_is_reached() {
    let mut t = IntervalTimer::new(1);
    t.tick(1 << 32);
    assert_eq!(t.elapsed_nanos, 0);
    assert!(t.just_finished());
    t.tick((1 << 32) + 1);
    assert!(t.just_finished());
}

#[test]
fn refresh_after_many_intervals_in_one_frame() {
    let mut c = FpsCounter { timer: IntervalTimer::new(1), update_now: false };
    assert_eq!(c.advance(1 << 32, Some("60")), Some("FPS: 60".to_string()));
    assert_eq!(c.advance(1 << 32, None), Some("FPS: ???".to_string()));
}

#[test]
fn step_reports_what_the_frame_does() {
    let mut c = FpsCounter::default();
    assert_eq!(c.step(FRAME), FrameAction::Show);
    assert_eq!(c.step(FRAME), FrameAction::Leave);
    assert_eq!(c.step(1_000_000_000), FrameAction::Show);
    c.disable();
    assert_eq!(c.step(FRAME), FrameAction::Clear);
    assert_eq!(c.step(5_000_000_000), FrameAction::Leave);
    c.enable();
    assert_eq!(c.step(FRAME), FrameAction::Show);
}

#[test]
fn largest_delta_does_not_overflow() {
    let mut t = IntervalTimer::new(u64::MAX);
    t.tick(u64::MAX - 1);
    assert_eq!(t.elapsed_nanos, u64::MAX - 1);
    assert!(!t.just_finished());
    t.tick(u64::MAX);
    assert_eq!(t.elapsed_nanos, u64::MAX - 1);
    assert!(t.just_finished());
}
