use stats_rs::error::StatsError;
use stats_rs::monitor::{elapsed_millis, rate, CanvasPerformance, TICKS_PER_MS, WINDOW_TICKS};

fn monitor_at(now: u64) -> CanvasPerformance {
    CanvasPerformance::init(Some(now)).expect("a clock reading was given")
}

#[test]
fn init_without_clock_reports_clock_unavailable() {
    match CanvasPerformance::init(None) {
        Err(error) => assert_eq!(error, StatsError::ClockUnavailable),
        Ok(_) => panic!("a monitor was made without a clock"),
    }
}

#[test]
fn init_starts_both_times_at_the_reading() {
    let monitor = monitor_at(123_456);
    assert_eq!(monitor.begin_time, 123_456);
    assert_eq!(monitor.previous_time, 123_456);
    assert_eq!(monitor.frames, 0);
    assert_eq!(monitor.fps, 0);
    assert_eq!(monitor.ms, 0);
}

#[test]
fn units_of_time() {
    assert_eq!(TICKS_PER_MS, 1_000);
    assert_eq!(WINDOW_TICKS, 1_000 * TICKS_PER_MS);
}

#[test]
fn frame_time_is_rounded_down() {
    let mut monitor = monitor_at(0);
    monitor.recalculate(16_999);
    assert_eq!(monitor.ms, 16);
    monitor.recalculate(16_999 + 17_000);
    assert_eq!(monitor.ms, 17);
    monitor.recalculate(16_999 + 17_000 + 999);
    assert_eq!(monitor.ms, 0);
}

#[test]
fn frame_time_is_measured_from_the_last_sample() {
    let mut monitor = monitor_at(5_000);
    monitor.recalculate(21_670);
    assert_eq!(monitor.ms, 16);
    assert_eq!(monitor.begin_time, 21_670);
    monitor.recalculate(1_005_200);
    assert_eq!(monitor.ms, 983);
    assert_eq!(monitor.begin_time, 1_005_200);
}

#[test]
fn frame_time_is_zero_when_the_clock_goes_back() {
    let mut monitor = monitor_at(50_000);
    monitor.recalculate(20_000);
    assert_eq!(monitor.ms, 0);
    assert_eq!(monitor.begin_time, 20_000);
    assert_eq!(monitor.previous_time, 50_000);
    assert_eq!(monitor.frames, 1);
    assert_eq!(monitor.fps, 0);
}

#[test]
fn frame_time_stops_at_the_largest_value() {
    let mut monitor = monitor_at(0);
    monitor.recalculate(u64::MAX);
    assert_eq!(monitor.ms, u32::MAX);
    assert_eq!(elapsed_millis(0, 4_294_967_295_999), u32::MAX);
    assert_eq!(elapsed_millis(0, 4_294_967_294_999), u32::MAX - 1);
}

#[test]
fn elapsed_millis_on_given_values() {
    assert_eq!(elapsed_millis(0, 0), 0);
    assert_eq!(elapsed_millis(10, 5), 0);
    assert_eq!(elapsed_millis(1_000, 1_999), 0);
    assert_eq!(elapsed_millis(1_000, 2_000), 1);
    assert_eq!(elapsed_millis(0, 16_670), 16);
}

#[test]
fn rate_on_given_values() {
    assert_eq!(rate(60, 1_000_000), 60);
    assert_eq!(rate(60, 1_000_200), 59);
    assert_eq!(rate(3, 1_500_000), 2);
    assert_eq!(rate(1, 1_000_001), 0);
    assert_eq!(rate(0, 1_000_000), 0);
    assert_eq!(rate(u32::MAX, 1_000_000), u32::MAX);
}

#[test]
fn rate_is_kept_inside_the_window() {
    let mut monitor = monitor_at(1_000);
    let mut now: u64 = 1_000;
    for frame in 1..=9u32 {
        now += 100_000;
        monitor.recalculate(now);
        assert_eq!(monitor.fps, 0);
        assert_eq!(monitor.frames, frame);
        assert_eq!(monitor.previous_time, 1_000);
        assert_eq!(monitor.ms, 100);
    }
    monitor.recalculate(1_000 + 999_999);
    assert_eq!(monitor.fps, 0);
    assert_eq!(monitor.frames, 10);
}

#[test]
fn full_window_sets_the_rate_and_starts_anew() {
    let mut monitor = monitor_at(0);
    monitor.recalculate(400_000);
    monitor.recalculate(800_000);
    monitor.recalculate(1_500_000);
    assert_eq!(monitor.fps, 2);
    assert_eq!(monitor.frames, 0);
    assert_eq!(monitor.previous_time, 1_500_000);
    assert_eq!(monitor.begin_time, 1_500_000);
    assert_eq!(monitor.ms, 700);
}

#[test]
fn window_closes_exactly_at_one_second() {
    let mut monitor = monitor_at(2_000_000);
    monitor.recalculate(2_999_999);
    assert_eq!(monitor.fps, 0);
    assert_eq!(monitor.frames, 1);
    monitor.recalculate(3_000_000);
    assert_eq!(monitor.fps, 2);
    assert_eq!(monitor.frames, 0);
    assert_eq!(monitor.previous_time, 3_000_000);
}

#[test]
fn rate_stays_until_the_next_window_closes() {
    let mut monitor = monitor_at(0);
    monitor.recalculate(1_000_000);
    assert_eq!(monitor.fps, 1);
    monitor.recalculate(1_500_000);
    assert_eq!(monitor.fps, 1);
    assert_eq!(monitor.frames, 1);
    monitor.recalculate(2_000_000);
    assert_eq!(monitor.fps, 2);
    assert_eq!(monitor.frames, 0);
}

#[test]
fn sample_at_the_start_of_the_window_leaves_the_rate() {
    let mut monitor = monitor_at(0);
    monitor.recalculate(1_000_000);
    assert_eq!(monitor.fps, 1);
    monitor.recalculate(1_000_000);
    monitor.recalculate(1_000_000);
    assert_eq!(monitor.fps, 1);
    assert_eq!(monitor.frames, 2);
    assert_eq!(monitor.previous_time, 1_000_000);
    assert_eq!(monitor.ms, 0);
    monitor.recalculate(2_000_000);
    assert_eq!(monitor.fps, 3);
    assert_eq!(monitor.frames, 0);
}

#[test]
fn window_near_the_end_of_time_never_closes() {
    let mut monitor = monitor_at(u64::MAX - 10);
    monitor.recalculate(u64::MAX);
    assert_eq!(monitor.fps, 0);
    assert_eq!(monitor.frames, 1);
    assert_eq!(monitor.previous_time, u64::MAX - 10);
}

#[test]
fn sixty_frames_in_a_second() {
    let mut monitor = monitor_at(0);
    let mut now: u64 = 0;
    for _ in 0..59 {
        now += 16_670;
        monitor.recalculate(now);
        assert_eq!(monitor.fps, 0);
        assert_eq!(monitor.ms, 16);
    }
    now += 16_670;
    monitor.recalculate(now);
    assert_eq!(now, 1_000_200);
    assert_eq!(monitor.fps, 59);
    assert_eq!(monitor.ms, 16);
    assert_eq!(monitor.frames, 0);
}

#[test]
fn set_begin_time_moves_only_the_last_sample() {
    let mut monitor = monitor_at(10_000);
    monitor.set_begin_time(4_000);
    assert_eq!(monitor.begin_time, 4_000);
    assert_eq!(monitor.previous_time, 10_000);
    monitor.recalculate(12_000);
    assert_eq!(monitor.ms, 8);
    assert_eq!(monitor.frames, 1);
}

#[test]
fn set_previous_time_moves_only_the_window() {
    let mut monitor = monitor_at(2_000_000);
    monitor.set_previous_time(1_000_000);
    assert_eq!(monitor.previous_time, 1_000_000);
    assert_eq!(monitor.begin_time, 2_000_000);
    monitor.recalculate(2_000_000);
    assert_eq!(monitor.fps, 1);
    assert_eq!(monitor.ms, 0);
    assert_eq!(monitor.previous_time, 2_000_000);
}
