use remna_snow::clock::FrameStats;
use remna_snow::fixed::Fixed;

fn ms(whole: i64) -> Fixed {
    Fixed::from_micros(whole * 1_000_000)
}

#[test]
fn new_clock_stands_at_zero() {
    let clock = FrameStats::new();
    assert_eq!(clock.simulation_time.raw, 0);
    assert_eq!(clock.last_frame_timestamp.raw, 0);
    assert_eq!(clock.frame_count, 0);
    assert_eq!(clock.fps_window_start.raw, 0);
    assert_eq!(clock.current_fps, 0);
}

#[test]
fn frames_a_second_apart_are_a_second_of_simulation_apart() {
    let mut clock = FrameStats::new();
    clock.tick(ms(250));
    let tick = clock.tick(ms(1250));
    assert_eq!(tick.delta_seconds.raw, 1_000_000);
    assert_eq!(tick.simulation_time.raw, 1_250_000);
}

#[test]
fn delta_is_a_thousandth_of_the_milliseconds_between_frames() {
    let mut clock = FrameStats::new();
    assert_eq!(clock.tick(ms(16)).delta_seconds.raw, 16_000);
    assert_eq!(clock.tick(Fixed::from_micros(32_500_000)).delta_seconds.raw, 16_500);
    assert_eq!(clock.tick(Fixed::from_micros(32_500_999)).delta_seconds.raw, 0);
    assert_eq!(clock.tick(Fixed::from_micros(32_501_999)).delta_seconds.raw, 1);
    assert_eq!(clock.simulation_time.raw, 32_501);
}

#[test]
fn first_frame_takes_the_whole_timestamp_as_delta() {
    let mut clock = FrameStats::new();
    let tick = clock.tick(ms(5000));
    assert_eq!(tick.delta_seconds.raw, 5_000_000);
    assert_eq!(tick.simulation_time.raw, 5_000_000);
    assert_eq!(clock.last_frame_timestamp.raw, 5_000_000_000);
}

#[test]
fn last_timestamp_follows_every_frame() {
    let mut clock = FrameStats::new();
    clock.tick(ms(40));
    assert_eq!(clock.last_frame_timestamp, ms(40));
    clock.tick(ms(30));
    assert_eq!(clock.last_frame_timestamp, ms(30));
}

#[test]
fn frames_within_the_second_are_counted_and_not_reported() {
    let mut clock = FrameStats::new();
    for i in 0..60 {
        let tick = clock.tick(ms(i * 16));
        assert_eq!(tick.fps, 0);
        assert_eq!(clock.frame_count, (i + 1) as u32);
        assert_eq!(clock.fps_window_start.raw, 0);
    }
    assert_eq!(clock.current_fps, 0);
}

#[test]
fn frame_after_the_second_reports_the_count_and_starts_anew() {
    let mut clock = FrameStats::new();
    for i in 0..60 {
        clock.tick(ms(i * 16));
    }
    let tick = clock.tick(ms(1000));
    assert_eq!(tick.fps, 61);
    assert_eq!(clock.current_fps, 61);
    assert_eq!(clock.frame_count, 0);
    assert_eq!(clock.fps_window_start, ms(1000));
}

#[test]
fn window_closes_at_a_full_second_and_not_before() {
    let mut clock = FrameStats::new();
    clock.tick(Fixed::from_micros(999_999_999));
    assert_eq!(clock.current_fps, 0);
    assert_eq!(clock.frame_count, 1);
    clock.tick(ms(1000));
    assert_eq!(clock.current_fps, 2);
    assert_eq!(clock.frame_count, 0);
}

#[test]
fn fps_holds_its_value_until_the_next_window_closes() {
    let mut clock = FrameStats::new();
    clock.tick(ms(0));
    clock.tick(ms(500));
    clock.tick(ms(1000));
    assert_eq!(clock.current_fps, 3);
    assert_eq!(clock.tick(ms(1500)).fps, 3);
    assert_eq!(clock.tick(ms(1999)).fps, 3);
    assert_eq!(clock.frame_count, 2);
    assert_eq!(clock.tick(ms(2000)).fps, 3);
    assert_eq!(clock.frame_count, 0);
    assert_eq!(clock.tick(ms(2500)).fps, 3);
    assert_eq!(clock.tick(ms(3100)).fps, 2);
    assert_eq!(clock.fps_window_start, ms(3100));
}

#[test]
fn simulation_time_does_not_run_backwards_with_rising_timestamps() {
    let mut clock = FrameStats::new();
    let mut before = clock.simulation_time.raw;
    for t in [0, 3, 3, 17, 1000, 1000, 5000] {
        clock.tick(ms(t));
        assert!(clock.simulation_time.raw >= before);
        before = clock.simulation_time.raw;
    }
    assert_eq!(before, 5_000_000);
}

#[test]
fn simulation_time_follows_a_timestamp_that_falls() {
    let mut clock = FrameStats::new();
    clock.tick(ms(2000));
    let tick = clock.tick(ms(500));
    assert_eq!(tick.delta_seconds.raw, -1_500_000);
    assert_eq!(tick.simulation_time.raw, 500_000);
}

#[test]
fn delta_stops_at_the_end_of_the_range() {
    let mut clock = FrameStats::new();
    clock.tick(Fixed::from_micros(i64::MIN));
    let tick = clock.tick(Fixed::from_micros(i64::MAX));
    assert_eq!(tick.delta_seconds.raw, 9_223_372_036_854_775);
}
