use easel::perf::Fps;
use easel::time::{Stopwatch, MAX_TIME_US};

#[test]
fn stopwatch_first_call_is_unknown() {
    let mut w = Stopwatch::new();
    assert_eq!(w.delta_us(5_000), None);
}

#[test]
fn stopwatch_second_call_measures_elapsed_time() {
    let mut w = Stopwatch::new();
    assert_eq!(w.delta_us(5_000), None);
    assert_eq!(w.delta_us(5_000 + 16_670), Some(16_670));
    assert_eq!(w.delta_us(5_000 + 16_670 + 33_300), Some(33_300));
}

#[test]
fn stopwatch_clips_backwards_and_oversized_readings() {
    let mut w = Stopwatch::new();
    assert_eq!(w.delta_us(10_000), None);
    // A reading running backwards counts as zero elapsed time.
    assert_eq!(w.delta_us(4_000), Some(0));
    // A reading beyond the supported range is clipped to it.
    assert_eq!(w.delta_us(u64::MAX), Some(MAX_TIME_US - 10_000));
}

#[test]
fn fps_converges_to_sixty_for_a_frame_of_sixteen_point_sixty_seven_ms() {
    let mut m = Fps::new();
    let d: u64 = 16_670;
    for k in 1..=70u64 {
        m.tick(k * d);
    }
    let centi = m.reading_centi_fps().expect("display should have refreshed");
    let fps = centi as f64 / 100.0;
    assert!((fps - 60.0).abs() < 0.1, "got {fps} fps");
}

#[test]
fn fps_converges_to_thirty_for_a_frame_of_thirty_three_point_three_ms() {
    let mut m = Fps::new();
    let d: u64 = 33_300;
    for k in 1..=70u64 {
        m.tick(k * d);
    }
    let centi = m.reading_centi_fps().expect("display should have refreshed");
    let fps = centi as f64 / 100.0;
    assert!((fps - 30.0).abs() < 0.1, "got {fps} fps");
}

#[test]
fn fps_display_waits_for_a_full_window() {
    let mut m = Fps::new();
    // Thirty slow frames cover well over a second, but the window is not
    // yet full, so the display stays blank.
    for k in 1..=30u64 {
        m.tick(k * 100_000);
    }
    assert_eq!(m.reading_centi_fps(), None);
}

#[test]
fn fps_display_exact_value() {
    let mut m = Fps::new();
    // Sixty-one ticks at exactly 20 ms: the window holds 1.2 seconds, and
    // the rate reads exactly 50 frames per second.
    for k in 1..=61u64 {
        m.tick(k * 20_000);
    }
    assert_eq!(m.reading_centi_fps(), Some(5_000));
}
