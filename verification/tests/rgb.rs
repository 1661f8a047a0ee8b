use rgb_knob::rgb::Rgb;
use rgb_knob::LEVELS;

#[test]
fn tick_time_exact_values() {
    // 1_000_000 / (3 * frame_rate * LEVELS)
    assert_eq!(Rgb::frame_tick_time(100), 208);
    assert_eq!(Rgb::frame_tick_time(60), 347);
    assert_eq!(Rgb::frame_tick_time(10), 2083);
    assert_eq!(Rgb::frame_tick_time(1), 20833);
    assert_eq!(Rgb::frame_tick_time(160), 130);
}

#[test]
fn tick_time_rounding_bound() {
    // The derivation is exact up to integer-division rounding:
    // tick * 3 * frame_rate * LEVELS lands within one divisor of 1s.
    for frame_rate in [1u64, 10, 60, 100, 160, 1000] {
        let tick = Rgb::frame_tick_time(frame_rate);
        let divisor = 3 * frame_rate * LEVELS as u64;
        assert!(tick * divisor <= 1_000_000);
        assert!(1_000_000 - tick * divisor < divisor);
    }
}

#[test]
fn new_renderer_starts_dark() {
    let rgb = Rgb::new(100);
    assert_eq!(rgb.levels, [0, 0, 0]);
    assert_eq!(rgb.tick_time, 208);
}

#[test]
fn step_times_encode_duty_cycle() {
    let mut rgb = Rgb::new(100);
    rgb.reload([7, 0, 15], 100);
    assert_eq!(rgb.step_times(0), (7 * 208, 9 * 208));
    assert_eq!(rgb.step_times(1), (0, 16 * 208));
    assert_eq!(rgb.step_times(2), (15 * 208, 208));
}

#[test]
fn slot_time_is_level_invariant() {
    // Whatever the level, a channel's slot consumes LEVELS ticks.
    let mut rgb = Rgb::new(100);
    for level in 0..LEVELS {
        rgb.reload([level, level, level], 100);
        let (on_time, off_time) = rgb.step_times(0);
        assert_eq!(on_time, level as u64 * 208);
        assert_eq!(on_time + off_time, LEVELS as u64 * 208);
    }
}

#[test]
fn reload_recomputes_tick_time() {
    let mut rgb = Rgb::new(100);
    rgb.reload([1, 2, 3], 60);
    assert_eq!(rgb.levels, [1, 2, 3]);
    assert_eq!(rgb.tick_time, 347);
}
