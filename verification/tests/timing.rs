use dualcam::timing::{millis_between, TickProbe, TickTiming, NANOS_PER_MILLI};

#[test]
fn milliseconds_are_whole() {
    assert_eq!(NANOS_PER_MILLI, 1_000_000);
    assert_eq!(millis_between(0, 999_999), 0);
    assert_eq!(millis_between(0, 1_000_000), 1);
    assert_eq!(millis_between(5, 16_700_005), 16);
    assert_eq!(millis_between(7, 7), 0);
}

#[test]
fn clock_running_backwards_counts_as_zero() {
    assert_eq!(millis_between(2_000_000, 1_000_000), 0);
    assert_eq!(millis_between(u128::MAX, 0), 0);
}

#[test]
fn whole_clock_range_is_measured() {
    assert_eq!(millis_between(0, u128::MAX), u128::MAX / 1_000_000);
}

#[test]
fn tick_reports_draw_and_total() {
    let mut probe = TickProbe::start(1_000_000_000);
    assert_eq!(probe, TickProbe { started_ns: 1_000_000_000, drawn_ns: 1_000_000_000 });
    probe.mark_drawn(1_004_500_000);
    assert_eq!(probe, TickProbe { started_ns: 1_000_000_000, drawn_ns: 1_004_500_000 });
    assert_eq!(probe.finish(1_016_900_000), TickTiming { draw_ms: 4, total_ms: 16 });
}

#[test]
fn tick_without_draw_mark_reports_no_draw_time() {
    let probe = TickProbe::start(42);
    assert_eq!(probe.finish(3_000_042), TickTiming { draw_ms: 0, total_ms: 3 });
}

#[test]
fn draw_time_stays_within_the_tick() {
    let readings = [(0u128, 0u128, 0u128), (10, 2_000_010, 2_000_010), (5, 999_999, 7_000_000)];
    for (started, drawn, ended) in readings {
        let mut probe = TickProbe::start(started);
        probe.mark_drawn(drawn);
        let timing = probe.finish(ended);
        assert!(timing.draw_ms <= timing.total_ms);
    }
}
