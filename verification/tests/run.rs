use pixel_engine::event::EventKind;
use pixel_engine::run::{ends_loop, tick, Tick, DEFAULT_FREQ_NANOS};

#[test]
fn tick_counts_whole_update_periods() {
    let f = DEFAULT_FREQ_NANOS as u128;
    assert_eq!(tick(0, 0, 0, f, f), Tick { updates: 0, lag: 0, render: false });
    assert_eq!(tick(0, f, 0, f, f), Tick { updates: 1, lag: 0, render: false });
    assert_eq!(tick(5, 3 * f, 0, f, f), Tick { updates: 3, lag: 5, render: false });
    assert_eq!(tick(f - 1, 1, 0, f, f).updates, 1);
    assert_eq!(tick(f - 1, 0, 0, f, f), Tick { updates: 0, lag: f - 1, render: false });
}

#[test]
fn tick_renders_after_a_full_period() {
    let f = DEFAULT_FREQ_NANOS as u128;
    assert!(!tick(0, 0, f, f, f).render);
    assert!(tick(0, 0, f + 1, f, f).render);
    assert_eq!(DEFAULT_FREQ_NANOS, 1_000_000_000 / 60);
}

#[test]
fn ticks_over_a_run_count_whole_periods() {
    let f = 10u128;
    let mut lag = 0;
    let mut updates = 0;
    let mut total = 0;
    for elapsed in [3u128, 9, 0, 25, 4, 11] {
        let t = tick(lag, elapsed, 0, f, f);
        updates += t.updates;
        lag = t.lag;
        total += elapsed;
        assert_eq!(updates, total / f);
        assert_eq!(lag, total % f);
    }
}

#[test]
fn only_quit_ends_the_loop() {
    assert!(ends_loop(EventKind::Quit));
    assert!(!ends_loop(EventKind::Key));
    assert!(!ends_loop(EventKind::WindowResize));
}
