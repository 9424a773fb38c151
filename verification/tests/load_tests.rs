use esp_temperature::load_indicator::{load_brightness, LoadExecutorHook};

#[test]
fn seed_is_published_unchanged() {
    let hook = LoadExecutorHook::new(100);
    assert_eq!(hook.read_load(), 100);
    let hook = LoadExecutorHook::new(37);
    assert_eq!(hook.read_load(), 37);
}

#[test]
fn first_poll_publishes_nothing() {
    let mut hook = LoadExecutorHook::new(60);
    hook.before_poll(1_000);
    assert_eq!(hook.read_load(), 60);
}

#[test]
fn cycle_without_idle_stays_fully_busy() {
    let mut hook = LoadExecutorHook::new(100);
    hook.before_poll(0);
    hook.before_poll(500);
    assert_eq!(hook.read_load(), 100);
    hook.before_poll(2_000);
    assert_eq!(hook.read_load(), 100);
}

#[test]
fn zero_duration_cycle_counts_fully_busy() {
    let mut hook = LoadExecutorHook::new(100);
    hook.before_poll(300);
    hook.on_idle(300);
    hook.before_poll(300);
    assert_eq!(hook.read_load(), 100);
}

#[test]
fn immediate_idle_drops_load() {
    let mut hook = LoadExecutorHook::new(100);
    hook.before_poll(0);
    hook.on_idle(0);
    // A 1000 us cycle gives the new (zero) sample full weight.
    hook.before_poll(1_000);
    assert_eq!(hook.read_load(), 0);
}

#[test]
fn idle_cycles_trend_toward_zero() {
    let mut hook = LoadExecutorHook::new(100);
    let mut t: u64 = 0;
    let mut previous = hook.read_load();
    for _ in 0..60 {
        hook.before_poll(t);
        hook.on_idle(t);
        t += 100;
        hook.before_poll(t);
        let current = hook.read_load();
        assert!(current <= previous);
        assert!(current <= 100);
        previous = current;
    }
    assert_eq!(hook.read_load(), 0);
}

#[test]
fn half_busy_cycle_blends_exactly() {
    let mut hook = LoadExecutorHook::new(100);
    hook.before_poll(0);
    hook.on_idle(50);
    // Instantaneous load 50 over a 100 us cycle, weight 10%:
    // 90 * 100 / 100 + 10 * 50 / 100 = 95.
    hook.before_poll(100);
    assert_eq!(hook.read_load(), 95);
}

#[test]
fn load_never_leaves_percentage_range() {
    let mut hook = LoadExecutorHook::new(0);
    let mut t: u64 = 0;
    for i in 0..50u64 {
        hook.before_poll(t);
        if i % 3 != 0 {
            hook.on_idle(t + i * 7 % 40);
        }
        t += 40 + i * 13 % 900;
        let load = hook.read_load();
        assert!(load <= 100);
    }
}

#[test]
fn brightness_scales_load() {
    assert_eq!(load_brightness(0), 0);
    assert_eq!(load_brightness(50), 127);
    assert_eq!(load_brightness(100), 255);
}
