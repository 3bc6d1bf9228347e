use double_life::{update_game_timer, GameConfig, GameUpdateTimer, RepeatingTimer};

const MS: u64 = 1_000_000;

#[test]
fn timer_fires_once_after_half_a_second() {
    let config = GameConfig::default();
    assert_eq!(config.update_interval_ns, 500 * MS);
    let mut timer = GameUpdateTimer::default();
    update_game_timer(&mut timer, 500 * MS, &config);
    assert!(timer.timer.finished());
    assert_eq!(timer.timer.elapsed_ns, 0);
    update_game_timer(&mut timer, 400 * MS, &config);
    assert!(!timer.timer.finished());
}

#[test]
fn timer_does_not_fire_before_the_interval() {
    let config = GameConfig::default();
    let mut timer = GameUpdateTimer::default();
    update_game_timer(&mut timer, 400 * MS, &config);
    assert!(!timer.timer.finished());
    assert_eq!(timer.timer.elapsed_ns, 400 * MS);
    update_game_timer(&mut timer, 100 * MS, &config);
    assert!(timer.timer.finished());
}

#[test]
fn timer_keeps_the_remainder_past_the_period() {
    let mut t = RepeatingTimer::new(500 * MS);
    t.tick(1200 * MS);
    assert!(t.finished());
    assert_eq!(t.elapsed_ns, 200 * MS);
    assert_eq!(t.duration(), 500 * MS);
}

#[test]
fn changed_interval_replaces_the_timer() {
    let config = GameConfig { update_interval_ns: 250 * MS, ..GameConfig::default() };
    let mut timer = GameUpdateTimer::default();
    update_game_timer(&mut timer, 600 * MS, &config);
    assert!(!timer.timer.finished());
    assert_eq!(timer.timer, RepeatingTimer::new(250 * MS));
    update_game_timer(&mut timer, 250 * MS, &config);
    assert!(timer.timer.finished());
}

#[test]
fn tick_beyond_the_u64_range_wraps_exactly() {
    let mut t = RepeatingTimer::new(u64::MAX);
    t.tick(u64::MAX - 1);
    assert!(!t.finished());
    assert_eq!(t.elapsed_ns, u64::MAX - 1);
    t.tick(10);
    assert!(t.finished());
    assert_eq!(t.elapsed_ns, 9);
}

#[test]
fn zero_period_fires_on_every_tick() {
    let mut t = RepeatingTimer::new(0);
    t.tick(0);
    assert!(t.finished());
    assert_eq!(t.elapsed_ns, 0);
    t.tick(123);
    assert!(t.finished());
    assert_eq!(t.elapsed_ns, 0);
}
