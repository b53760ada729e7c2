use jester::{Duration, Timer, TimerMode};

#[test]
fn duration_constructors_agree() {
    assert_eq!(Duration::from_secs(2).as_nanos(), 2_000_000_000);
    assert_eq!(Duration::from_millis(1500).as_nanos(), 1_500_000_000);
    assert_eq!(Duration::new(1, 500_000_000), Duration::from_millis(1500));
    assert_eq!(Duration::from_nanos(7).as_nanos(), 7);
    assert!(Duration::zero().is_zero());
}

#[test]
fn duration_saturating_sub_stops_at_zero() {
    let a = Duration::from_millis(300);
    let b = Duration::from_millis(500);
    assert_eq!(b.saturating_sub(a), Duration::from_millis(200));
    assert!(a.saturating_sub(b).is_zero());
    assert!(a.saturating_sub(a).is_zero());
}

#[test]
fn timer_mode_defaults_to_loop() {
    assert_eq!(TimerMode::default(), TimerMode::Loop);
}

#[test]
fn loop_timer_fires_and_restarts() {
    let mut t = Timer::new(Duration::from_secs(1), TimerMode::Loop);
    assert!(!t.tick(Duration::from_millis(400)));
    assert_eq!(t.remaining(), Duration::from_millis(600));
    assert!(!t.finished());
    assert!(t.tick(Duration::from_millis(700)));
    assert_eq!(t.remaining(), Duration::from_secs(1));
    assert!(!t.finished());
}

#[test]
fn once_timer_fires_once_then_stays_at_zero() {
    let mut t = Timer::new(Duration::from_millis(100), TimerMode::Once);
    assert!(t.tick(Duration::from_millis(100)));
    assert!(t.finished());
    assert!(!t.tick(Duration::from_millis(100)));
    assert!(t.remaining().is_zero());
    t.reset();
    assert_eq!(t.remaining(), Duration::from_millis(100));
    assert!(!t.finished());
}

#[test]
fn set_replaces_preset_and_restarts() {
    let mut t = Timer::new(Duration::from_secs(5), TimerMode::Loop);
    t.tick(Duration::from_secs(2));
    t.set(Duration::from_secs(1));
    assert_eq!(t.remaining(), Duration::from_secs(1));
    assert!(t.tick(Duration::from_secs(1)));
    assert_eq!(t.remaining(), Duration::from_secs(1));
}

#[test]
fn zero_preset_never_fires() {
    let mut t = Timer::new(Duration::zero(), TimerMode::Loop);
    assert!(t.finished());
    assert!(!t.tick(Duration::from_secs(1)));
}
