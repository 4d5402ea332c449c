use cubes::{FireLatch, OneShotTimer, PeriodicTimer, GUARD_SPENT};

const SECOND: u64 = 1_000_000;

#[test]
fn fire_sequence_spawns_twice() {
    let mut latch = FireLatch::new();
    let mut spawns = 0;
    let mut fired_at = Vec::new();
    for (tick, held) in [true, true, true, false, true].into_iter().enumerate() {
        if latch.update(held) {
            spawns += 1;
            fired_at.push(tick + 1);
        }
    }
    assert_eq!(spawns, 2);
    assert_eq!(fired_at, vec![1, 5]);
}

#[test]
fn held_signal_fires_once() {
    for k in 1..=20 {
        let mut latch = FireLatch::new();
        let fires = (0..k).filter(|_| latch.update(true)).count();
        assert_eq!(fires, 1);
        assert!(latch.latched);
    }
}

#[test]
fn spawn_accumulator_fires_on_third_second() {
    let mut t = PeriodicTimer::new(2_500_000);
    assert!(!t.tick(SECOND));
    assert_eq!(t.accumulated, 1_000_000);
    assert!(!t.tick(SECOND));
    assert!(t.tick(SECOND));
    assert_eq!(t.accumulated, 0);
    assert!(!t.tick(SECOND));
    assert!(!t.tick(SECOND));
    assert!(t.tick(SECOND));
}

#[test]
fn spawn_accumulator_drops_the_remainder() {
    let mut t = PeriodicTimer::new(1_000_000);
    assert!(t.tick(1_700_000));
    assert_eq!(t.accumulated, 0);
    assert!(!t.tick(900_000));
}

#[test]
fn one_shot_fires_on_sixth_second_only() {
    let mut t = OneShotTimer::new(5_000_000);
    let mut fired_at = Vec::new();
    for tick in 1..=200u32 {
        if t.tick(SECOND) {
            fired_at.push(tick);
        }
        if tick == 5 {
            assert_eq!(t.guard, 5_000_000);
        }
        if tick >= 6 {
            assert_eq!(t.guard, GUARD_SPENT);
            assert_eq!(t.guard, -1_000_000);
        }
    }
    assert_eq!(fired_at, vec![6]);
}

#[test]
fn one_shot_disarmed_guard_never_fires() {
    let mut t = OneShotTimer { guard: -500_000, threshold: -2_000_000 };
    for _ in 0..10 {
        assert!(!t.tick(SECOND));
    }
    assert_eq!(t.guard, -500_000);
}
