use cubes::{
    BodyHandle, OverlapEvent, SafeZone, SafeZoneAssets, ZoneMaterial, ACTIVATION_DURATION,
};

const SECOND: u64 = 1_000_000;

#[test]
fn enter_resets_timer_whatever_it_held() {
    for start in [i64::MIN, -5_000_000, 0, 1_000_000, 7_000_000] {
        let mut z = SafeZone { overlap_count: 0, activation_timer: start };
        z.apply_event(OverlapEvent::Enter(BodyHandle { index: 1 }));
        assert_eq!(z.activation_timer, ACTIVATION_DURATION);
        assert_eq!(z.activation_timer, 2_000_000);
    }
}

#[test]
fn idle_zone_turns_active_on_enter() {
    let mut z = SafeZone::default();
    assert_eq!(z.material(), ZoneMaterial::Idle);
    let entered = z.tick(&vec![OverlapEvent::Enter(BodyHandle { index: 7 })], 0);
    assert_eq!(entered, vec![BodyHandle { index: 7 }]);
    assert_eq!(z.activation_timer, 2_000_000);
    assert_eq!(z.material(), ZoneMaterial::Active);
    assert_eq!(z.overlap_count, 1);
}

#[test]
fn zone_decays_below_zero_without_events() {
    let mut z = SafeZone { overlap_count: 0, activation_timer: 1_500_000 };
    let entered = z.tick(&vec![], 2 * SECOND);
    assert!(entered.is_empty());
    assert_eq!(z.activation_timer, -500_000);
    assert_eq!(z.material(), ZoneMaterial::Idle);
}

#[test]
fn timer_falls_by_n_times_dt_without_enter() {
    let mut z = SafeZone { overlap_count: 2, activation_timer: 2_000_000 };
    let dt: u64 = 300_000;
    let exit = vec![OverlapEvent::Exit(BodyHandle { index: 3 })];
    for n in 1..=10i64 {
        let events = if n % 3 == 0 { exit.clone() } else { vec![] };
        z.tick(&events, dt);
        assert_eq!(z.activation_timer, 2_000_000 - n * dt as i64);
    }
    assert_eq!(z.overlap_count, 0);
}

#[test]
fn enter_within_a_tick_is_followed_by_decay() {
    let mut z = SafeZone { overlap_count: 0, activation_timer: -3_000_000 };
    let b = BodyHandle { index: 2 };
    z.tick(&vec![OverlapEvent::Enter(b), OverlapEvent::Exit(b)], 100_000);
    assert_eq!(z.activation_timer, 1_900_000);
    assert_eq!(z.overlap_count, 0);
    assert_eq!(z.material(), ZoneMaterial::Active);
}

#[test]
fn overlap_count_never_goes_below_zero() {
    let mut z = SafeZone::default();
    z.apply_event(OverlapEvent::Exit(BodyHandle { index: 0 }));
    assert_eq!(z.overlap_count, 0);
    z.apply_event(OverlapEvent::Enter(BodyHandle { index: 0 }));
    z.apply_event(OverlapEvent::Enter(BodyHandle { index: 1 }));
    assert_eq!(z.overlap_count, 2);
    z.apply_event(OverlapEvent::Exit(BodyHandle { index: 1 }));
    assert_eq!(z.overlap_count, 1);
}

#[test]
fn timer_stops_at_the_lowest_value() {
    let mut z = SafeZone { overlap_count: 0, activation_timer: i64::MIN + 10 };
    z.decay(u64::MAX);
    assert_eq!(z.activation_timer, i64::MIN);
}

#[test]
fn assets_follow_the_zone_material() {
    let assets = SafeZoneAssets { idle: "idle", active: "active" };
    assert_eq!(*assets.select(ZoneMaterial::Idle), "idle");
    assert_eq!(*assets.select(ZoneMaterial::Active), "active");
    let z = SafeZone { overlap_count: 0, activation_timer: 1 };
    assert_eq!(*assets.select(z.material()), "active");
}
