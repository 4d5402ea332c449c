use cubes::{
    add_sphere_entity, AreaHandle, EntityData, get_dir_path, BodyHandle, ComponentStore, CubeGameState, Entity,
    GamePlayState, LoadingState, MeshKind, OverlapEvent, PauseState, PhysicsError,
    PhysicsRegistry, Quat, SafeZoneSystem, SceneError, ShapeDescriptor, ShapeHandle,
    StateTransition, Transform, Vec3, WorldHandle, MIN_SPAWN_SPEED, SPAWN_EXTENT,
    SPAWN_SPEED_RANGE, UNIT,
};

const TICK: u64 = 100_000;

fn started_scene() -> (PhysicsRegistry, ComponentStore, WorldHandle, CubeGameState) {
    let mut reg = PhysicsRegistry::new();
    let world = reg.create_world();
    let mut store = ComponentStore::new();
    let mut state = CubeGameState::new();
    let platforms = vec![
        Transform::default(),
        Transform::from_translation(Vec3::new(0, 10 * UNIT, -18 * UNIT)),
    ];
    state
        .on_start(&mut reg, &mut store, world, &platforms, Transform::default())
        .unwrap();
    (reg, store, world, state)
}

#[test]
fn directory_paths_are_prefixed() {
    assert_eq!(get_dir_path("/configs/display_conf.ron"), "./game_directory/configs/display_conf.ron");
    assert_eq!(get_dir_path(""), "./game_directory");
}

#[test]
fn scene_start_creates_shapes_platforms_and_zone() {
    let (reg, store, _world, state) = started_scene();
    assert_eq!(state.bullet_shape, Some(ShapeHandle { index: 0 }));
    assert_eq!(state.platform_shape, Some(ShapeHandle { index: 1 }));
    assert_eq!(state.safe_zone_area, Some(ShapeHandle { index: 2 }));
    assert_eq!(reg.shape(ShapeHandle { index: 0 }), Some(ShapeDescriptor::Sphere { radius: 500_000 }));
    assert_eq!(
        reg.shape(ShapeHandle { index: 1 }),
        Some(ShapeDescriptor::Cube { half_extents: Vec3::new(10 * UNIT, 10 * UNIT, 300_000) })
    );
    assert_eq!(reg.shape(ShapeHandle { index: 2 }), Some(ShapeDescriptor::Sphere { radius: 10 * UNIT }));
    assert_eq!(store.len(), 3);
    assert_eq!(store.get(Entity { index: 1 }).unwrap().body, Some(BodyHandle { index: 1 }));
    let zone = store.get(Entity { index: 2 }).unwrap();
    assert!(zone.area.is_some());
    assert_eq!(zone.safe_zone.unwrap().activation_timer, 0);
}

#[test]
fn scene_start_needs_a_known_world() {
    let mut reg = PhysicsRegistry::new();
    let mut store = ComponentStore::new();
    let mut state = CubeGameState::new();
    let r = state.on_start(&mut reg, &mut store, WorldHandle { index: 0 }, &vec![], Transform::default());
    assert_eq!(r, Err(SceneError::Physics(PhysicsError::UnknownHandle)));
    assert_eq!(state.bullet_shape, None);
    assert_eq!(store.len(), 0);
}

#[test]
fn bullet_before_setup_is_uninitialized() {
    let mut reg = PhysicsRegistry::new();
    let world = reg.create_world();
    let mut store = ComponentStore::new();
    let state = CubeGameState::new();
    let r = state.add_bullet_entity(&mut reg, &mut store, world, Transform::default(), Vec3::zeros());
    assert_eq!(r, Err(SceneError::Uninitialized));
    let r = state.add_cube(&mut reg, &mut store, world, Transform::default());
    assert_eq!(r, Err(SceneError::Uninitialized));
    let r = state.add_safe_zone(&mut reg, &mut store, world, Transform::default());
    assert_eq!(r, Err(SceneError::Uninitialized));
}

#[test]
fn fire_signal_spawns_two_bullets() {
    let (mut reg, mut store, world, mut state) = started_scene();
    reg.take_applied_impulses();
    let impulse = Vec3::new(0, 0, -100 * UNIT);
    let mut spawned = Vec::new();
    for held in [true, true, true, false, true] {
        let tick = state.update(&mut reg, &mut store, world, held, TICK, impulse);
        assert_eq!(tick.platform_resized, Ok(false));
        if let Some(e) = tick.bullet.unwrap() {
            spawned.push(e);
        }
    }
    assert_eq!(spawned.len(), 2);
    let bullet = store.get(spawned[0]).unwrap();
    assert!(bullet.bullet.is_some());
    let body = bullet.body.unwrap();
    let applied = reg.take_applied_impulses();
    assert_eq!(applied.len(), 2);
    assert_eq!(applied[0], (body, impulse));
}

#[test]
fn platform_resizes_once_after_delay() {
    let (mut reg, mut store, world, mut state) = started_scene();
    let platform = state.platform_shape.unwrap();
    let mut resized_at = Vec::new();
    for tick in 1..=30u32 {
        let r = state.update(&mut reg, &mut store, world, false, 1_000_000, Vec3::zeros());
        if r.platform_resized.unwrap() {
            resized_at.push(tick);
        }
    }
    assert_eq!(resized_at, vec![6]);
    assert_eq!(
        reg.shape(platform),
        Some(ShapeDescriptor::Cube { half_extents: Vec3::new(5 * UNIT, 5 * UNIT, 300_000) })
    );
}

#[test]
fn bullet_entering_the_zone_is_removed() {
    let (mut reg, mut store, world, mut state) = started_scene();
    let tick = state.update(&mut reg, &mut store, world, true, TICK, Vec3::zeros());
    let bullet = tick.bullet.unwrap().unwrap();
    let body = store.get(bullet).unwrap().body.unwrap();
    let area = store.get(Entity { index: 2 }).unwrap().area.unwrap();
    reg.record_overlap(area, OverlapEvent::Enter(body)).unwrap();
    SafeZoneSystem::new().run(&mut store, &mut reg, TICK);
    assert_eq!(store.get(bullet), None);
    assert!(!reg.body_alive(body));
    let zone = store.get(Entity { index: 2 }).unwrap().safe_zone.unwrap();
    assert_eq!(zone.activation_timer, 1_900_000);
}

#[test]
fn loading_switches_after_five_updates() {
    let mut s = LoadingState::new();
    for _ in 0..4 {
        assert_eq!(s.update(), StateTransition::Stay);
    }
    assert_eq!(s.update(), StateTransition::SwitchToGamePlay);
    assert_eq!(s.counter, 5);
}

#[test]
fn pause_pops_after_fifty_updates() {
    let mut s = PauseState::new();
    for _ in 0..49 {
        assert_eq!(s.update(), StateTransition::Stay);
    }
    assert_eq!(s.update(), StateTransition::Pop);
    let mut full = PauseState { counter: i32::MAX };
    assert_eq!(full.update(), StateTransition::Pop);
    assert_eq!(full.counter, i32::MAX);
}

#[test]
fn game_play_alternates_spheres_and_cubes() {
    let mut store = ComponentStore::new();
    let mut s = GamePlayState::new();
    assert_eq!(s.update(&mut store, 600_000), None);
    let (e0, k0) = s.update(&mut store, 600_000).unwrap();
    assert_eq!(k0, MeshKind::Sphere);
    assert_eq!(s.update(&mut store, 500_000), None);
    let (e1, k1) = s.update(&mut store, 500_000).unwrap();
    assert_eq!(k1, MeshKind::Cube);
    assert_eq!((e0, e1), (Entity { index: 0 }, Entity { index: 1 }));
    let sphere_speed = store.get(e0).unwrap().motion.unwrap().speed;
    let cube_speed = store.get(e1).unwrap().motion.unwrap().speed;
    assert!(sphere_speed <= -MIN_SPAWN_SPEED && sphere_speed > -(MIN_SPAWN_SPEED + SPAWN_SPEED_RANGE));
    assert!(cube_speed >= MIN_SPAWN_SPEED && cube_speed < MIN_SPAWN_SPEED + SPAWN_SPEED_RANGE);
}

#[test]
fn spawned_positions_are_random_within_bounds() {
    let mut store = ComponentStore::new();
    let mut xs = Vec::new();
    for _ in 0..40 {
        let e = add_sphere_entity(&mut store);
        let t = store.get(e).unwrap().transform.unwrap();
        let p = t.translation;
        for c in [p.x, p.y, p.z] {
            assert!(-SPAWN_EXTENT <= c && c < SPAWN_EXTENT);
        }
        assert_eq!(t.rotation, Quat::identity());
        xs.push(p.x);
    }
    assert!(xs.iter().any(|&x| x != xs[0]));
    assert!(xs.iter().any(|&x| x != -SPAWN_EXTENT));
}

#[test]
fn bullet_shape_needs_a_positive_radius() {
    let mut reg = PhysicsRegistry::new();
    let mut state = CubeGameState::new();
    assert_eq!(state.initialize_bullet_shape(&mut reg, 0), Err(PhysicsError::InvalidGeometry));
    assert_eq!(state.bullet_shape, None);
    assert_eq!(state.initialize_bullet_shape(&mut reg, 250_000), Ok(()));
    assert_eq!(state.bullet_shape, Some(ShapeHandle { index: 0 }));
}

#[test]
fn scene_start_refuses_a_zone_area_already_taken() {
    let mut reg = PhysicsRegistry::new();
    let world = reg.create_world();
    let mut store = ComponentStore::new();
    let mut squatter = EntityData::empty();
    squatter.area = Some(AreaHandle { index: 0 });
    store.spawn(squatter).unwrap();
    let mut state = CubeGameState::new();
    let platforms = vec![Transform::default()];
    let r = state.on_start(&mut reg, &mut store, world, &platforms, Transform::default());
    assert_eq!(r, Err(SceneError::AreaInUse));
    assert_eq!(store.len(), 2);
    assert!(store.get(Entity { index: 1 }).unwrap().body.is_some());
}
