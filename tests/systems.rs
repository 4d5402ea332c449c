use cubes::{
    AreaDescriptor, BodyHandle, BodyMode, Bullet, ComponentStore, Entity, EntityData,
    ImpulseSystem, Motion, MotionSystem, OverlapEvent, PhysicalImpulse, PhysicsRegistry,
    RigidBodyDescriptor, SafeZone, SafeZoneSystem, SceneError, ShapeDescriptor, ShapeHandle,
    Transform, Vec3, WorldHandle, ZoneMaterial, UNIT,
};

fn setup() -> (PhysicsRegistry, WorldHandle, ShapeHandle) {
    let mut reg = PhysicsRegistry::new();
    let world = reg.create_world();
    let shape = reg.create_shape(ShapeDescriptor::Sphere { radius: UNIT }).unwrap();
    (reg, world, shape)
}

fn new_body(reg: &mut PhysicsRegistry, world: WorldHandle, shape: ShapeHandle) -> BodyHandle {
    let desc = RigidBodyDescriptor {
        mode: BodyMode::Dynamic,
        transform: Transform::default(),
        mass: UNIT,
        shape,
    };
    reg.create_body(world, desc).unwrap()
}

#[test]
fn impulse_sweep_applies_each_request_once() {
    let (mut reg, world, shape) = setup();
    let b0 = new_body(&mut reg, world, shape);
    let b1 = new_body(&mut reg, world, shape);
    let stale = new_body(&mut reg, world, shape);
    reg.delete_body(stale).unwrap();
    let mut store = ComponentStore::new();
    let v0 = Vec3::new(1, 2, 3);
    let v1 = Vec3::new(-4, 0, 9);
    let v2 = Vec3::new(5, 5, 5);
    let mut with_body = EntityData::empty();
    with_body.body = Some(b0);
    with_body.impulse = Some(PhysicalImpulse::new(v0));
    let e0 = store.spawn(with_body).unwrap();
    let mut no_body = EntityData::empty();
    no_body.impulse = Some(PhysicalImpulse::new(v2));
    let e1 = store.spawn(no_body).unwrap();
    let mut second = EntityData::empty();
    second.body = Some(b1);
    second.impulse = Some(PhysicalImpulse::new(v1));
    let e2 = store.spawn(second).unwrap();
    let mut stale_entity = EntityData::empty();
    stale_entity.body = Some(stale);
    stale_entity.impulse = Some(PhysicalImpulse::new(v2));
    let e3 = store.spawn(stale_entity).unwrap();

    let mut sweep = ImpulseSystem::new();
    sweep.run(&mut store, &mut reg);
    assert_eq!(reg.take_applied_impulses(), vec![(b0, v0), (b1, v1)]);
    assert_eq!(store.get(e0).unwrap().impulse, None);
    assert_eq!(store.get(e1).unwrap().impulse, Some(PhysicalImpulse::new(v2)));
    assert_eq!(store.get(e2).unwrap().impulse, None);
    assert_eq!(store.get(e3).unwrap().impulse, None);

    sweep.run(&mut store, &mut reg);
    assert!(reg.take_applied_impulses().is_empty());
}

#[test]
fn safe_zone_activates_and_deletes_entering_bullet() {
    let (mut reg, world, shape) = setup();
    let mut bodies = Vec::new();
    for _ in 0..8 {
        bodies.push(new_body(&mut reg, world, shape));
    }
    let body7 = bodies[7];
    assert_eq!(body7, BodyHandle { index: 7 });
    let area = reg
        .create_area(world, AreaDescriptor { shape, transform: Transform::default() })
        .unwrap();
    let mut store = ComponentStore::new();
    let mut zone = EntityData::empty();
    zone.area = Some(area);
    zone.safe_zone = Some(SafeZone { overlap_count: 0, activation_timer: 0 });
    let zone_entity = store.spawn(zone).unwrap();
    let mut bullet = EntityData::empty();
    bullet.body = Some(body7);
    bullet.bullet = Some(Bullet::default());
    let bullet_entity = store.spawn(bullet).unwrap();
    let mut bystander = EntityData::empty();
    bystander.body = Some(bodies[3]);
    let bystander_entity = store.spawn(bystander).unwrap();

    reg.record_overlap(area, OverlapEvent::Enter(body7)).unwrap();
    reg.record_overlap(area, OverlapEvent::Enter(bodies[3])).unwrap();
    let mut system = SafeZoneSystem::new();
    system.run(&mut store, &mut reg, 0);

    let z = store.get(zone_entity).unwrap().safe_zone.unwrap();
    assert_eq!(z.activation_timer, 2_000_000);
    assert_eq!(z.material(), ZoneMaterial::Active);
    assert_eq!(store.get(bullet_entity), None);
    assert!(!reg.body_alive(body7));
    assert!(store.get(bystander_entity).is_some());
    assert!(reg.body_alive(bodies[3]));
    assert!(reg.overlap_events(area).unwrap().is_empty());
}

#[test]
fn safe_zone_goes_idle_after_its_time() {
    let (mut reg, world, shape) = setup();
    let area = reg
        .create_area(world, AreaDescriptor { shape, transform: Transform::default() })
        .unwrap();
    let mut store = ComponentStore::new();
    let mut zone = EntityData::empty();
    zone.area = Some(area);
    zone.safe_zone = Some(SafeZone { overlap_count: 0, activation_timer: 1_500_000 });
    let e = store.spawn(zone).unwrap();
    SafeZoneSystem::new().run(&mut store, &mut reg, 2_000_000);
    let z = store.get(e).unwrap().safe_zone.unwrap();
    assert_eq!(z.activation_timer, -500_000);
    assert_eq!(z.material(), ZoneMaterial::Idle);
}

#[test]
fn area_belongs_to_one_entity() {
    let (mut reg, world, shape) = setup();
    let area = reg
        .create_area(world, AreaDescriptor { shape, transform: Transform::default() })
        .unwrap();
    let mut store = ComponentStore::new();
    let mut zone = EntityData::empty();
    zone.area = Some(area);
    zone.safe_zone = Some(SafeZone::default());
    let first = store.spawn(zone).unwrap();
    assert_eq!(store.spawn(zone), Err(SceneError::AreaInUse));
    assert!(store.delete(first));
    assert!(!store.delete(first));
    assert_eq!(store.spawn(zone), Ok(Entity { index: 1 }));
    assert_eq!(store.len(), 2);
}

#[test]
fn motion_moves_along_the_vertical_axis() {
    let mut store = ComponentStore::new();
    let mut rising = EntityData::empty();
    rising.transform = Some(Transform::from_translation(Vec3::new(5, 10, 15)));
    rising.motion = Some(Motion::new(2 * UNIT));
    let up = store.spawn(rising).unwrap();
    let mut sinking = EntityData::empty();
    sinking.transform = Some(Transform::from_translation(Vec3::new(0, 0, 0)));
    sinking.motion = Some(Motion::new(-3));
    let down = store.spawn(sinking).unwrap();
    let mut still = EntityData::empty();
    still.motion = Some(Motion::new(UNIT));
    let no_transform = store.spawn(still).unwrap();

    let mut system = MotionSystem::default();
    system.run(&mut store, 500_000);
    let t = store.get(up).unwrap().transform.unwrap();
    assert_eq!(t.translation, Vec3::new(5, 10 + UNIT, 15));
    let t = store.get(down).unwrap().transform.unwrap();
    assert_eq!(t.translation.y, -1);
    assert_eq!(store.get(no_transform).unwrap().transform, None);
}
