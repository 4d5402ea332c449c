use cubes::{
    AreaDescriptor, AreaHandle, BodyHandle, BodyMode, OverlapEvent, PhysicsError, PhysicsRegistry,
    RigidBodyDescriptor, ShapeDescriptor, ShapeHandle, Transform, Vec3, WorldHandle, UNIT,
};

fn sphere(radius: i64) -> ShapeDescriptor {
    ShapeDescriptor::Sphere { radius }
}

fn body_desc(shape: ShapeHandle) -> RigidBodyDescriptor {
    RigidBodyDescriptor {
        mode: BodyMode::Dynamic,
        transform: Transform::default(),
        mass: UNIT,
        shape,
    }
}

fn setup() -> (PhysicsRegistry, WorldHandle, ShapeHandle) {
    let mut reg = PhysicsRegistry::new();
    let world = reg.create_world();
    let shape = reg.create_shape(sphere(UNIT)).unwrap();
    (reg, world, shape)
}

#[test]
fn handles_are_issued_in_order() {
    let (mut reg, world, shape) = setup();
    assert_eq!(world, WorldHandle { index: 0 });
    assert_eq!(shape, ShapeHandle { index: 0 });
    let b0 = reg.create_body(world, body_desc(shape)).unwrap();
    let b1 = reg.create_body(world, body_desc(shape)).unwrap();
    assert_eq!(b0, BodyHandle { index: 0 });
    assert_eq!(b1, BodyHandle { index: 1 });
    let a = reg
        .create_area(world, AreaDescriptor { shape, transform: Transform::default() })
        .unwrap();
    assert_eq!(a, AreaHandle { index: 0 });
    assert_eq!(reg.world_count(), 1);
}

#[test]
fn create_shape_rejects_non_positive_dimensions() {
    let mut reg = PhysicsRegistry::new();
    assert_eq!(reg.create_shape(sphere(0)), Err(PhysicsError::InvalidGeometry));
    assert_eq!(reg.create_shape(sphere(-5)), Err(PhysicsError::InvalidGeometry));
    let flat = ShapeDescriptor::Cube { half_extents: Vec3::new(UNIT, UNIT, 0) };
    assert_eq!(reg.create_shape(flat), Err(PhysicsError::InvalidGeometry));
    let cube = ShapeDescriptor::Cube { half_extents: Vec3::new(UNIT, UNIT, 1) };
    assert_eq!(reg.create_shape(cube), Ok(ShapeHandle { index: 0 }));
    assert_eq!(reg.shape(ShapeHandle { index: 0 }), Some(cube));
    assert_eq!(reg.shape(ShapeHandle { index: 1 }), None);
}

#[test]
fn update_shape_replaces_geometry_in_place() {
    let (mut reg, _world, shape) = setup();
    assert_eq!(reg.update_shape(shape, sphere(3 * UNIT)), Ok(()));
    assert_eq!(reg.shape(shape), Some(sphere(3 * UNIT)));
    assert_eq!(
        reg.update_shape(ShapeHandle { index: 9 }, sphere(UNIT)),
        Err(PhysicsError::UnknownHandle)
    );
    assert_eq!(reg.update_shape(shape, sphere(0)), Err(PhysicsError::InvalidGeometry));
    assert_eq!(reg.shape(shape), Some(sphere(3 * UNIT)));
}

#[test]
fn unknown_world_or_shape_is_refused() {
    let (mut reg, world, shape) = setup();
    let other = WorldHandle { index: 4 };
    assert_eq!(reg.create_body(other, body_desc(shape)), Err(PhysicsError::UnknownHandle));
    let missing = ShapeHandle { index: 3 };
    assert_eq!(reg.create_body(world, body_desc(missing)), Err(PhysicsError::UnknownHandle));
    assert_eq!(
        reg.create_area(other, AreaDescriptor { shape, transform: Transform::default() }),
        Err(PhysicsError::UnknownHandle)
    );
}

#[test]
fn impulses_are_logged_for_live_bodies_only() {
    let (mut reg, world, shape) = setup();
    let b = reg.create_body(world, body_desc(shape)).unwrap();
    let v = Vec3::new(1, -2, 3);
    assert_eq!(reg.apply_impulse(b, v), Ok(()));
    assert_eq!(reg.apply_impulse(BodyHandle { index: 5 }, v), Err(PhysicsError::UnknownHandle));
    assert_eq!(reg.take_applied_impulses(), vec![(b, v)]);
    assert!(reg.take_applied_impulses().is_empty());
    assert_eq!(reg.delete_body(b), Ok(()));
    assert!(!reg.body_alive(b));
    assert_eq!(reg.apply_impulse(b, v), Err(PhysicsError::UnknownHandle));
    assert_eq!(reg.delete_body(b), Err(PhysicsError::UnknownHandle));
    assert!(reg.take_applied_impulses().is_empty());
}

#[test]
fn overlap_events_are_consumed_once() {
    let (mut reg, world, shape) = setup();
    let b = reg.create_body(world, body_desc(shape)).unwrap();
    let a = reg
        .create_area(world, AreaDescriptor { shape, transform: Transform::default() })
        .unwrap();
    assert_eq!(reg.record_overlap(a, OverlapEvent::Enter(b)), Ok(()));
    assert_eq!(reg.record_overlap(a, OverlapEvent::Exit(b)), Ok(()));
    let first = reg.overlap_events(a).unwrap();
    assert_eq!(first, vec![OverlapEvent::Enter(b), OverlapEvent::Exit(b)]);
    let second = reg.overlap_events(a).unwrap();
    assert!(second.is_empty());
}

#[test]
fn overlaps_need_a_known_area_and_a_live_body() {
    let (mut reg, world, shape) = setup();
    let b = reg.create_body(world, body_desc(shape)).unwrap();
    let a = reg
        .create_area(world, AreaDescriptor { shape, transform: Transform::default() })
        .unwrap();
    let ghost_area = AreaHandle { index: 7 };
    assert_eq!(
        reg.record_overlap(ghost_area, OverlapEvent::Enter(b)),
        Err(PhysicsError::UnknownHandle)
    );
    assert_eq!(reg.overlap_events(ghost_area), Err(PhysicsError::UnknownHandle));
    reg.delete_body(b).unwrap();
    assert_eq!(reg.record_overlap(a, OverlapEvent::Enter(b)), Err(PhysicsError::UnknownHandle));
    assert!(reg.overlap_events(a).unwrap().is_empty());
}
