use vstd::prelude::*;

use crate::clock::{FireLatch, OneShotTimer};
use crate::components::{Bullet, SafeZone};
use crate::geometry::{ShapeDescriptor, Transform, Vec3, UNIT};
use crate::registry::{
    AreaDescriptor, AreaHandle, AreaRecord, BodyHandle, BodyMode, BodyRecord, PhysicsError, PhysicsRegistry,
    RegistryModel, RigidBodyDescriptor, ShapeHandle, WorldHandle,
};
use crate::store::{area_in_use, area_of, ComponentStore, Entity, EntityData, SceneError};

verus! {

/// Radius of a bullet (0.5 units).
pub const BULLET_RADIUS: i64 = 500_000;

/// Radius of the safe zone (10 units).
pub const SAFE_ZONE_RADIUS: i64 = 10_000_000;

/// Half extents of a platform: 10 by 10 by 0.3 units.
pub const PLATFORM_HALF_X: i64 = 10_000_000;
pub const PLATFORM_HALF_Y: i64 = 10_000_000;
pub const PLATFORM_HALF_Z: i64 = 300_000;

/// Half extents of a platform once resized: 5 by 5 by 0.3 units.
pub const RESIZED_PLATFORM_HALF_X: i64 = 5_000_000;
pub const RESIZED_PLATFORM_HALF_Y: i64 = 5_000_000;

/// Delay before the platforms are resized: five seconds.
pub const PLATFORM_RESIZE_DELAY: i64 = 5_000_000;

pub open spec fn platform_geometry() -> ShapeDescriptor {
    ShapeDescriptor::Cube {
        half_extents: Vec3 { x: PLATFORM_HALF_X, y: PLATFORM_HALF_Y, z: PLATFORM_HALF_Z },
    }
}

pub open spec fn resized_platform_geometry() -> ShapeDescriptor {
    ShapeDescriptor::Cube {
        half_extents: Vec3 {
            x: RESIZED_PLATFORM_HALF_X,
            y: RESIZED_PLATFORM_HALF_Y,
            z: PLATFORM_HALF_Z,
        },
    }
}

/// A body of unit mass.
pub open spec fn body_record(
    world: WorldHandle,
    transform: Transform,
    shape: ShapeHandle,
    mode: BodyMode,
) -> BodyRecord {
    BodyRecord {
        world,
        desc: RigidBodyDescriptor { mode, transform, mass: UNIT, shape },
        alive: true,
    }
}

pub open spec fn platform_data(transform: Transform, body: BodyHandle) -> EntityData {
    EntityData { transform: Some(transform), body: Some(body), ..EntityData::spec_empty() }
}

pub open spec fn bullet_data(transform: Transform, body: BodyHandle) -> EntityData {
    EntityData {
        transform: Some(transform),
        body: Some(body),
        bullet: Some(Bullet {  }),
        ..EntityData::spec_empty()
    }
}

pub open spec fn zone_data(transform: Transform, area: AreaHandle) -> EntityData {
    EntityData {
        transform: Some(transform),
        area: Some(area),
        safe_zone: Some(SafeZone { overlap_count: 0, activation_timer: 0 }),
        ..EntityData::spec_empty()
    }
}

/// Creates a body of unit mass and applies `impulse` to it at once.
pub fn create_rigid_body(
    registry: &mut PhysicsRegistry,
    world: WorldHandle,
    transform: Transform,
    shape: ShapeHandle,
    mode: BodyMode,
    impulse: Vec3,
) -> (r: Result<BodyHandle, PhysicsError>)
    requires
        old(registry).wf(),
    ensures
        final(registry).wf(),
        r is Ok <==> old(registry)@.has_world(world) && old(registry)@.has_shape(shape),
        r is Err ==> r->Err_0 == PhysicsError::UnknownHandle && final(registry)@ == old(registry)@,
        r is Ok ==> r->Ok_0.index == old(registry)@.bodies.len() && final(registry)@ == (
        RegistryModel {
            bodies: old(registry)@.bodies.push(body_record(world, transform, shape, mode)),
            impulses: old(registry)@.impulses.push((r->Ok_0, impulse)),
            ..old(registry)@
        }),
{
    let desc = RigidBodyDescriptor { mode, transform, mass: UNIT, shape };
    let body = match registry.create_body(world, desc) {
        Ok(b) => b,
        Err(e) => return Err(e),
    };
    let _ = registry.apply_impulse(body, impulse);
    Ok(body)
}

/// Creates a trigger volume of `shape` placed at `transform`.
pub fn create_area(
    registry: &mut PhysicsRegistry,
    world: WorldHandle,
    transform: Transform,
    shape: ShapeHandle,
) -> (r: Result<AreaHandle, PhysicsError>)
    requires
        old(registry).wf(),
    ensures
        final(registry).wf(),
        r is Ok <==> old(registry)@.has_world(world) && old(registry)@.has_shape(shape),
        r is Err ==> r->Err_0 == PhysicsError::UnknownHandle && final(registry)@ == old(registry)@,
        r is Ok ==> r->Ok_0.index == old(registry)@.areas.len() && final(registry)@ == (
        RegistryModel {
            areas: old(registry)@.areas.push(
                AreaRecord { world, desc: AreaDescriptor { shape, transform } },
            ),
            inboxes: old(registry)@.inboxes.push(Seq::empty()),
            ..old(registry)@
        }),
{
    registry.create_area(world, AreaDescriptor { shape, transform })
}

/// The outcome of adding a bullet at `transform` with `impulse` in `world`,
/// from registry `r0` and store `s0` to `r1` and `s1`.
pub open spec fn bullet_added(
    state: CubeGameState,
    r0: RegistryModel,
    r1: RegistryModel,
    s0: Seq<Option<EntityData>>,
    s1: Seq<Option<EntityData>>,
    world: WorldHandle,
    transform: Transform,
    impulse: Vec3,
    r: Result<Entity, SceneError>,
) -> bool {
    &&& state.bullet_shape is None ==> r == Err::<Entity, SceneError>(SceneError::Uninitialized)
    &&& state.bullet_shape matches Some(s) ==> (r is Ok <==> r0.has_world(world) && r0.has_shape(s))
    &&& state.bullet_shape is Some && r is Err ==> r->Err_0 == SceneError::Physics(
        PhysicsError::UnknownHandle,
    )
    &&& r is Err ==> r1 == r0 && s1 == s0
    &&& r is Ok ==> {
        let b = BodyHandle { index: r0.bodies.len() as usize };
        &&& r->Ok_0.index == s0.len()
        &&& s1 == s0.push(Some(bullet_data(transform, b)))
        &&& r1 == (RegistryModel {
            bodies: r0.bodies.push(
                body_record(world, transform, state.bullet_shape->0, BodyMode::Dynamic),
            ),
            impulses: r0.impulses.push((b, impulse)),
            ..r0
        })
    }
}

/// The outcome of the firing half of an update that samples `want_to_fire`.
pub open spec fn fire_outcome(
    state: CubeGameState,
    r0: RegistryModel,
    r1: RegistryModel,
    s0: Seq<Option<EntityData>>,
    s1: Seq<Option<EntityData>>,
    world: WorldHandle,
    want_to_fire: bool,
    impulse: Vec3,
    r: Result<Option<Entity>, SceneError>,
) -> bool {
    if state.bullet_fired.after_tick(want_to_fire).1 {
        &&& r != Ok::<Option<Entity>, SceneError>(None)
        &&& bullet_added(
            state,
            r0,
            r1,
            s0,
            s1,
            world,
            state.camera_transform,
            impulse,
            match r {
                Ok(Some(e)) => Ok(e),
                Ok(None) => Err(SceneError::Uninitialized),
                Err(e) => Err(e),
            },
        )
    } else {
        r == Ok::<Option<Entity>, SceneError>(None) && r1 == r0 && s1 == s0
    }
}

/// The outcome of the resizing half of an update of `dt` microseconds.
pub open spec fn resize_outcome(
    state: CubeGameState,
    r0: RegistryModel,
    r1: RegistryModel,
    dt: u64,
    r: Result<bool, SceneError>,
) -> bool {
    if state.platform_resize.after_tick(dt).1 {
        match state.platform_shape {
            None => r == Err::<bool, SceneError>(SceneError::Uninitialized) && r1 == r0,
            Some(p) => if r0.has_shape(p) {
                r == Ok::<bool, SceneError>(true) && r1 == (RegistryModel {
                    shapes: r0.shapes.update(p.index as int, resized_platform_geometry()),
                    ..r0
                })
            } else {
                r == Err::<bool, SceneError>(SceneError::Physics(PhysicsError::UnknownHandle))
                    && r1 == r0
            },
        }
    } else {
        r == Ok::<bool, SceneError>(false) && r1 == r0
    }
}

/// The scene with platforms, a safe zone and bullets fired from the camera.
///
/// The shape handles are `None` until the scene has created them; an
/// operation that needs a missing one fails with `SceneError::Uninitialized`.
pub struct CubeGameState {
    pub bullet_fired: FireLatch,
    pub bullet_shape: Option<ShapeHandle>,
    pub platform_shape: Option<ShapeHandle>,
    pub safe_zone_area: Option<ShapeHandle>,
    pub platform_resize: OneShotTimer,
    pub camera_transform: Transform,
}

/// What one update of the cube scene did.
#[derive(Clone, Copy, Debug, PartialEq, Eq)]
pub struct CubeTick {
    /// The bullet fired on this update, if any.
    pub bullet: Result<Option<Entity>, SceneError>,
    /// Whether the platforms were resized on this update.
    pub platform_resized: Result<bool, SceneError>,
}

impl CubeGameState {
    pub fn new() -> (r: CubeGameState)
        ensures
            r.bullet_fired == (FireLatch { latched: false }),
            r.bullet_shape is None,
            r.platform_shape is None,
            r.safe_zone_area is None,
            r.platform_resize == (OneShotTimer { guard: 0, threshold: PLATFORM_RESIZE_DELAY }),
            r.camera_transform == Transform::spec_identity(),
    {
        CubeGameState {
            bullet_fired: FireLatch::new(),
            bullet_shape: None,
            platform_shape: None,
            safe_zone_area: None,
            platform_resize: OneShotTimer::new(PLATFORM_RESIZE_DELAY),
            camera_transform: Transform::default(),
        }
    }

    pub fn initialize_bullet_shape(&mut self, registry: &mut PhysicsRegistry, radius: i64) -> (r:
        Result<(), PhysicsError>)
        requires
            old(registry).wf(),
        ensures
            final(registry).wf(),
            r is Ok <==> radius > 0,
            r is Err ==> r->Err_0 == PhysicsError::InvalidGeometry && final(registry)@ == old(
                registry,
            )@ && *final(self) == *old(self),
            r is Ok ==> final(registry)@ == (RegistryModel {
                shapes: old(registry)@.shapes.push(ShapeDescriptor::Sphere { radius }),
                ..old(registry)@
            }) && *final(self) == (CubeGameState {
                bullet_shape: Some(ShapeHandle { index: old(registry)@.shapes.len() as usize }),
                ..*old(self)
            }),
    {
        match registry.create_shape(ShapeDescriptor::Sphere { radius }) {
            Ok(h) => {
                self.bullet_shape = Some(h);
                Ok(())
            },
            Err(e) => Err(e),
        }
    }

    pub fn initialize_platform_shape(&mut self, registry: &mut PhysicsRegistry)
        requires
            old(registry).wf(),
        ensures
            final(registry).wf(),
            final(registry)@ == (RegistryModel {
                shapes: old(registry)@.shapes.push(platform_geometry()),
                ..old(registry)@
            }),
            *final(self) == (CubeGameState {
                platform_shape: Some(ShapeHandle { index: old(registry)@.shapes.len() as usize }),
                ..*old(self)
            }),
    {
        let desc = ShapeDescriptor::Cube {
            half_extents: Vec3::new(PLATFORM_HALF_X, PLATFORM_HALF_Y, PLATFORM_HALF_Z),
        };
        match registry.create_shape(desc) {
            Ok(h) => {
                self.platform_shape = Some(h);
            },
            Err(_) => {},
        }
    }

    pub fn initialize_safe_zone(&mut self, registry: &mut PhysicsRegistry)
        requires
            old(registry).wf(),
        ensures
            final(registry).wf(),
            final(registry)@ == (RegistryModel {
                shapes: old(registry)@.shapes.push(
                    ShapeDescriptor::Sphere { radius: SAFE_ZONE_RADIUS },
                ),
                ..old(registry)@
            }),
            *final(self) == (CubeGameState {
                safe_zone_area: Some(ShapeHandle { index: old(registry)@.shapes.len() as usize }),
                ..*old(self)
            }),
    {
        match registry.create_shape(ShapeDescriptor::Sphere { radius: SAFE_ZONE_RADIUS }) {
            Ok(h) => {
                self.safe_zone_area = Some(h);
            },
            Err(_) => {},
        }
    }

    /// Adds a static platform at `transform`.
    pub fn add_cube(
        &self,
        registry: &mut PhysicsRegistry,
        store: &mut ComponentStore,
        world: WorldHandle,
        transform: Transform,
    ) -> (r: Result<Entity, SceneError>)
        requires
            old(registry).wf(),
            old(store).wf(),
        ensures
            final(registry).wf(),
            final(store).wf(),
            self.platform_shape is None ==> r == Err::<Entity, SceneError>(
                SceneError::Uninitialized,
            ),
            self.platform_shape matches Some(s) ==> (r is Ok <==> old(registry)@.has_world(world)
                && old(registry)@.has_shape(s)),
            self.platform_shape is Some && r is Err ==> r->Err_0 == SceneError::Physics(
                PhysicsError::UnknownHandle,
            ),
            r is Err ==> final(registry)@ == old(registry)@ && final(store)@ == old(store)@,
            r is Ok ==> {
                let b = BodyHandle { index: old(registry)@.bodies.len() as usize };
                &&& r->Ok_0.index == old(store)@.len()
                &&& final(store)@ == old(store)@.push(Some(platform_data(transform, b)))
                &&& final(registry)@ == (RegistryModel {
                    bodies: old(registry)@.bodies.push(
                        body_record(world, transform, self.platform_shape->0, BodyMode::Static),
                    ),
                    impulses: old(registry)@.impulses.push((b, Vec3 { x: 0, y: 0, z: 0 })),
                    ..old(registry)@
                })
            },
    {
        let shape = match self.platform_shape {
            Some(s) => s,
            None => return Err(SceneError::Uninitialized),
        };
        let body = match create_rigid_body(
            registry,
            world,
            transform,
            shape,
            BodyMode::Static,
            Vec3::zeros(),
        ) {
            Ok(b) => b,
            Err(e) => return Err(SceneError::Physics(e)),
        };
        let mut data = EntityData::empty();
        data.transform = Some(transform);
        data.body = Some(body);
        store.spawn(data)
    }

    /// Adds the safe zone at `transform`: an area with a fresh zone state.
    /// The area is registered even when the store refuses it.
    pub fn add_safe_zone(
        &self,
        registry: &mut PhysicsRegistry,
        store: &mut ComponentStore,
        world: WorldHandle,
        transform: Transform,
    ) -> (r: Result<Entity, SceneError>)
        requires
            old(registry).wf(),
            old(store).wf(),
        ensures
            final(registry).wf(),
            final(store).wf(),
            self.safe_zone_area is None ==> r == Err::<Entity, SceneError>(
                SceneError::Uninitialized,
            ) && final(registry)@ == old(registry)@,
            self.safe_zone_area matches Some(s) ==> ((r is Err && r->Err_0 is Physics)
                <==> !(old(registry)@.has_world(world) && old(registry)@.has_shape(s))),
            r matches Err(SceneError::Physics(e)) ==> e == PhysicsError::UnknownHandle
                && final(registry)@ == old(registry)@,
            r is Err ==> final(store)@ == old(store)@,
            self.safe_zone_area matches Some(s) && old(registry)@.has_world(world) && old(
                registry,
            )@.has_shape(s) ==> {
                let a = AreaHandle { index: old(registry)@.areas.len() as usize };
                &&& final(registry)@ == (RegistryModel {
                    areas: old(registry)@.areas.push(
                        AreaRecord {
                            world,
                            desc: AreaDescriptor { shape: self.safe_zone_area->0, transform },
                        },
                    ),
                    inboxes: old(registry)@.inboxes.push(Seq::empty()),
                    ..old(registry)@
                })
                &&& (r is Ok <==> !area_in_use(old(store)@, a))
                &&& r is Err ==> r->Err_0 == SceneError::AreaInUse
                &&& r is Ok ==> r->Ok_0.index == old(store)@.len() && final(store)@ == old(
                    store,
                )@.push(Some(zone_data(transform, a)))
            },
    {
        let shape = match self.safe_zone_area {
            Some(s) => s,
            None => return Err(SceneError::Uninitialized),
        };
        let area = match create_area(registry, world, transform, shape) {
            Ok(a) => a,
            Err(e) => return Err(SceneError::Physics(e)),
        };
        let mut data = EntityData::empty();
        data.transform = Some(transform);
        data.area = Some(area);
        data.safe_zone = Some(SafeZone::default());
        store.spawn(data)
    }

    /// Adds a projectile at `transform` and pushes it with `impulse`.
    pub fn add_bullet_entity(
        &self,
        registry: &mut PhysicsRegistry,
        store: &mut ComponentStore,
        world: WorldHandle,
        transform: Transform,
        impulse: Vec3,
    ) -> (r: Result<Entity, SceneError>)
        requires
            old(registry).wf(),
            old(store).wf(),
        ensures
            final(registry).wf(),
            final(store).wf(),
            bullet_added(
                *self,
                old(registry)@,
                final(registry)@,
                old(store)@,
                final(store)@,
                world,
                transform,
                impulse,
                r,
            ),
    {
        let shape = match self.bullet_shape {
            Some(s) => s,
            None => return Err(SceneError::Uninitialized),
        };
        let body = match create_rigid_body(
            registry,
            world,
            transform,
            shape,
            BodyMode::Dynamic,
            impulse,
        ) {
            Ok(b) => b,
            Err(e) => return Err(SceneError::Physics(e)),
        };
        let mut data = EntityData::empty();
        data.transform = Some(transform);
        data.body = Some(body);
        data.bullet = Some(Bullet::default());
        store.spawn(data)
    }

    /// The firing half of an update: the latch samples `want_to_fire` and,
    /// when it fires, a bullet leaves the camera pushed by `impulse`.
    pub fn fire(
        &mut self,
        registry: &mut PhysicsRegistry,
        store: &mut ComponentStore,
        world: WorldHandle,
        want_to_fire: bool,
        impulse: Vec3,
    ) -> (r: Result<Option<Entity>, SceneError>)
        requires
            old(registry).wf(),
            old(store).wf(),
        ensures
            final(registry).wf(),
            final(store).wf(),
            *final(self) == (CubeGameState {
                bullet_fired: old(self).bullet_fired.after_tick(want_to_fire).0,
                ..*old(self)
            }),
            fire_outcome(
                *old(self),
                old(registry)@,
                final(registry)@,
                old(store)@,
                final(store)@,
                world,
                want_to_fire,
                impulse,
                r,
            ),
    {
        if !self.bullet_fired.update(want_to_fire) {
            return Ok(None);
        }
        let transform = self.camera_transform;
        match self.add_bullet_entity(registry, store, world, transform, impulse) {
            Ok(e) => Ok(Some(e)),
            Err(e) => Err(e),
        }
    }

    /// The resizing half of an update: once the delay has passed, the
    /// platform shape takes its resized geometry, once.
    pub fn resize_platform(&mut self, registry: &mut PhysicsRegistry, dt: u64) -> (r: Result<
        bool,
        SceneError,
    >)
        requires
            old(registry).wf(),
        ensures
            final(registry).wf(),
            *final(self) == (CubeGameState {
                platform_resize: old(self).platform_resize.after_tick(dt).0,
                ..*old(self)
            }),
            resize_outcome(*old(self), old(registry)@, final(registry)@, dt, r),
    {
        if !self.platform_resize.tick(dt) {
            return Ok(false);
        }
        let shape = match self.platform_shape {
            Some(p) => p,
            None => return Err(SceneError::Uninitialized),
        };
        let desc = ShapeDescriptor::Cube {
            half_extents: Vec3::new(
                RESIZED_PLATFORM_HALF_X,
                RESIZED_PLATFORM_HALF_Y,
                PLATFORM_HALF_Z,
            ),
        };
        match registry.update_shape(shape, desc) {
            Ok(()) => Ok(true),
            Err(e) => Err(SceneError::Physics(e)),
        }
    }

    /// One update of the scene, `dt` microseconds after the previous one,
    /// with the fire signal sampled as `want_to_fire`. The two halves fail
    /// independently.
    pub fn update(
        &mut self,
        registry: &mut PhysicsRegistry,
        store: &mut ComponentStore,
        world: WorldHandle,
        want_to_fire: bool,
        dt: u64,
        impulse: Vec3,
    ) -> (r: CubeTick)
        requires
            old(registry).wf(),
            old(store).wf(),
        ensures
            final(registry).wf(),
            final(store).wf(),
            *final(self) == (CubeGameState {
                bullet_fired: old(self).bullet_fired.after_tick(want_to_fire).0,
                platform_resize: old(self).platform_resize.after_tick(dt).0,
                ..*old(self)
            }),
            exists|mid: RegistryModel|
                fire_outcome(
                    *old(self),
                    old(registry)@,
                    mid,
                    old(store)@,
                    final(store)@,
                    world,
                    want_to_fire,
                    impulse,
                    r.bullet,
                ) && resize_outcome(*old(self), mid, final(registry)@, dt, r.platform_resized),
    {
        let ghost before = *self;
        let bullet = self.fire(registry, store, world, want_to_fire, impulse);
        let ghost mid = registry@;
        let platform_resized = self.resize_platform(registry, dt);
        assert(resize_outcome(before, mid, registry@, dt, platform_resized));
        CubeTick { bullet, platform_resized }
    }

    /// Builds the scene: the bullet, platform and safe-zone shapes, one
    /// static platform at each of `platforms`, and the safe zone at
    /// `zone_transform`. Fails, changing nothing, when `world` is unknown.
    pub fn on_start(
        &mut self,
        registry: &mut PhysicsRegistry,
        store: &mut ComponentStore,
        world: WorldHandle,
        platforms: &Vec<Transform>,
        zone_transform: Transform,
    ) -> (r: Result<(), SceneError>)
        requires
            old(registry).wf(),
            old(store).wf(),
        ensures
            final(registry).wf(),
            final(store).wf(),
            !old(registry)@.has_world(world) ==> r == Err::<(), SceneError>(
                SceneError::Physics(PhysicsError::UnknownHandle),
            ) && *final(self) == *old(self) && final(registry)@ == old(registry)@
                && final(store)@ == old(store)@,
            old(registry)@.has_world(world) ==> {
                let n0 = old(registry)@.shapes.len();
                let b0 = old(registry)@.bodies.len();
                let a = AreaHandle { index: old(registry)@.areas.len() as usize };
                let platform = ShapeHandle { index: (n0 + 1) as usize };
                let zone = ShapeHandle { index: (n0 + 2) as usize };
                &&& *final(self) == (CubeGameState {
                    bullet_shape: Some(ShapeHandle { index: n0 as usize }),
                    platform_shape: Some(platform),
                    safe_zone_area: Some(zone),
                    ..*old(self)
                })
                &&& final(registry)@ == (RegistryModel {
                    shapes: old(registry)@.shapes + seq![
                        ShapeDescriptor::Sphere { radius: BULLET_RADIUS },
                        platform_geometry(),
                        ShapeDescriptor::Sphere { radius: SAFE_ZONE_RADIUS },
                    ],
                    bodies: old(registry)@.bodies + Seq::new(
                        platforms@.len(),
                        |k: int| body_record(world, platforms@[k], platform, BodyMode::Static),
                    ),
                    impulses: old(registry)@.impulses + Seq::new(
                        platforms@.len(),
                        |k: int| (BodyHandle { index: (b0 + k) as usize }, Vec3 { x: 0, y: 0, z: 0 }),
                    ),
                    areas: old(registry)@.areas.push(
                        AreaRecord {
                            world,
                            desc: AreaDescriptor { shape: zone, transform: zone_transform },
                        },
                    ),
                    inboxes: old(registry)@.inboxes.push(Seq::empty()),
                    ..old(registry)@
                })
                &&& (r is Ok <==> !area_in_use(old(store)@, a))
                &&& r is Err ==> r->Err_0 == SceneError::AreaInUse
                &&& final(store)@ == old(store)@ + Seq::new(
                    platforms@.len(),
                    |k: int|
                        Some(platform_data(platforms@[k], BodyHandle { index: (b0 + k) as usize })),
                ) + if r is Ok {
                    seq![Some(zone_data(zone_transform, a))]
                } else {
                    Seq::empty()
                }
            },
    {
        if world.index >= registry.world_count() {
            return Err(SceneError::Physics(PhysicsError::UnknownHandle));
        }
        let ghost r0 = registry@;
        let ghost s0 = store@;
        match self.initialize_bullet_shape(registry, BULLET_RADIUS) {
            Ok(()) => {},
            Err(e) => return Err(SceneError::Physics(e)),
        }
        self.initialize_platform_shape(registry);
        self.initialize_safe_zone(registry);
        let ghost n0 = r0.shapes.len();
        let ghost b0 = r0.bodies.len();
        let ghost platform = ShapeHandle { index: (n0 + 1) as usize };
        let ghost r3 = registry@;
        assert(r3.shapes =~= r0.shapes + seq![
            ShapeDescriptor::Sphere { radius: BULLET_RADIUS },
            platform_geometry(),
            ShapeDescriptor::Sphere { radius: SAFE_ZONE_RADIUS },
        ]);
        let mut i: usize = 0;
        while i < platforms.len()
            invariant
                i <= platforms@.len(),
                registry.wf(),
                store.wf(),
                r3.has_world(world),
                r3.has_shape(platform),
                self.platform_shape == Some(platform),
                registry@ == (RegistryModel {
                    bodies: r3.bodies + Seq::new(
                        i as nat,
                        |k: int| body_record(world, platforms@[k], platform, BodyMode::Static),
                    ),
                    impulses: r3.impulses + Seq::new(
                        i as nat,
                        |k: int| (BodyHandle { index: (b0 + k) as usize }, Vec3 { x: 0, y: 0, z: 0 }),
                    ),
                    ..r3
                }),
                r3.bodies == r0.bodies,
                b0 == r0.bodies.len(),
                store@ == s0 + Seq::new(
                    i as nat,
                    |k: int|
                        Some(platform_data(platforms@[k], BodyHandle { index: (b0 + k) as usize })),
                ),
            decreases platforms@.len() - i,
        {
            let transform = platforms[i];
            let ghost rb = registry@;
            assert(rb.bodies.len() == b0 + i);
            assert(transform == platforms@[i as int]);
            let _ = self.add_cube(registry, store, world, transform);
            proof {
                assert(registry@.bodies =~= r3.bodies + Seq::new(
                    (i + 1) as nat,
                    |k: int| body_record(world, platforms@[k], platform, BodyMode::Static),
                ));
                assert(registry@.impulses =~= r3.impulses + Seq::new(
                    (i + 1) as nat,
                    |k: int| (BodyHandle { index: (b0 + k) as usize }, Vec3 { x: 0, y: 0, z: 0 }),
                ));
                assert(store@ =~= s0 + Seq::new(
                    (i + 1) as nat,
                    |k: int|
                        Some(platform_data(platforms@[k], BodyHandle { index: (b0 + k) as usize })),
                ));
            }
            i = i + 1;
        }
        let ghost s_mid = store@;
        let ghost a = AreaHandle { index: r0.areas.len() as usize };
        proof {
            if area_in_use(s_mid, a) {
                let j = choose|j: int| 0 <= j < s_mid.len() && area_of(s_mid[j]) == Some(a);
                if j >= s0.len() {
                    assert(s_mid[j] == Some(platform_data(platforms@[j - s0.len()], BodyHandle { index: (b0 + j - s0.len()) as usize })));
                }
                assert(area_in_use(s0, a));
            }
            if area_in_use(s0, a) {
                let j = choose|j: int| 0 <= j < s0.len() && area_of(s0[j]) == Some(a);
                assert(s_mid[j] == s0[j]);
            }
        }
        let r = match self.add_safe_zone(registry, store, world, zone_transform) {
            Ok(_) => Ok(()),
            Err(e) => Err(e),
        };
        proof {
            if r is Ok {
                assert(store@ =~= s_mid + seq![Some(zone_data(zone_transform, a))]);
            } else {
                assert(store@ =~= s_mid + Seq::<Option<EntityData>>::empty());
            }
        }
        r
    }
}

} // verus!
