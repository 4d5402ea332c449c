//! Physics handle registry and collision-driven gameplay logic for small
//! demo scenes.
//!
//! Lengths, masses and speeds are fixed-point integers counted in millionths
//! of a unit (`UNIT`); time is counted in microseconds.

pub mod clock;
pub mod components;
pub mod config;
pub mod cube_game;
pub mod geometry;
pub mod registry;
pub mod states;
pub mod store;
pub mod systems;

pub use clock::{FireLatch, OneShotTimer, PeriodicTimer, GUARD_DISARMED, GUARD_SPENT};
pub use components::{
    Bullet, Motion, PhysicalImpulse, SafeZone, SafeZoneAssets, ZoneMaterial, ACTIVATION_DURATION,
};
pub use config::{get_dir_path, MAIN_DIR};
pub use cube_game::{
    create_area, create_rigid_body, CubeGameState, CubeTick, BULLET_RADIUS, PLATFORM_HALF_X,
    PLATFORM_HALF_Y, PLATFORM_HALF_Z, PLATFORM_RESIZE_DELAY, RESIZED_PLATFORM_HALF_X,
    RESIZED_PLATFORM_HALF_Y, SAFE_ZONE_RADIUS,
};
pub use geometry::{Quat, ShapeDescriptor, Transform, Vec3, UNIT};
pub use registry::{
    AreaDescriptor, AreaHandle, AreaRecord, BodyHandle, BodyMode, BodyRecord, OverlapEvent,
    PhysicsError, PhysicsRegistry, RigidBodyDescriptor, ShapeHandle, WorldHandle,
};
pub use states::{
    add_cube_entity, add_moving_entity, add_sphere_entity, spawn_moving, GamePlayState,
    LoadingState, MeshKind, PauseState, StateTransition, LOADING_UPDATES, MIN_SPAWN_SPEED,
    PAUSE_UPDATES, SPAWN_EXTENT, SPAWN_PERIOD, SPAWN_SPEED_RANGE,
};
pub use store::{ComponentStore, Entity, EntityData, SceneError};
pub use systems::{ImpulseSystem, MotionSystem, SafeZoneSystem, TargetSystem};
