use rand::Rng;
use vstd::prelude::*;

use crate::clock::PeriodicTimer;
use crate::components::Motion;
use crate::geometry::{Quat, Transform, Vec3, UNIT};
use crate::store::{ComponentStore, Entity, EntityData};

verus! {

/// Time between two spawns of the game-play state: one second.
pub const SPAWN_PERIOD: u64 = 1_000_000;

/// Bound of each coordinate of a spawned object's position (3 units).
pub const SPAWN_EXTENT: i64 = 3_000_000;

/// Slowest speed of a spawned object (2 units per second).
pub const MIN_SPAWN_SPEED: i64 = 2_000_000;

/// Width of the range of spawn speeds (10 units per second).
pub const SPAWN_SPEED_RANGE: i64 = 10_000_000;

/// Updates of the loading state before it hands over to game play.
pub const LOADING_UPDATES: i32 = 5;

/// Updates of the pause state before it pops itself.
pub const PAUSE_UPDATES: i32 = 50;

/// What a state asks of the state machine after an update.
#[derive(Clone, Copy, Debug, PartialEq, Eq, Structural)]
pub enum StateTransition {
    Stay,
    SwitchToGamePlay,
    Pop,
}

/// Shape of the mesh that goes with a spawned object.
#[derive(Clone, Copy, Debug, PartialEq, Eq, Structural)]
pub enum MeshKind {
    Sphere,
    Cube,
}

/// Relies on rand's `thread_rng().gen_range(low, high)` (rand 0.7): a value
/// drawn from `[low, high)`; it panics when `low >= high`.
#[verifier::external_body]
fn random_in_range(low: i64, high: i64) -> (r: i64)
    requires
        low < high,
    ensures
        low <= r < high,
{
    rand::thread_rng().gen_range(low, high)
}

/// A spawned object: at `position`, moving vertically, sinking for a sphere
/// and rising for a cube, at `MIN_SPAWN_SPEED + draw`.
pub open spec fn moving_data(kind: MeshKind, position: Vec3, draw: i64) -> EntityData {
    EntityData {
        transform: Some(Transform { translation: position, rotation: Quat::spec_identity() }),
        motion: Some(
            Motion {
                speed: match kind {
                    MeshKind::Sphere => -(MIN_SPAWN_SPEED + draw),
                    MeshKind::Cube => MIN_SPAWN_SPEED + draw,
                } as i64,
            },
        ),
        ..EntityData::spec_empty()
    }
}

/// Adds a moving object at `position` whose speed beyond the minimum is `draw`.
pub fn spawn_moving(store: &mut ComponentStore, kind: MeshKind, position: Vec3, draw: i64) -> (r:
    Entity)
    requires
        old(store).wf(),
        0 <= draw < SPAWN_SPEED_RANGE,
    ensures
        final(store).wf(),
        r.index == old(store)@.len(),
        final(store)@ == old(store)@.push(Some(moving_data(kind, position, draw))),
{
    let speed = match kind {
        MeshKind::Sphere => -(MIN_SPAWN_SPEED + draw),
        MeshKind::Cube => MIN_SPAWN_SPEED + draw,
    };
    let mut data = EntityData::empty();
    data.transform = Some(Transform::from_translation(position));
    data.motion = Some(Motion::new(speed));
    // The store refuses only an area that is taken, and this entity has none.
    match store.spawn(data) {
        Ok(e) => e,
        Err(_) => Entity { index: 0 },
    }
}

/// Adds an object of `kind` at a random position within `SPAWN_EXTENT` of
/// the origin on each axis, with a random speed.
pub fn add_moving_entity(store: &mut ComponentStore, kind: MeshKind) -> (r: Entity)
    requires
        old(store).wf(),
    ensures
        final(store).wf(),
        r.index == old(store)@.len(),
        exists|position: Vec3, draw: i64|
            -SPAWN_EXTENT <= position.x < SPAWN_EXTENT && -SPAWN_EXTENT <= position.y
                < SPAWN_EXTENT && -SPAWN_EXTENT <= position.z < SPAWN_EXTENT && 0 <= draw
                < SPAWN_SPEED_RANGE && final(store)@ == old(store)@.push(
                Some(moving_data(kind, position, draw)),
            ),
{
    let x = random_in_range(-SPAWN_EXTENT, SPAWN_EXTENT);
    let y = random_in_range(-SPAWN_EXTENT, SPAWN_EXTENT);
    let z = random_in_range(-SPAWN_EXTENT, SPAWN_EXTENT);
    let draw = random_in_range(0, SPAWN_SPEED_RANGE);
    let position = Vec3::new(x, y, z);
    spawn_moving(store, kind, position, draw)
}

/// Adds a sinking sphere at a random position.
pub fn add_sphere_entity(store: &mut ComponentStore) -> (r: Entity)
    requires
        old(store).wf(),
    ensures
        final(store).wf(),
        r.index == old(store)@.len(),
        exists|position: Vec3, draw: i64|
            -SPAWN_EXTENT <= position.x < SPAWN_EXTENT && -SPAWN_EXTENT <= position.y
                < SPAWN_EXTENT && -SPAWN_EXTENT <= position.z < SPAWN_EXTENT && 0 <= draw
                < SPAWN_SPEED_RANGE && final(store)@ == old(store)@.push(
                Some(moving_data(MeshKind::Sphere, position, draw)),
            ),
{
    add_moving_entity(store, MeshKind::Sphere)
}

/// Adds a rising cube at a random position.
pub fn add_cube_entity(store: &mut ComponentStore) -> (r: Entity)
    requires
        old(store).wf(),
    ensures
        final(store).wf(),
        r.index == old(store)@.len(),
        exists|position: Vec3, draw: i64|
            -SPAWN_EXTENT <= position.x < SPAWN_EXTENT && -SPAWN_EXTENT <= position.y
                < SPAWN_EXTENT && -SPAWN_EXTENT <= position.z < SPAWN_EXTENT && 0 <= draw
                < SPAWN_SPEED_RANGE && final(store)@ == old(store)@.push(
                Some(moving_data(MeshKind::Cube, position, draw)),
            ),
{
    add_moving_entity(store, MeshKind::Cube)
}

/// Counts its updates and hands over to game play after `LOADING_UPDATES`.
#[derive(Clone, Copy, Debug, PartialEq, Eq, Structural)]
pub struct LoadingState {
    pub counter: i32,
}

pub open spec fn counted(counter: i32) -> i32 {
    if counter < i32::MAX {
        (counter + 1) as i32
    } else {
        i32::MAX
    }
}

impl LoadingState {
    pub fn new() -> (r: LoadingState)
        ensures
            r.counter == 0,
    {
        LoadingState { counter: 0 }
    }

    /// Adds the first sphere of the scene.
    pub fn on_start(&mut self, store: &mut ComponentStore) -> (r: Entity)
        requires
            old(store).wf(),
        ensures
            *final(self) == *old(self),
            final(store).wf(),
            r.index == old(store)@.len(),
            exists|position: Vec3, draw: i64|
                -SPAWN_EXTENT <= position.x < SPAWN_EXTENT && -SPAWN_EXTENT <= position.y
                    < SPAWN_EXTENT && -SPAWN_EXTENT <= position.z < SPAWN_EXTENT && 0 <= draw
                    < SPAWN_SPEED_RANGE && final(store)@ == old(store)@.push(
                    Some(moving_data(MeshKind::Sphere, position, draw)),
                ),
    {
        add_sphere_entity(store)
    }

    pub fn update(&mut self) -> (r: StateTransition)
        ensures
            final(self).counter == counted(old(self).counter),
            r == (if final(self).counter >= LOADING_UPDATES {
                StateTransition::SwitchToGamePlay
            } else {
                StateTransition::Stay
            }),
    {
        if self.counter < i32::MAX {
            self.counter = self.counter + 1;
        }
        if self.counter >= LOADING_UPDATES {
            StateTransition::SwitchToGamePlay
        } else {
            StateTransition::Stay
        }
    }
}

/// Counts its updates and pops itself after `PAUSE_UPDATES`.
#[derive(Clone, Copy, Debug, PartialEq, Eq, Structural)]
pub struct PauseState {
    pub counter: i32,
}

impl PauseState {
    pub fn new() -> (r: PauseState)
        ensures
            r.counter == 0,
    {
        PauseState { counter: 0 }
    }

    pub fn update(&mut self) -> (r: StateTransition)
        ensures
            final(self).counter == counted(old(self).counter),
            r == (if final(self).counter >= PAUSE_UPDATES {
                StateTransition::Pop
            } else {
                StateTransition::Stay
            }),
    {
        if self.counter < i32::MAX {
            self.counter = self.counter + 1;
        }
        if self.counter >= PAUSE_UPDATES {
            StateTransition::Pop
        } else {
            StateTransition::Stay
        }
    }
}

/// Spawns an object every `SPAWN_PERIOD`, alternating spheres and cubes,
/// starting with a sphere.
#[derive(Clone, Copy, Debug, PartialEq, Eq, Structural)]
pub struct GamePlayState {
    pub spawn_timer: PeriodicTimer,
    pub last_added_mesh_type: bool,
}

impl GamePlayState {
    pub open spec fn next_kind(self) -> MeshKind {
        if self.last_added_mesh_type {
            MeshKind::Cube
        } else {
            MeshKind::Sphere
        }
    }

    pub fn new() -> (r: GamePlayState)
        ensures
            r.spawn_timer == (PeriodicTimer { accumulated: 0, period: SPAWN_PERIOD }),
            !r.last_added_mesh_type,
    {
        GamePlayState { spawn_timer: PeriodicTimer::new(SPAWN_PERIOD), last_added_mesh_type: false }
    }

    /// Advances the spawn timer by `dt`; when it fires, adds the next kind
    /// of object and returns it.
    pub fn update(&mut self, store: &mut ComponentStore, dt: u64) -> (r: Option<(Entity, MeshKind)>)
        requires
            old(store).wf(),
        ensures
            final(store).wf(),
            final(self).spawn_timer == old(self).spawn_timer.after_tick(dt).0,
            r is Some <==> old(self).spawn_timer.after_tick(dt).1,
            r is None ==> final(store)@ == old(store)@ && final(self).last_added_mesh_type
                == old(self).last_added_mesh_type,
            r matches Some(spawned) ==> {
                &&& spawned.0.index == old(store)@.len()
                &&& spawned.1 == old(self).next_kind()
                &&& final(self).last_added_mesh_type == !old(self).last_added_mesh_type
                &&& exists|position: Vec3, draw: i64|
                    -SPAWN_EXTENT <= position.x < SPAWN_EXTENT && -SPAWN_EXTENT <= position.y
                        < SPAWN_EXTENT && -SPAWN_EXTENT <= position.z < SPAWN_EXTENT && 0 <= draw
                        < SPAWN_SPEED_RANGE && final(store)@ == old(store)@.push(
                        Some(moving_data(old(self).next_kind(), position, draw)),
                    )
            },
    {
        if !self.spawn_timer.tick(dt) {
            return None;
        }
        let kind = if self.last_added_mesh_type {
            MeshKind::Cube
        } else {
            MeshKind::Sphere
        };
        let e = add_moving_entity(store, kind);
        self.last_added_mesh_type = !self.last_added_mesh_type;
        Some((e, kind))
    }
}

} // verus!
