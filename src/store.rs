use vstd::prelude::*;

use crate::components::{Bullet, Motion, PhysicalImpulse, SafeZone};
use crate::geometry::Transform;
use crate::registry::{AreaHandle, BodyHandle, PhysicsError};

verus! {

/// Index of an entity in a `ComponentStore`.
#[derive(Clone, Copy, Debug, PartialEq, Eq, Structural)]
pub struct Entity {
    pub index: usize,
}

/// The components that an entity may carry.
#[derive(Clone, Copy, Debug, PartialEq, Eq, Structural)]
pub struct EntityData {
    pub transform: Option<Transform>,
    pub body: Option<BodyHandle>,
    pub impulse: Option<PhysicalImpulse>,
    pub bullet: Option<Bullet>,
    pub area: Option<AreaHandle>,
    pub safe_zone: Option<SafeZone>,
    pub motion: Option<Motion>,
}

impl EntityData {
    pub open spec fn spec_empty() -> EntityData {
        EntityData {
            transform: None,
            body: None,
            impulse: None,
            bullet: None,
            area: None,
            safe_zone: None,
            motion: None,
        }
    }

    /// An entity with no component.
    pub fn empty() -> (r: EntityData)
        ensures
            r == EntityData::spec_empty(),
    {
        EntityData {
            transform: None,
            body: None,
            impulse: None,
            bullet: None,
            area: None,
            safe_zone: None,
            motion: None,
        }
    }
}

#[derive(Clone, Copy, Debug, PartialEq, Eq, Structural)]
pub enum SceneError {
    Physics(PhysicsError),
    /// A shape that the scene needs was used before it was created.
    Uninitialized,
    /// The area already belongs to another entity.
    AreaInUse,
}

/// The area attached to entry `e`, if any.
pub open spec fn area_of(e: Option<EntityData>) -> Option<AreaHandle> {
    match e {
        Some(d) => d.area,
        None => None,
    }
}

pub open spec fn area_in_use(s: Seq<Option<EntityData>>, a: AreaHandle) -> bool {
    exists|i: int| 0 <= i < s.len() && area_of(s[i]) == Some(a)
}

/// No area is attached to two live entities.
pub open spec fn areas_distinct(s: Seq<Option<EntityData>>) -> bool {
    forall|i: int, j: int|
        0 <= i < s.len() && 0 <= j < s.len() && i != j && area_of(s[i]) is Some ==> area_of(s[i])
            != area_of(s[j])
}

/// Entities and their components; a deleted entity leaves an empty slot, so
/// that its index is never reused.
pub struct ComponentStore {
    entities: Vec<Option<EntityData>>,
}

impl View for ComponentStore {
    type V = Seq<Option<EntityData>>;

    closed spec fn view(&self) -> Seq<Option<EntityData>> {
        self.entities@
    }
}

impl ComponentStore {
    pub open spec fn wf(&self) -> bool {
        areas_distinct(self@)
    }

    pub fn new() -> (r: ComponentStore)
        ensures
            r.wf(),
            r@ == Seq::<Option<EntityData>>::empty(),
    {
        ComponentStore { entities: Vec::new() }
    }

    pub fn len(&self) -> (r: usize)
        ensures
            r == self@.len(),
    {
        self.entities.len()
    }

    /// The components of `e`, or `None` once it is deleted or if it never existed.
    pub fn get(&self, e: Entity) -> (r: Option<EntityData>)
        ensures
            r == (if e.index < self@.len() {
                self@[e.index as int]
            } else {
                None
            }),
    {
        if e.index < self.entities.len() {
            self.entities[e.index]
        } else {
            None
        }
    }

    fn area_used(&self, a: AreaHandle) -> (r: bool)
        ensures
            r == area_in_use(self@, a),
    {
        let mut i: usize = 0;
        while i < self.entities.len()
            invariant
                i <= self@.len(),
                forall|j: int| 0 <= j < i ==> area_of(self@[j]) != Some(a),
            decreases self@.len() - i,
        {
            let used = match self.entities[i] {
                Some(d) => match d.area {
                    Some(b) => b == a,
                    None => false,
                },
                None => false,
            };
            if used {
                return true;
            }
            i = i + 1;
        }
        false
    }

    /// Adds an entity; fails when its area already belongs to another entity.
    pub fn spawn(&mut self, data: EntityData) -> (r: Result<Entity, SceneError>)
        requires
            old(self).wf(),
        ensures
            final(self).wf(),
            r is Err <==> (data.area matches Some(a) && area_in_use(old(self)@, a)),
            r is Err ==> r->Err_0 == SceneError::AreaInUse && final(self)@ == old(self)@,
            r is Ok ==> r->Ok_0.index == old(self)@.len() && final(self)@ == old(self)@.push(
                Some(data),
            ),
    {
        match data.area {
            Some(a) => {
                if self.area_used(a) {
                    return Err(SceneError::AreaInUse);
                }
            },
            None => {},
        }
        let e = Entity { index: self.entities.len() };
        self.entities.push(Some(data));
        proof {
            let s = self@;
            assert forall|i: int, j: int|
                0 <= i < s.len() && 0 <= j < s.len() && i != j && area_of(s[i]) is Some implies area_of(
                s[i],
            ) != area_of(s[j]) by {
                if i < old(self)@.len() && j < old(self)@.len() {
                    assert(s[i] == old(self)@[i] && s[j] == old(self)@[j]);
                } else if i < old(self)@.len() {
                    assert(s[i] == old(self)@[i]);
                } else {
                    assert(s[j] == old(self)@[j]);
                }
            }
        }
        Ok(e)
    }

    /// Deletes `e` with all its components; returns whether it was alive.
    pub fn delete(&mut self, e: Entity) -> (r: bool)
        requires
            old(self).wf(),
        ensures
            final(self).wf(),
            r == (e.index < old(self)@.len() && old(self)@[e.index as int] is Some),
            final(self)@ == (if e.index < old(self)@.len() {
                old(self)@.update(e.index as int, None)
            } else {
                old(self)@
            }),
    {
        if e.index >= self.entities.len() {
            return false;
        }
        let alive = self.entities[e.index].is_some();
        self.set_entry(e.index, None);
        alive
    }

    /// Overwrites a slot with an entry that keeps the slot's area.
    pub(crate) fn set_entry(&mut self, index: usize, entry: Option<EntityData>)
        requires
            old(self).wf(),
            index < old(self)@.len(),
            area_of(entry) is None || area_of(entry) == area_of(old(self)@[index as int]),
        ensures
            final(self).wf(),
            final(self)@ == old(self)@.update(index as int, entry),
    {
        self.entities.set(index, entry);
        proof {
            let s = self@;
            assert forall|i: int, j: int|
                0 <= i < s.len() && 0 <= j < s.len() && i != j && area_of(s[i]) is Some implies area_of(
                s[i],
            ) != area_of(s[j]) by {
                if i != index && j != index {
                    assert(s[i] == old(self)@[i] && s[j] == old(self)@[j]);
                } else if i == index {
                    assert(s[j] == old(self)@[j]);
                } else {
                    assert(s[i] == old(self)@[i]);
                }
            }
        }
    }
}

} // verus!
