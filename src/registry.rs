use vstd::prelude::*;

use crate::geometry::{ShapeDescriptor, Transform, Vec3};

verus! {

/// Index of a registered shape.
#[derive(Clone, Copy, Debug, PartialEq, Eq, Structural)]
pub struct ShapeHandle {
    pub index: usize,
}

/// Index of a registered rigid body.
#[derive(Clone, Copy, Debug, PartialEq, Eq, Structural)]
pub struct BodyHandle {
    pub index: usize,
}

/// Index of a registered collision area.
#[derive(Clone, Copy, Debug, PartialEq, Eq, Structural)]
pub struct AreaHandle {
    pub index: usize,
}

/// Index of a simulation world.
#[derive(Clone, Copy, Debug, PartialEq, Eq, Structural)]
pub struct WorldHandle {
    pub index: usize,
}

#[derive(Clone, Copy, Debug, PartialEq, Eq, Structural)]
pub enum BodyMode {
    Static,
    Dynamic,
}

#[derive(Clone, Copy, Debug, PartialEq, Eq, Structural)]
pub struct RigidBodyDescriptor {
    pub mode: BodyMode,
    pub transform: Transform,
    pub mass: i64,
    pub shape: ShapeHandle,
}

#[derive(Clone, Copy, Debug, PartialEq, Eq, Structural)]
pub struct AreaDescriptor {
    pub shape: ShapeHandle,
    pub transform: Transform,
}

/// What the registry keeps of a body; a deleted body keeps its slot, so that
/// its handle is never handed out again.
#[derive(Clone, Copy, Debug, PartialEq, Eq, Structural)]
pub struct BodyRecord {
    pub world: WorldHandle,
    pub desc: RigidBodyDescriptor,
    pub alive: bool,
}

#[derive(Clone, Copy, Debug, PartialEq, Eq, Structural)]
pub struct AreaRecord {
    pub world: WorldHandle,
    pub desc: AreaDescriptor,
}

/// A body starting or ceasing to overlap an area.
#[derive(Clone, Copy, Debug, PartialEq, Eq, Structural)]
pub enum OverlapEvent {
    Enter(BodyHandle),
    Exit(BodyHandle),
}

impl OverlapEvent {
    pub open spec fn body(self) -> BodyHandle {
        match self {
            OverlapEvent::Enter(b) => b,
            OverlapEvent::Exit(b) => b,
        }
    }
}

#[derive(Clone, Copy, Debug, PartialEq, Eq, Structural)]
pub enum PhysicsError {
    /// A shape has a dimension that is not strictly positive.
    InvalidGeometry,
    /// A handle names nothing that the registry holds (never created, or deleted).
    UnknownHandle,
}

/// The mathematical content of a `PhysicsRegistry`.
pub struct RegistryModel {
    pub worlds: nat,
    pub shapes: Seq<ShapeDescriptor>,
    pub bodies: Seq<BodyRecord>,
    pub areas: Seq<AreaRecord>,
    /// Overlap events waiting for each area, in the order they were recorded.
    pub inboxes: Seq<Seq<OverlapEvent>>,
    /// Impulses applied since the engine last took them, in order.
    pub impulses: Seq<(BodyHandle, Vec3)>,
}

impl RegistryModel {
    pub open spec fn has_world(self, w: WorldHandle) -> bool {
        w.index < self.worlds
    }

    pub open spec fn has_shape(self, s: ShapeHandle) -> bool {
        s.index < self.shapes.len()
    }

    pub open spec fn has_body(self, b: BodyHandle) -> bool {
        b.index < self.bodies.len() && self.bodies[b.index as int].alive
    }

    pub open spec fn has_area(self, a: AreaHandle) -> bool {
        a.index < self.areas.len()
    }

    pub open spec fn inbox(self, a: AreaHandle) -> Seq<OverlapEvent> {
        self.inboxes[a.index as int]
    }

    /// The registry once the events waiting for `a` have been handed out.
    pub open spec fn drained(self, a: AreaHandle) -> RegistryModel {
        RegistryModel { inboxes: self.inboxes.update(a.index as int, Seq::empty()), ..self }
    }

    /// The registry once `e` has been recorded for `a`.
    pub open spec fn recorded(self, a: AreaHandle, e: OverlapEvent) -> RegistryModel {
        RegistryModel { inboxes: self.inboxes.update(a.index as int, self.inbox(a).push(e)), ..self }
    }

    /// The registry once body `b` has been deleted.
    pub open spec fn without_body(self, b: BodyHandle) -> RegistryModel {
        RegistryModel {
            bodies: self.bodies.update(
                b.index as int,
                BodyRecord { alive: false, ..self.bodies[b.index as int] },
            ),
            ..self
        }
    }
}

/// Owner of every shape, body and area, addressed by handles.
pub struct PhysicsRegistry {
    worlds: usize,
    shapes: Vec<ShapeDescriptor>,
    bodies: Vec<BodyRecord>,
    areas: Vec<AreaRecord>,
    inboxes: Vec<Vec<OverlapEvent>>,
    impulses: Vec<(BodyHandle, Vec3)>,
}

impl View for PhysicsRegistry {
    type V = RegistryModel;

    closed spec fn view(&self) -> RegistryModel {
        RegistryModel {
            worlds: self.worlds as nat,
            shapes: self.shapes@,
            bodies: self.bodies@,
            areas: self.areas@,
            inboxes: self.inboxes@.map_values(|v: Vec<OverlapEvent>| v@),
            impulses: self.impulses@,
        }
    }
}

impl PhysicsRegistry {
    /// One inbox per area.
    pub closed spec fn wf(&self) -> bool {
        self.inboxes@.len() == self.areas@.len()
    }

    pub proof fn lemma_wf(&self)
        requires
            self.wf(),
        ensures
            self@.inboxes.len() == self@.areas.len(),
    {
    }

    pub fn new() -> (r: PhysicsRegistry)
        ensures
            r.wf(),
            r@.worlds == 0,
            r@.shapes == Seq::<ShapeDescriptor>::empty(),
            r@.bodies == Seq::<BodyRecord>::empty(),
            r@.areas == Seq::<AreaRecord>::empty(),
            r@.inboxes == Seq::<Seq<OverlapEvent>>::empty(),
            r@.impulses == Seq::<(BodyHandle, Vec3)>::empty(),
    {
        let r = PhysicsRegistry {
            worlds: 0,
            shapes: Vec::new(),
            bodies: Vec::new(),
            areas: Vec::new(),
            inboxes: Vec::new(),
            impulses: Vec::new(),
        };
        assert(r@.inboxes =~= Seq::<Seq<OverlapEvent>>::empty());
        r
    }

    pub fn world_count(&self) -> (r: usize)
        ensures
            r == self@.worlds,
    {
        self.worlds
    }

    pub fn create_world(&mut self) -> (r: WorldHandle)
        requires
            old(self).wf(),
            old(self)@.worlds < usize::MAX,
        ensures
            final(self).wf(),
            r.index == old(self)@.worlds,
            final(self)@ == (RegistryModel { worlds: old(self)@.worlds + 1, ..old(self)@ }),
    {
        let r = WorldHandle { index: self.worlds };
        self.worlds = self.worlds + 1;
        r
    }

    pub fn create_shape(&mut self, desc: ShapeDescriptor) -> (r: Result<ShapeHandle, PhysicsError>)
        requires
            old(self).wf(),
        ensures
            final(self).wf(),
            r is Ok <==> desc.well_formed(),
            r is Err ==> r->Err_0 == PhysicsError::InvalidGeometry && final(self)@ == old(self)@,
            r is Ok ==> r->Ok_0.index == old(self)@.shapes.len() && final(self)@ == (RegistryModel {
                shapes: old(self)@.shapes.push(desc),
                ..old(self)@
            }),
    {
        if !desc.is_well_formed() {
            return Err(PhysicsError::InvalidGeometry);
        }
        let h = ShapeHandle { index: self.shapes.len() };
        self.shapes.push(desc);
        Ok(h)
    }

    /// Replaces the geometry behind `handle`; every body and area that uses
    /// the handle sees the new geometry.
    pub fn update_shape(&mut self, handle: ShapeHandle, desc: ShapeDescriptor) -> (r: Result<
        (),
        PhysicsError,
    >)
        requires
            old(self).wf(),
        ensures
            final(self).wf(),
            r is Ok <==> old(self)@.has_shape(handle) && desc.well_formed(),
            !old(self)@.has_shape(handle) ==> r == Err::<(), PhysicsError>(
                PhysicsError::UnknownHandle,
            ),
            old(self)@.has_shape(handle) && !desc.well_formed() ==> r == Err::<(), PhysicsError>(
                PhysicsError::InvalidGeometry,
            ),
            r is Err ==> final(self)@ == old(self)@,
            r is Ok ==> final(self)@ == (RegistryModel {
                shapes: old(self)@.shapes.update(handle.index as int, desc),
                ..old(self)@
            }),
    {
        if handle.index >= self.shapes.len() {
            return Err(PhysicsError::UnknownHandle);
        }
        if !desc.is_well_formed() {
            return Err(PhysicsError::InvalidGeometry);
        }
        self.shapes.set(handle.index, desc);
        Ok(())
    }

    pub fn shape(&self, handle: ShapeHandle) -> (r: Option<ShapeDescriptor>)
        ensures
            r == (if self@.has_shape(handle) {
                Some(self@.shapes[handle.index as int])
            } else {
                None
            }),
    {
        if handle.index < self.shapes.len() {
            Some(self.shapes[handle.index])
        } else {
            None
        }
    }

    pub fn body_alive(&self, body: BodyHandle) -> (r: bool)
        ensures
            r == self@.has_body(body),
    {
        body.index < self.bodies.len() && self.bodies[body.index].alive
    }

    /// Registers a rigid body in `world`; static bodies never move, dynamic
    /// ones are integrated by the engine.
    pub fn create_body(&mut self, world: WorldHandle, desc: RigidBodyDescriptor) -> (r: Result<
        BodyHandle,
        PhysicsError,
    >)
        requires
            old(self).wf(),
        ensures
            final(self).wf(),
            r is Ok <==> old(self)@.has_world(world) && old(self)@.has_shape(desc.shape),
            r is Err ==> r->Err_0 == PhysicsError::UnknownHandle && final(self)@ == old(self)@,
            r is Ok ==> r->Ok_0.index == old(self)@.bodies.len() && final(self)@ == (RegistryModel {
                bodies: old(self)@.bodies.push(BodyRecord { world, desc, alive: true }),
                ..old(self)@
            }),
    {
        if world.index >= self.worlds || desc.shape.index >= self.shapes.len() {
            return Err(PhysicsError::UnknownHandle);
        }
        let h = BodyHandle { index: self.bodies.len() };
        self.bodies.push(BodyRecord { world, desc, alive: true });
        Ok(h)
    }

    /// Registers a trigger volume in `world`: it reports overlaps and exerts
    /// no force. Its inbox starts empty.
    pub fn create_area(&mut self, world: WorldHandle, desc: AreaDescriptor) -> (r: Result<
        AreaHandle,
        PhysicsError,
    >)
        requires
            old(self).wf(),
        ensures
            final(self).wf(),
            r is Ok <==> old(self)@.has_world(world) && old(self)@.has_shape(desc.shape),
            r is Err ==> r->Err_0 == PhysicsError::UnknownHandle && final(self)@ == old(self)@,
            r is Ok ==> r->Ok_0.index == old(self)@.areas.len() && final(self)@ == (RegistryModel {
                areas: old(self)@.areas.push(AreaRecord { world, desc }),
                inboxes: old(self)@.inboxes.push(Seq::empty()),
                ..old(self)@
            }),
    {
        if world.index >= self.worlds || desc.shape.index >= self.shapes.len() {
            return Err(PhysicsError::UnknownHandle);
        }
        let h = AreaHandle { index: self.areas.len() };
        self.areas.push(AreaRecord { world, desc });
        self.inboxes.push(Vec::new());
        assert(self@.inboxes =~= old(self)@.inboxes.push(Seq::empty()));
        Ok(h)
    }

    /// Adds an instantaneous velocity change to a live body.
    pub fn apply_impulse(&mut self, body: BodyHandle, impulse: Vec3) -> (r: Result<(), PhysicsError>)
        requires
            old(self).wf(),
        ensures
            final(self).wf(),
            r is Ok <==> old(self)@.has_body(body),
            r is Err ==> r->Err_0 == PhysicsError::UnknownHandle && final(self)@ == old(self)@,
            r is Ok ==> final(self)@ == (RegistryModel {
                impulses: old(self)@.impulses.push((body, impulse)),
                ..old(self)@
            }),
    {
        if !self.body_alive(body) {
            return Err(PhysicsError::UnknownHandle);
        }
        self.impulses.push((body, impulse));
        Ok(())
    }

    /// Hands the engine every impulse applied since the last call, in order,
    /// and forgets them.
    pub fn take_applied_impulses(&mut self) -> (r: Vec<(BodyHandle, Vec3)>)
        requires
            old(self).wf(),
        ensures
            final(self).wf(),
            r@ == old(self)@.impulses,
            final(self)@ == (RegistryModel { impulses: Seq::empty(), ..old(self)@ }),
    {
        let mut taken: Vec<(BodyHandle, Vec3)> = Vec::new();
        std::mem::swap(&mut taken, &mut self.impulses);
        assert(self@.impulses =~= Seq::<(BodyHandle, Vec3)>::empty());
        taken
    }

    /// Removes a live body: it produces no overlap from now on, and its
    /// handle is never reused.
    pub fn delete_body(&mut self, body: BodyHandle) -> (r: Result<(), PhysicsError>)
        requires
            old(self).wf(),
        ensures
            final(self).wf(),
            r is Ok <==> old(self)@.has_body(body),
            r is Err ==> r->Err_0 == PhysicsError::UnknownHandle && final(self)@ == old(self)@,
            r is Ok ==> final(self)@ == old(self)@.without_body(body),
    {
        if !self.body_alive(body) {
            return Err(PhysicsError::UnknownHandle);
        }
        let rec = self.bodies[body.index];
        self.bodies.set(body.index, BodyRecord { alive: false, ..rec });
        Ok(())
    }

    /// Records, on the engine's behalf, that a live body entered or left an area.
    pub fn record_overlap(&mut self, area: AreaHandle, event: OverlapEvent) -> (r: Result<
        (),
        PhysicsError,
    >)
        requires
            old(self).wf(),
        ensures
            final(self).wf(),
            r is Ok <==> old(self)@.has_area(area) && old(self)@.has_body(event.body()),
            r is Err ==> r->Err_0 == PhysicsError::UnknownHandle && final(self)@ == old(self)@,
            r is Ok ==> final(self)@ == old(self)@.recorded(area, event),
    {
        let body = match event {
            OverlapEvent::Enter(b) => b,
            OverlapEvent::Exit(b) => b,
        };
        if area.index >= self.areas.len() || !self.body_alive(body) {
            return Err(PhysicsError::UnknownHandle);
        }
        let mut inbox: Vec<OverlapEvent> = Vec::new();
        std::mem::swap(&mut inbox, &mut self.inboxes[area.index]);
        inbox.push(event);
        self.inboxes.set(area.index, inbox);
        assert(self@.inboxes =~= old(self)@.recorded(area, event).inboxes);
        Ok(())
    }

    /// Hands out the events recorded for `area` since the last call and
    /// forgets them, so that each event is delivered once.
    pub fn overlap_events(&mut self, area: AreaHandle) -> (r: Result<Vec<OverlapEvent>, PhysicsError>)
        requires
            old(self).wf(),
        ensures
            final(self).wf(),
            r is Ok <==> old(self)@.has_area(area),
            r is Err ==> r->Err_0 == PhysicsError::UnknownHandle && final(self)@ == old(self)@,
            r is Ok ==> r->Ok_0@ == old(self)@.inbox(area) && final(self)@ == old(self)@.drained(
                area,
            ),
    {
        if area.index >= self.areas.len() {
            return Err(PhysicsError::UnknownHandle);
        }
        let mut events: Vec<OverlapEvent> = Vec::new();
        std::mem::swap(&mut events, &mut self.inboxes[area.index]);
        assert(self@.inboxes =~= old(self)@.drained(area).inboxes);
        Ok(events)
    }
}

/// Overlap events are delivered once: after an event is recorded for an
/// area, the first drain of that area yields a non-empty sequence ending with
/// the event, and a second drain, with nothing recorded in between, yields
/// an empty one.
pub proof fn lemma_overlap_events_consumed_once(m: RegistryModel, area: AreaHandle, e: OverlapEvent)
    requires
        m.inboxes.len() == m.areas.len(),
        m.has_area(area),
    ensures
        m.recorded(area, e).has_area(area),
        m.recorded(area, e).inbox(area).len() > 0,
        m.recorded(area, e).inbox(area).last() == e,
        m.recorded(area, e).drained(area).has_area(area),
        m.recorded(area, e).drained(area).inbox(area).len() == 0,
        m.recorded(area, e).drained(area).drained(area) == m.recorded(area, e).drained(area),
{
    let m1 = m.recorded(area, e);
    let m2 = m1.drained(area);
    assert(m2.inboxes.update(area.index as int, Seq::empty()) =~= m2.inboxes);
}

} // verus!
