use vstd::prelude::*;

use crate::geometry::Vec3;
use crate::registry::{BodyHandle, OverlapEvent};

verus! {

/// Time a zone stays active after a body enters it: two seconds, in microseconds.
pub const ACTIVATION_DURATION: i64 = 2_000_000;

/// A one-shot request to push the entity's body, consumed by the impulse sweep.
#[derive(Clone, Copy, Debug, PartialEq, Eq, Structural)]
pub struct PhysicalImpulse {
    pub impulse: Vec3,
}

impl PhysicalImpulse {
    pub fn new(impulse: Vec3) -> (r: PhysicalImpulse)
        ensures
            r.impulse == impulse,
    {
        PhysicalImpulse { impulse }
    }
}

/// Marks a dynamic body as a projectile, deleted when it enters a safe zone.
#[derive(Clone, Copy, Debug, PartialEq, Eq, Structural)]
pub struct Bullet {}

impl Default for Bullet {
    fn default() -> (r: Bullet)
        ensures
            r == (Bullet {}),
    {
        Bullet {  }
    }
}

/// Vertical speed of a falling or rising object, in millionths of a unit per second.
#[derive(Clone, Copy, Debug, PartialEq, Eq, Structural)]
pub struct Motion {
    pub speed: i64,
}

impl Motion {
    pub fn new(speed: i64) -> (r: Motion)
        ensures
            r.speed == speed,
    {
        Motion { speed }
    }
}

/// Which of the two zone materials is shown.
#[derive(Clone, Copy, Debug, PartialEq, Eq, Structural)]
pub enum ZoneMaterial {
    Idle,
    Active,
}

/// The two materials of a safe zone, of whatever type the renderer uses.
pub struct SafeZoneAssets<M> {
    pub idle: M,
    pub active: M,
}

impl<M> SafeZoneAssets<M> {
    pub fn select(&self, material: ZoneMaterial) -> (r: &M)
        ensures
            r == (match material {
                ZoneMaterial::Idle => &self.idle,
                ZoneMaterial::Active => &self.active,
            }),
    {
        match material {
            ZoneMaterial::Idle => &self.idle,
            ZoneMaterial::Active => &self.active,
        }
    }
}

/// State of a safe zone.
///
/// Every `Enter` resets the timer to `ACTIVATION_DURATION`; every tick then
/// takes the elapsed time off it, so it may run below zero (it stops at
/// `i64::MIN`). The zone is active while the timer is positive.
/// `overlap_count` counts the bodies inside: `Enter` adds one, `Exit` takes
/// one off and never goes below zero; it does not hold the timer.
#[derive(Clone, Copy, Debug, PartialEq, Eq, Structural)]
pub struct SafeZone {
    pub overlap_count: u32,
    pub activation_timer: i64,
}

pub open spec fn clamp_i64(v: int) -> i64 {
    if v < i64::MIN {
        i64::MIN
    } else if v > i64::MAX {
        i64::MAX
    } else {
        v as i64
    }
}

/// The bodies of the `Enter` events of `events`, in order.
pub open spec fn entered_bodies(events: Seq<OverlapEvent>) -> Seq<BodyHandle>
    decreases events.len(),
{
    if events.len() == 0 {
        Seq::empty()
    } else {
        let rest = entered_bodies(events.drop_last());
        match events.last() {
            OverlapEvent::Enter(b) => rest.push(b),
            OverlapEvent::Exit(_) => rest,
        }
    }
}

impl SafeZone {
    pub open spec fn is_active(self) -> bool {
        self.activation_timer > 0
    }

    pub open spec fn after_event(self, e: OverlapEvent) -> SafeZone {
        match e {
            OverlapEvent::Enter(_) => SafeZone {
                overlap_count: if self.overlap_count < u32::MAX {
                    (self.overlap_count + 1) as u32
                } else {
                    u32::MAX
                },
                activation_timer: ACTIVATION_DURATION,
            },
            OverlapEvent::Exit(_) => SafeZone {
                overlap_count: if self.overlap_count > 0 {
                    (self.overlap_count - 1) as u32
                } else {
                    0
                },
                activation_timer: self.activation_timer,
            },
        }
    }

    pub open spec fn after_events(self, events: Seq<OverlapEvent>) -> SafeZone
        decreases events.len(),
    {
        if events.len() == 0 {
            self
        } else {
            self.after_events(events.drop_last()).after_event(events.last())
        }
    }

    pub open spec fn decayed(self, dt: u64) -> SafeZone {
        SafeZone { activation_timer: clamp_i64(self.activation_timer - dt), ..self }
    }

    /// One tick: the events of the tick in order, then the elapsed time.
    pub open spec fn step(self, events: Seq<OverlapEvent>, dt: u64) -> SafeZone {
        self.after_events(events).decayed(dt)
    }

    /// Ticks in order, each with its events and the same elapsed time.
    pub open spec fn run(self, ticks: Seq<Seq<OverlapEvent>>, dt: u64) -> SafeZone
        decreases ticks.len(),
    {
        if ticks.len() == 0 {
            self
        } else {
            self.run(ticks.drop_last(), dt).step(ticks.last(), dt)
        }
    }

    pub open spec fn spec_material(self) -> ZoneMaterial {
        if self.is_active() {
            ZoneMaterial::Active
        } else {
            ZoneMaterial::Idle
        }
    }

    pub fn material(&self) -> (r: ZoneMaterial)
        ensures
            r == self.spec_material(),
    {
        if self.activation_timer > 0 {
            ZoneMaterial::Active
        } else {
            ZoneMaterial::Idle
        }
    }

    pub fn apply_event(&mut self, e: OverlapEvent)
        ensures
            *final(self) == old(self).after_event(e),
    {
        match e {
            OverlapEvent::Enter(_) => {
                if self.overlap_count < u32::MAX {
                    self.overlap_count = self.overlap_count + 1;
                }
                self.activation_timer = ACTIVATION_DURATION;
            },
            OverlapEvent::Exit(_) => {
                if self.overlap_count > 0 {
                    self.overlap_count = self.overlap_count - 1;
                }
            },
        }
    }

    pub fn decay(&mut self, dt: u64)
        ensures
            *final(self) == old(self).decayed(dt),
    {
        let t = self.activation_timer as i128 - dt as i128;
        if t < i64::MIN as i128 {
            self.activation_timer = i64::MIN;
        } else {
            self.activation_timer = t as i64;
        }
    }

    /// Processes one tick of the zone and returns the bodies that entered it
    /// during the tick.
    pub fn tick(&mut self, events: &Vec<OverlapEvent>, dt: u64) -> (entered: Vec<BodyHandle>)
        ensures
            *final(self) == old(self).step(events@, dt),
            entered@ == entered_bodies(events@),
    {
        let mut entered: Vec<BodyHandle> = Vec::new();
        let mut i: usize = 0;
        while i < events.len()
            invariant
                i <= events@.len(),
                *self == old(self).after_events(events@.take(i as int)),
                entered@ == entered_bodies(events@.take(i as int)),
            decreases events@.len() - i,
        {
            let e = events[i];
            proof {
                assert(events@.take(i + 1).drop_last() =~= events@.take(i as int));
            }
            self.apply_event(e);
            match e {
                OverlapEvent::Enter(b) => entered.push(b),
                OverlapEvent::Exit(_) => {},
            }
            i = i + 1;
        }
        assert(events@.take(i as int) =~= events@);
        self.decay(dt);
        entered
    }
}

impl Default for SafeZone {
    fn default() -> (r: SafeZone)
        ensures
            r == (SafeZone { overlap_count: 0, activation_timer: 0 }),
    {
        SafeZone { overlap_count: 0, activation_timer: 0 }
    }
}

/// An `Enter` resets the activation timer to the activation duration,
/// whatever it held before; within a tick, once any `Enter` has been seen the
/// timer holds that duration until the tick's elapsed time is taken off.
pub proof fn lemma_enter_resets_timer(z: SafeZone, events: Seq<OverlapEvent>, b: BodyHandle)
    requires
        exists|i: int| 0 <= i < events.len() && events[i] is Enter,
    ensures
        z.after_event(OverlapEvent::Enter(b)).activation_timer == ACTIVATION_DURATION,
        z.after_events(events).activation_timer == ACTIVATION_DURATION,
    decreases events.len(),
{
    let last = events.last();
    if last is Enter {
    } else {
        let i = choose|i: int| 0 <= i < events.len() && events[i] is Enter;
        let prefix = events.drop_last();
        assert(prefix[i] == events[i]);
        lemma_enter_resets_timer(z, prefix, b);
    }
}

/// Events that are all `Exit` leave the activation timer as it was.
pub proof fn lemma_exits_keep_timer(z: SafeZone, events: Seq<OverlapEvent>)
    requires
        forall|i: int| 0 <= i < events.len() ==> events[i] is Exit,
    ensures
        z.after_events(events).activation_timer == z.activation_timer,
    decreases events.len(),
{
    if events.len() > 0 {
        let prefix = events.drop_last();
        assert forall|i: int| 0 <= i < prefix.len() implies prefix[i] is Exit by {
            assert(prefix[i] == events[i]);
        }
        lemma_exits_keep_timer(z, prefix);
    }
}

/// With no `Enter` during `n` ticks of `dt` each, the activation timer falls
/// by exactly `n * dt` (as long as it does not reach `i64::MIN`).
pub proof fn lemma_timer_decays_without_enter(
    z: SafeZone,
    ticks: Seq<Seq<OverlapEvent>>,
    dt: u64,
)
    requires
        forall|i: int, j: int|
            0 <= i < ticks.len() && 0 <= j < ticks[i].len() ==> ticks[i][j] is Exit,
        z.activation_timer - ticks.len() * dt >= i64::MIN,
    ensures
        z.run(ticks, dt).activation_timer == z.activation_timer - ticks.len() * dt,
    decreases ticks.len(),
{
    if ticks.len() > 0 {
        let prefix = ticks.drop_last();
        assert forall|i: int, j: int|
            0 <= i < prefix.len() && 0 <= j < prefix[i].len() implies prefix[i][j] is Exit by {
            assert(prefix[i] == ticks[i]);
        }
        assert(z.activation_timer - prefix.len() * dt >= i64::MIN) by (nonlinear_arith)
            requires
                z.activation_timer - ticks.len() * dt >= i64::MIN,
                prefix.len() == ticks.len() - 1,
        ;
        lemma_timer_decays_without_enter(z, prefix, dt);
        let last = ticks.last();
        assert forall|j: int| 0 <= j < last.len() implies last[j] is Exit by {
            assert(last[j] == ticks[ticks.len() - 1][j]);
        }
        lemma_exits_keep_timer(z.run(prefix, dt), last);
        assert(z.activation_timer - prefix.len() * dt - dt == z.activation_timer - ticks.len() * dt)
            by (nonlinear_arith)
            requires
                prefix.len() == ticks.len() - 1,
        ;
    }
}

} // verus!
