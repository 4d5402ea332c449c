use vstd::prelude::*;

use crate::components::{clamp_i64, entered_bodies};
use crate::geometry::{Transform, Vec3};
use crate::registry::{AreaHandle, BodyHandle, BodyRecord, PhysicsRegistry, RegistryModel};
use crate::store::{area_of, areas_distinct, ComponentStore, Entity, EntityData};

verus! {

/// The application that the sweep makes for entry `e`: its body and its
/// impulse, when it carries both and the body is live.
pub open spec fn impulse_request(e: Option<EntityData>, reg: RegistryModel) -> Option<
    (BodyHandle, Vec3),
> {
    match e {
        Some(d) => match (d.body, d.impulse) {
            (Some(b), Some(p)) => if reg.has_body(b) {
                Some((b, p.impulse))
            } else {
                None
            },
            _ => None,
        },
        None => None,
    }
}

/// The applications that the sweep makes over `s`, in entity order.
pub open spec fn impulse_requests(s: Seq<Option<EntityData>>, reg: RegistryModel) -> Seq<
    (BodyHandle, Vec3),
>
    decreases s.len(),
{
    if s.len() == 0 {
        Seq::empty()
    } else {
        let rest = impulse_requests(s.drop_last(), reg);
        match impulse_request(s.last(), reg) {
            Some(p) => rest.push(p),
            None => rest,
        }
    }
}

/// Entry `e` after the sweep: an entity with a body loses its impulse
/// request, live body or stale; any other entry is left alone.
pub open spec fn swept(e: Option<EntityData>) -> Option<EntityData> {
    match e {
        Some(d) => if d.body is Some {
            Some(EntityData { impulse: None, ..d })
        } else {
            Some(d)
        },
        None => None,
    }
}

/// Position, in the sweep's applications, of the one made for entity `i`.
pub open spec fn request_rank(s: Seq<Option<EntityData>>, reg: RegistryModel, i: int) -> nat {
    impulse_requests(s.take(i), reg).len()
}

/// Applies each pending impulse to its entity's body, once, and removes it.
pub struct ImpulseSystem {}

impl ImpulseSystem {
    pub fn new() -> (r: ImpulseSystem) {
        ImpulseSystem {  }
    }

    /// One sweep. Entities without a body keep their request; a request whose
    /// body is stale is dropped without an application.
    pub fn run(&mut self, store: &mut ComponentStore, registry: &mut PhysicsRegistry)
        requires
            old(store).wf(),
            old(registry).wf(),
        ensures
            final(store).wf(),
            final(registry).wf(),
            final(store)@.len() == old(store)@.len(),
            forall|i: int|
                0 <= i < old(store)@.len() ==> final(store)@[i] == swept(
                    #[trigger] old(store)@[i],
                ),
            final(registry)@ == (RegistryModel {
                impulses: old(registry)@.impulses + impulse_requests(old(store)@, old(registry)@),
                ..old(registry)@
            }),
    {
        let ghost s0 = store@;
        let ghost r0 = registry@;
        let n = store.len();
        let mut i: usize = 0;
        while i < n
            invariant
                n == s0.len(),
                i <= n,
                store.wf(),
                registry.wf(),
                store@.len() == n,
                forall|j: int| 0 <= j < i ==> store@[j] == swept(#[trigger] s0[j]),
                forall|j: int| i <= j < n ==> store@[j] == s0[j],
                registry@ == (RegistryModel {
                    impulses: r0.impulses + impulse_requests(s0.take(i as int), r0),
                    ..r0
                }),
            decreases n - i,
        {
            let entry = store.get(Entity { index: i });
            proof {
                assert(s0.take(i + 1).drop_last() =~= s0.take(i as int));
                assert(s0.take(i + 1).last() == s0[i as int]);
            }
            match entry {
                Some(d) => match d.body {
                    Some(b) => {
                        match d.impulse {
                            Some(p) => {
                                let _ = registry.apply_impulse(b, p.impulse);
                            },
                            None => {},
                        }
                        store.set_entry(i, Some(EntityData { impulse: None, ..d }));
                    },
                    None => {},
                },
                None => {},
            }
            proof {
                assert(registry@.impulses =~= r0.impulses + impulse_requests(
                    s0.take(i + 1),
                    r0,
                ));
            }
            i = i + 1;
        }
        assert(s0.take(n as int) =~= s0);
    }
}

/// The area of entry `e` when it is a safe zone (an area and a zone state)
/// whose area the registry knows.
pub open spec fn zone_area(e: Option<EntityData>, reg: RegistryModel) -> Option<AreaHandle> {
    match e {
        Some(d) => match (d.area, d.safe_zone) {
            (Some(a), Some(_)) => if reg.has_area(a) {
                Some(a)
            } else {
                None
            },
            _ => None,
        },
        None => None,
    }
}

/// Entry `e` after its zone has taken the events waiting for its area.
pub open spec fn zone_ticked(e: Option<EntityData>, reg: RegistryModel, dt: u64) -> Option<
    EntityData,
> {
    match e {
        Some(d) => match (d.area, d.safe_zone) {
            (Some(a), Some(z)) => if reg.has_area(a) {
                Some(EntityData { safe_zone: Some(z.step(reg.inbox(a), dt)), ..d })
            } else {
                e
            },
            _ => e,
        },
        None => None,
    }
}

/// Some zone among the first `bound` entries has area index `k`.
pub open spec fn zone_drains_before(
    s: Seq<Option<EntityData>>,
    reg: RegistryModel,
    bound: int,
    k: int,
) -> bool {
    exists|j: int|
        0 <= j < bound && (#[trigger] zone_area(s[j], reg) matches Some(a) && a.index == k)
}

/// Body `b` entered some zone among the first `bound` entries.
pub open spec fn entered_before(
    s: Seq<Option<EntityData>>,
    reg: RegistryModel,
    bound: int,
    b: BodyHandle,
) -> bool {
    exists|j: int|
        0 <= j < bound && (#[trigger] zone_area(s[j], reg) matches Some(a) && entered_bodies(
            reg.inbox(a),
        ).contains(b))
}

/// The bodies that entered some zone of `s` during the tick.
pub open spec fn overlapped(s: Seq<Option<EntityData>>, reg: RegistryModel) -> Set<BodyHandle> {
    Set::new(|b: BodyHandle| entered_before(s, reg, s.len() as int, b))
}

/// Entry `e` is a projectile whose body is among `hit`.
pub open spec fn culled(e: Option<EntityData>, hit: Set<BodyHandle>) -> bool {
    match e {
        Some(d) => d.bullet is Some && (d.body matches Some(b) && hit.contains(b)),
        None => false,
    }
}

/// Some projectile among the first `bound` entries is culled, and its body has index `k`.
pub open spec fn culls_body_before(
    s: Seq<Option<EntityData>>,
    hit: Set<BodyHandle>,
    bound: int,
    k: int,
) -> bool {
    exists|j: int|
        0 <= j < bound && #[trigger] culled(s[j], hit) && (s[j]->0.body matches Some(b) && b.index
            == k)
}

pub open spec fn deleted_record(r: BodyRecord) -> BodyRecord {
    BodyRecord { alive: false, ..r }
}

fn contains_body(v: &Vec<BodyHandle>, b: BodyHandle) -> (r: bool)
    ensures
        r == v@.contains(b),
{
    let mut i: usize = 0;
    while i < v.len()
        invariant
            i <= v@.len(),
            forall|j: int| 0 <= j < i ==> v@[j] != b,
        decreases v@.len() - i,
    {
        if v[i] == b {
            return true;
        }
        i = i + 1;
    }
    false
}

proof fn lemma_concat_contains<T>(x: Seq<T>, y: Seq<T>, v: T)
    ensures
        (x + y).contains(v) <==> x.contains(v) || y.contains(v),
{
    if x.contains(v) {
        let i = choose|i: int| 0 <= i < x.len() && x[i] == v;
        assert((x + y)[i] == v);
    }
    if y.contains(v) {
        let i = choose|i: int| 0 <= i < y.len() && y[i] == v;
        assert((x + y)[x.len() + i] == v);
    }
    if (x + y).contains(v) {
        let i = choose|i: int| 0 <= i < (x + y).len() && (x + y)[i] == v;
        if i < x.len() {
            assert(x[i] == v);
        } else {
            assert(y[i - x.len()] == v);
        }
    }
}

/// Runs every safe zone for one tick, then deletes the projectiles that
/// entered a zone during it.
pub struct SafeZoneSystem {}

impl SafeZoneSystem {
    pub fn new() -> (r: SafeZoneSystem) {
        SafeZoneSystem {  }
    }

    /// Each zone whose area the registry knows takes the events waiting for
    /// that area (which leaves the area's inbox empty) and the elapsed time
    /// `dt`. Then each entity carrying the projectile marker and a body that
    /// entered some zone during the tick is deleted, with its body. Nothing
    /// else changes.
    pub fn run(&mut self, store: &mut ComponentStore, registry: &mut PhysicsRegistry, dt: u64)
        requires
            old(store).wf(),
            old(registry).wf(),
        ensures
            final(store).wf(),
            final(registry).wf(),
            final(store)@.len() == old(store)@.len(),
            forall|i: int|
                0 <= i < old(store)@.len() ==> final(store)@[i] == (if culled(
                    #[trigger] old(store)@[i],
                    overlapped(old(store)@, old(registry)@),
                ) {
                    None
                } else {
                    zone_ticked(old(store)@[i], old(registry)@, dt)
                }),
            final(registry)@ == (RegistryModel {
                inboxes: final(registry)@.inboxes,
                bodies: final(registry)@.bodies,
                ..old(registry)@
            }),
            final(registry)@.inboxes.len() == old(registry)@.inboxes.len(),
            forall|k: int|
                0 <= k < old(registry)@.inboxes.len() ==> #[trigger] final(registry)@.inboxes[k]
                    == (if zone_drains_before(old(store)@, old(registry)@, old(store)@.len() as int, k) {
                    Seq::empty()
                } else {
                    old(registry)@.inboxes[k]
                }),
            final(registry)@.bodies.len() == old(registry)@.bodies.len(),
            forall|k: int|
                0 <= k < old(registry)@.bodies.len() ==> #[trigger] final(registry)@.bodies[k] == (
                if culls_body_before(
                    old(store)@,
                    overlapped(old(store)@, old(registry)@),
                    old(store)@.len() as int,
                    k,
                ) {
                    deleted_record(old(registry)@.bodies[k])
                } else {
                    old(registry)@.bodies[k]
                }),
    {
        let ghost s0 = store@;
        let ghost r0 = registry@;
        proof {
            registry.lemma_wf();
        }
        let n = store.len();
        let mut hit: Vec<BodyHandle> = Vec::new();
        let mut i: usize = 0;
        while i < n
            invariant
                n == s0.len(),
                i <= n,
                areas_distinct(s0),
                r0.inboxes.len() == r0.areas.len(),
                store.wf(),
                registry.wf(),
                store@.len() == n,
                forall|j: int| 0 <= j < i ==> store@[j] == zone_ticked(#[trigger] s0[j], r0, dt),
                forall|j: int| i <= j < n ==> store@[j] == s0[j],
                registry@ == (RegistryModel { inboxes: registry@.inboxes, ..r0 }),
                registry@.inboxes.len() == r0.inboxes.len(),
                forall|k: int|
                    0 <= k < r0.inboxes.len() ==> #[trigger] registry@.inboxes[k] == (
                    if zone_drains_before(s0, r0, i as int, k) {
                        Seq::empty()
                    } else {
                        r0.inboxes[k]
                    }),
                forall|b: BodyHandle| hit@.contains(b) <==> entered_before(s0, r0, i as int, b),
            decreases n - i,
        {
            let entry = store.get(Entity { index: i });
            let ghost hit_before = hit@;
            match entry {
                Some(d) => match (d.area, d.safe_zone) {
                    (Some(a), Some(z)) => {
                        proof {
                            assert forall|j: int| 0 <= j < i implies #[trigger] zone_area(s0[j], r0)
                                != Some(a) by {
                                assert(area_of(s0[j]) != area_of(s0[i as int]));
                            }
                            if a.index < r0.areas.len() {
                                assert(!zone_drains_before(s0, r0, i as int, a.index as int));
                                assert(registry@.inboxes[a.index as int] == r0.inboxes[a.index as int]);
                            }
                        }
                        match registry.overlap_events(a) {
                            Ok(events) => {
                                let mut zone = z;
                                let mut entered = zone.tick(&events, dt);
                                store.set_entry(i, Some(EntityData { safe_zone: Some(zone), ..d }));
                                hit.append(&mut entered);
                                proof {
                                    let ent = entered_bodies(r0.inbox(a));
                                    assert(hit@ == hit_before + ent);
                                    assert(zone_area(s0[i as int], r0) == Some(a));
                                    assert forall|b: BodyHandle|
                                        hit@.contains(b) <==> entered_before(s0, r0, i + 1, b) by {
                                        lemma_concat_contains(hit_before, ent, b);
                                        if entered_before(s0, r0, i + 1, b) && !entered_before(
                                            s0,
                                            r0,
                                            i as int,
                                            b,
                                        ) {
                                            let j = choose|j: int|
                                                0 <= j < i + 1 && (#[trigger] zone_area(s0[j], r0) matches Some(
                                                    c,
                                                ) && entered_bodies(r0.inbox(c)).contains(b));
                                            assert(j == i);
                                        }
                                        if entered_before(s0, r0, i as int, b) {
                                            let j = choose|j: int|
                                                0 <= j < i && (#[trigger] zone_area(s0[j], r0) matches Some(
                                                    c,
                                                ) && entered_bodies(r0.inbox(c)).contains(b));
                                            assert(entered_before(s0, r0, i + 1, b));
                                        }
                                        if ent.contains(b) {
                                            assert(entered_before(s0, r0, i + 1, b));
                                        }
                                    }
                                }
                            },
                            Err(_) => {
                            },
                        }
                    },
                    _ => {},
                },
                None => {},
            }
            proof {
                assert forall|k: int|
                    0 <= k < r0.inboxes.len() implies #[trigger] registry@.inboxes[k] == (
                    if zone_drains_before(s0, r0, i + 1, k) {
                        Seq::empty()
                    } else {
                        r0.inboxes[k]
                    }) by {
                    if zone_area(s0[i as int], r0) matches Some(a) && a.index == k {
                    } else {
                        if zone_drains_before(s0, r0, i + 1, k) {
                            let j = choose|j: int|
                                0 <= j < i + 1 && (#[trigger] zone_area(s0[j], r0) matches Some(a)
                                    && a.index == k);
                            assert(zone_drains_before(s0, r0, i as int, k));
                        }
                    }
                }
                assert forall|b: BodyHandle| hit@.contains(b) <==> entered_before(s0, r0, i + 1, b) by {
                    if zone_area(s0[i as int], r0) is None {
                        if entered_before(s0, r0, i + 1, b) {
                            let j = choose|j: int| 0 <= j < i + 1 && (#[trigger] zone_area(s0[j], r0) matches Some(a) && entered_bodies(r0.inbox(a)).contains(b));
                            assert(entered_before(s0, r0, i as int, b));
                        }
                    }
                }
            }
            i = i + 1;
        }
        let ghost s1 = store@;
        let ghost r1 = registry@;
        let ghost h = overlapped(s0, r0);
        proof {
            assert forall|b: BodyHandle| hit@.contains(b) <==> h.contains(b) by {}
        }
        let mut i: usize = 0;
        while i < n
            invariant
                n == s0.len(),
                i <= n,
                s1.len() == n,
                forall|j: int| 0 <= j < n ==> s1[j] == zone_ticked(#[trigger] s0[j], r0, dt),
                forall|b: BodyHandle| hit@.contains(b) <==> h.contains(b),
                store.wf(),
                registry.wf(),
                store@.len() == n,
                forall|j: int| 0 <= j < i ==> store@[j] == (if culled(#[trigger] s0[j], h) {
                    None
                } else {
                    s1[j]
                }),
                forall|j: int| i <= j < n ==> store@[j] == s1[j],
                registry@ == (RegistryModel { bodies: registry@.bodies, ..r1 }),
                r1.bodies == r0.bodies,
                registry@.bodies.len() == r0.bodies.len(),
                forall|k: int|
                    0 <= k < r0.bodies.len() ==> #[trigger] registry@.bodies[k] == (
                    if culls_body_before(s0, h, i as int, k) {
                        deleted_record(r0.bodies[k])
                    } else {
                        r0.bodies[k]
                    }),
            decreases n - i,
        {
            let entry = store.get(Entity { index: i });
            let ghost e0 = s0[i as int];
            assert(culled(e0, h) == culled(s1[i as int], h));
            let mut cull = false;
            match entry {
                Some(d) => match (d.bullet, d.body) {
                    (Some(_), Some(b)) => {
                        if contains_body(&hit, b) {
                            cull = true;
                            store.set_entry(i, None);
                            let _ = registry.delete_body(b);
                        }
                    },
                    _ => {},
                },
                None => {},
            }
            proof {
                assert(cull == culled(e0, h));
                assert forall|k: int|
                    0 <= k < r0.bodies.len() implies #[trigger] registry@.bodies[k] == (
                    if culls_body_before(s0, h, i + 1, k) {
                        deleted_record(r0.bodies[k])
                    } else {
                        r0.bodies[k]
                    }) by {
                    if culled(e0, h) && (e0->0.body matches Some(b) && b.index == k) {
                        assert(culls_body_before(s0, h, i + 1, k));
                    } else {
                        if culls_body_before(s0, h, i + 1, k) {
                            let j = choose|j: int|
                                0 <= j < i + 1 && #[trigger] culled(s0[j], h) && (
                                s0[j]->0.body matches Some(b) && b.index == k);
                            assert(culls_body_before(s0, h, i as int, k));
                        }
                    }
                }
            }
            i = i + 1;
        }
    }
}

/// The safe zones delete projectiles only: an entity without the projectile
/// marker outlives the tick, whether or not its body entered a zone.
pub proof fn lemma_zones_spare_non_projectiles(
    s: Seq<Option<EntityData>>,
    reg: RegistryModel,
    dt: u64,
    i: int,
)
    requires
        0 <= i < s.len(),
        s[i] matches Some(d) && d.bullet is None,
    ensures
        !culled(s[i], overlapped(s, reg)),
        zone_ticked(s[i], reg, dt) is Some,
{
}

/// Picks targets for the scene; it holds no state yet.
pub struct TargetSystem;

impl TargetSystem {
    pub fn new() -> (r: TargetSystem) {
        TargetSystem {  }
    }
}

/// Distance covered at `speed` (millionths of a unit per second) during `dt`
/// microseconds, in millionths of a unit, rounded toward zero.
pub open spec fn displacement(speed: i64, dt: u64) -> int {
    if speed >= 0 {
        (speed * dt) / 1_000_000
    } else {
        -(((-speed) * dt) / 1_000_000)
    }
}

/// Entry `e` once its motion has moved it along the vertical axis for `dt`
/// (the coordinate stops at the bounds of `i64`).
pub open spec fn moved(e: Option<EntityData>, dt: u64) -> Option<EntityData> {
    match e {
        Some(d) => match (d.transform, d.motion) {
            (Some(t), Some(m)) => Some(
                EntityData {
                    transform: Some(
                        Transform {
                            translation: Vec3 {
                                y: clamp_i64(t.translation.y + displacement(m.speed, dt)),
                                ..t.translation
                            },
                            ..t
                        },
                    ),
                    ..d
                },
            ),
            _ => e,
        },
        None => None,
    }
}

fn displacement_of(speed: i64, dt: u64) -> (r: i128)
    ensures
        r == displacement(speed, dt),
        -0x1_0000_0000_0000_0000_0000_0000_0000 < r < 0x1_0000_0000_0000_0000_0000_0000_0000,
{
    let magnitude: u128 = if speed >= 0 {
        speed as u128
    } else {
        (-(speed as i128)) as u128
    };
    assert(magnitude * (dt as u128) <= 0x8000_0000_0000_0000 * 0xffff_ffff_ffff_ffff)
        by (nonlinear_arith)
        requires
            magnitude <= 0x8000_0000_0000_0000,
            dt <= 0xffff_ffff_ffff_ffff,
    ;
    let product: u128 = magnitude * (dt as u128);
    let q: u128 = product / 1_000_000;
    assert(q <= product);
    if speed >= 0 {
        q as i128
    } else {
        -(q as i128)
    }
}

/// Moves every entity that has a transform and a motion.
#[derive(Debug, Default)]
pub struct MotionSystem;

impl MotionSystem {
    pub fn run(&mut self, store: &mut ComponentStore, dt: u64)
        requires
            old(store).wf(),
        ensures
            final(store).wf(),
            final(store)@.len() == old(store)@.len(),
            forall|i: int|
                0 <= i < old(store)@.len() ==> final(store)@[i] == moved(
                    #[trigger] old(store)@[i],
                    dt,
                ),
    {
        let ghost s0 = store@;
        let n = store.len();
        let mut i: usize = 0;
        while i < n
            invariant
                n == s0.len(),
                i <= n,
                store.wf(),
                store@.len() == n,
                forall|j: int| 0 <= j < i ==> store@[j] == moved(#[trigger] s0[j], dt),
                forall|j: int| i <= j < n ==> store@[j] == s0[j],
            decreases n - i,
        {
            match store.get(Entity { index: i }) {
                Some(d) => match (d.transform, d.motion) {
                    (Some(t), Some(m)) => {
                        let y = t.translation.y as i128 + displacement_of(m.speed, dt);
                        let y: i64 = if y < i64::MIN as i128 {
                            i64::MIN
                        } else if y > i64::MAX as i128 {
                            i64::MAX
                        } else {
                            y as i64
                        };
                        let t2 = Transform { translation: Vec3 { y, ..t.translation }, ..t };
                        store.set_entry(i, Some(EntityData { transform: Some(t2), ..d }));
                    },
                    _ => {},
                },
                None => {},
            }
            i = i + 1;
        }
    }
}

/// Exactly-once application: after one sweep, every entity that carried a
/// live body and a pending impulse has no request left, and the sweep made
/// one application for it, with its own body and vector. Applications of two
/// such entities sit at distinct positions, and every application of the
/// sweep belongs to one such entity.
pub proof fn lemma_impulse_applied_exactly_once(
    s: Seq<Option<EntityData>>,
    reg: RegistryModel,
    i: int,
)
    requires
        0 <= i < s.len(),
        impulse_request(s[i], reg) is Some,
    ensures
        swept(s[i])->0.impulse is None,
        request_rank(s, reg, i) < impulse_requests(s, reg).len(),
        impulse_requests(s, reg)[request_rank(s, reg, i) as int] == impulse_request(s[i], reg)->0,
        forall|j: int|
            0 <= j < s.len() && j != i && impulse_request(#[trigger] s[j], reg) is Some
                ==> request_rank(s, reg, j) != request_rank(s, reg, i),
        forall|k: int|
            0 <= k < impulse_requests(s, reg).len() ==> exists|j: int|
                0 <= j < s.len() && impulse_request(#[trigger] s[j], reg) == Some(
                    #[trigger] impulse_requests(s, reg)[k],
                ) && request_rank(s, reg, j) == k,
{
    lemma_request_at_rank(s, reg, i);
    assert forall|j: int|
        0 <= j < s.len() && j != i && impulse_request(#[trigger] s[j], reg) is Some
            implies request_rank(s, reg, j) != request_rank(s, reg, i) by {
        if j < i {
            lemma_rank_increases(s, reg, j, i);
        } else {
            lemma_rank_increases(s, reg, i, j);
        }
    }
    lemma_requests_covered(s, reg);
}

/// The rank of a requesting entity indexes its own application.
proof fn lemma_request_at_rank(s: Seq<Option<EntityData>>, reg: RegistryModel, i: int)
    requires
        0 <= i < s.len(),
        impulse_request(s[i], reg) is Some,
    ensures
        request_rank(s, reg, i) < impulse_requests(s, reg).len(),
        impulse_requests(s, reg)[request_rank(s, reg, i) as int] == impulse_request(s[i], reg)->0,
    decreases s.len(),
{
    if i == s.len() - 1 {
        assert(s.drop_last() =~= s.take(i));
    } else {
        let p = s.drop_last();
        assert(p[i] == s[i]);
        assert(p.take(i) =~= s.take(i));
        lemma_request_at_rank(p, reg, i);
        lemma_requests_prefix(s, reg);
    }
}

/// The applications over a prefix lead those over the whole.
proof fn lemma_requests_prefix(s: Seq<Option<EntityData>>, reg: RegistryModel)
    requires
        s.len() > 0,
    ensures
        impulse_requests(s, reg).len() >= impulse_requests(s.drop_last(), reg).len(),
        forall|k: int|
            0 <= k < impulse_requests(s.drop_last(), reg).len() ==> impulse_requests(s, reg)[k]
                == impulse_requests(s.drop_last(), reg)[k],
{
}

/// Ranks never decrease along the entities, and a requesting entity moves
/// the rank up by one.
proof fn lemma_rank_increases(s: Seq<Option<EntityData>>, reg: RegistryModel, i: int, j: int)
    requires
        0 <= i < j <= s.len(),
        impulse_request(s[i], reg) is Some,
    ensures
        request_rank(s, reg, i) < request_rank(s, reg, j),
    decreases j - i,
{
    let t = s.take(j);
    assert(t.drop_last() =~= s.take(j - 1));
    assert(t.last() == s[j - 1]);
    if j - 1 > i {
        lemma_rank_increases(s, reg, i, j - 1);
    }
}

/// Every application of the sweep is the one of some requesting entity.
proof fn lemma_requests_covered(s: Seq<Option<EntityData>>, reg: RegistryModel)
    ensures
        forall|k: int|
            0 <= k < impulse_requests(s, reg).len() ==> exists|j: int|
                0 <= j < s.len() && impulse_request(#[trigger] s[j], reg) == Some(
                    #[trigger] impulse_requests(s, reg)[k],
                ) && request_rank(s, reg, j) == k,
    decreases s.len(),
{
    if s.len() > 0 {
        let p = s.drop_last();
        lemma_requests_covered(p, reg);
        lemma_requests_prefix(s, reg);
        assert forall|k: int| 0 <= k < impulse_requests(s, reg).len() implies exists|j: int|
            0 <= j < s.len() && impulse_request(#[trigger] s[j], reg) == Some(
                #[trigger] impulse_requests(s, reg)[k],
            ) && request_rank(s, reg, j) == k by {
            if k < impulse_requests(p, reg).len() {
                let j = choose|j: int|
                    0 <= j < p.len() && impulse_request(#[trigger] p[j], reg) == Some(
                        #[trigger] impulse_requests(p, reg)[k],
                    ) && request_rank(p, reg, j) == k;
                assert(p[j] == s[j]);
                assert(p.take(j) =~= s.take(j));
                assert(impulse_request(s[j], reg) == Some(impulse_requests(s, reg)[k]));
            } else {
                let j = s.len() - 1;
                assert(s.take(j) =~= p);
                assert(impulse_request(s[j], reg) == Some(impulse_requests(s, reg)[k]));
            }
        }
    }
}

} // verus!
