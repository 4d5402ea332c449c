use vstd::prelude::*;

use crate::components::clamp_i64;

verus! {

/// A guard at or below this value no longer accumulates time (-0.5 s).
pub const GUARD_DISARMED: i64 = -500_000;

/// Value a one-shot guard takes once it has fired (-1 s).
pub const GUARD_SPENT: i64 = -1_000_000;

/// Fires each time the accumulated time reaches `period`, then starts again
/// from zero (what exceeds the period is dropped).
#[derive(Clone, Copy, Debug, PartialEq, Eq, Structural)]
pub struct PeriodicTimer {
    pub accumulated: u64,
    pub period: u64,
}

impl PeriodicTimer {
    /// The timer after `dt` microseconds, and whether it fired (the sum stops at `u64::MAX`).
    pub open spec fn after_tick(self, dt: u64) -> (PeriodicTimer, bool) {
        let acc: u64 = if self.accumulated + dt > u64::MAX {
            u64::MAX
        } else {
            (self.accumulated + dt) as u64
        };
        if acc >= self.period {
            (PeriodicTimer { accumulated: 0, ..self }, true)
        } else {
            (PeriodicTimer { accumulated: acc, ..self }, false)
        }
    }

    pub fn new(period: u64) -> (r: PeriodicTimer)
        ensures
            r == (PeriodicTimer { accumulated: 0, period }),
    {
        PeriodicTimer { accumulated: 0, period }
    }

    pub fn tick(&mut self, dt: u64) -> (fired: bool)
        ensures
            (*final(self), fired) == old(self).after_tick(dt),
    {
        let acc = self.accumulated.saturating_add(dt);
        if acc >= self.period {
            self.accumulated = 0;
            true
        } else {
            self.accumulated = acc;
            false
        }
    }
}

/// Fires once, on the first tick at which the accumulated time exceeds
/// `threshold`; the guard then holds `GUARD_SPENT`, which stops it for good.
#[derive(Clone, Copy, Debug, PartialEq, Eq, Structural)]
pub struct OneShotTimer {
    pub guard: i64,
    pub threshold: i64,
}

impl OneShotTimer {
    /// The timer after `dt` microseconds, and whether it fired.
    pub open spec fn after_tick(self, dt: u64) -> (OneShotTimer, bool) {
        if self.guard > GUARD_DISARMED {
            let g = clamp_i64(self.guard + dt);
            if g > self.threshold {
                (OneShotTimer { guard: GUARD_SPENT, ..self }, true)
            } else {
                (OneShotTimer { guard: g, ..self }, false)
            }
        } else {
            (self, false)
        }
    }

    /// The timer after ticks of the given lengths.
    pub open spec fn run(self, dts: Seq<u64>) -> OneShotTimer
        decreases dts.len(),
    {
        if dts.len() == 0 {
            self
        } else {
            self.run(dts.drop_last()).after_tick(dts.last()).0
        }
    }

    /// How many of those ticks fired.
    pub open spec fn fire_count(self, dts: Seq<u64>) -> nat
        decreases dts.len(),
    {
        if dts.len() == 0 {
            0
        } else {
            self.fire_count(dts.drop_last()) + if self.run(dts.drop_last()).after_tick(
                dts.last(),
            ).1 {
                1nat
            } else {
                0nat
            }
        }
    }

    pub fn new(threshold: i64) -> (r: OneShotTimer)
        ensures
            r == (OneShotTimer { guard: 0, threshold }),
    {
        OneShotTimer { guard: 0, threshold }
    }

    pub fn tick(&mut self, dt: u64) -> (fired: bool)
        ensures
            (*final(self), fired) == old(self).after_tick(dt),
    {
        if self.guard > GUARD_DISARMED {
            let g = self.guard as i128 + dt as i128;
            let g: i64 = if g > i64::MAX as i128 {
                i64::MAX
            } else {
                g as i64
            };
            if g > self.threshold {
                self.guard = GUARD_SPENT;
                true
            } else {
                self.guard = g;
                false
            }
        } else {
            false
        }
    }
}

/// Debounce latch for a held input: fires on the tick the signal turns on,
/// then not again until the signal has been released.
#[derive(Clone, Copy, Debug, PartialEq, Eq, Structural)]
pub struct FireLatch {
    pub latched: bool,
}

impl FireLatch {
    /// The latch after a tick that samples `held`, and whether it fired.
    pub open spec fn after_tick(self, held: bool) -> (FireLatch, bool) {
        if held {
            if self.latched {
                (self, false)
            } else {
                (FireLatch { latched: true }, true)
            }
        } else {
            (FireLatch { latched: false }, false)
        }
    }

    pub open spec fn run(self, signals: Seq<bool>) -> FireLatch
        decreases signals.len(),
    {
        if signals.len() == 0 {
            self
        } else {
            self.run(signals.drop_last()).after_tick(signals.last()).0
        }
    }

    pub open spec fn fire_count(self, signals: Seq<bool>) -> nat
        decreases signals.len(),
    {
        if signals.len() == 0 {
            0
        } else {
            self.fire_count(signals.drop_last()) + if self.run(signals.drop_last()).after_tick(
                signals.last(),
            ).1 {
                1nat
            } else {
                0nat
            }
        }
    }

    pub fn new() -> (r: FireLatch)
        ensures
            r == (FireLatch { latched: false }),
    {
        FireLatch { latched: false }
    }

    pub fn update(&mut self, held: bool) -> (fired: bool)
        ensures
            (*final(self), fired) == old(self).after_tick(held),
    {
        if held {
            if self.latched {
                false
            } else {
                self.latched = true;
                true
            }
        } else {
            self.latched = false;
            false
        }
    }
}

/// Holding the signal for `k >= 1` consecutive ticks, from a released latch,
/// fires exactly once, and leaves the latch set.
pub proof fn lemma_held_signal_fires_once(l: FireLatch, signals: Seq<bool>)
    requires
        !l.latched,
        signals.len() >= 1,
        forall|i: int| 0 <= i < signals.len() ==> signals[i],
    ensures
        l.fire_count(signals) == 1,
        l.run(signals).latched,
    decreases signals.len(),
{
    let p = signals.drop_last();
    assert(signals.last() == signals[signals.len() - 1]);
    if p.len() >= 1 {
        assert forall|i: int| 0 <= i < p.len() implies p[i] by {
            assert(p[i] == signals[i]);
        }
        lemma_held_signal_fires_once(l, p);
    } else {
        assert(l.fire_count(p) == 0 && l.run(p) == l);
    }
}

/// A one-shot timer fires at most once over any run, however long; once it
/// has fired it stays disarmed.
pub proof fn lemma_one_shot_fires_at_most_once(t: OneShotTimer, dts: Seq<u64>)
    ensures
        t.fire_count(dts) <= 1,
        t.fire_count(dts) == 1 ==> t.run(dts).guard <= GUARD_DISARMED,
    decreases dts.len(),
{
    if dts.len() > 0 {
        lemma_one_shot_fires_at_most_once(t, dts.drop_last());
    }
}

} // verus!
