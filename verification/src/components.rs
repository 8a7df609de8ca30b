//! Per-NPC components: behaviour states, repeating timers and the committed
//! path, plus the process-wide day/night flag pair.

use vstd::prelude::*;
use crate::grid::Pos;

verus! {

/// The behaviour state of one NPC. Exactly one is held per NPC at a time.
#[derive(Clone, Copy, Debug, PartialEq, Eq, Structural)]
pub enum NpcState {
    Attack,
    Escape,
    Chase,
    Look,
    Chill,
    Dead,
}

/// The two NPC kinds the simulation manages.
#[derive(Clone, Copy, Debug, PartialEq, Eq, Structural)]
pub enum NpcKind {
    Civilian,
    Hunter,
}

/// A repeating timer counted in whole milliseconds.
///
/// `tick` reports a finish whenever the accumulated time crosses the
/// duration, then keeps the remainder, so a finish is reported exactly once
/// per elapsed period.
#[derive(Clone, Copy, Debug, PartialEq, Eq, Structural)]
pub struct TickTimer {
    pub elapsed_ms: u32,
    pub duration_ms: u32,
}

impl TickTimer {
    /// The timer has a positive period and its accumulator stays below it.
    pub open spec fn wf(self) -> bool {
        0 < self.duration_ms && self.elapsed_ms < self.duration_ms
    }

    /// Whether advancing by `dt_ms` reaches the end of the period.
    pub open spec fn finishes_after(self, dt_ms: u32) -> bool {
        self.elapsed_ms + dt_ms >= self.duration_ms
    }

    /// The timer's value after advancing by `dt_ms`: the remainder past the
    /// period on a finish, the plain sum otherwise.
    pub open spec fn spec_ticked(self, dt_ms: u32) -> TickTimer {
        if self.finishes_after(dt_ms) {
            TickTimer {
                elapsed_ms: ((self.elapsed_ms + dt_ms) as int % self.duration_ms as int) as u32,
                duration_ms: self.duration_ms,
            }
        } else {
            TickTimer {
                elapsed_ms: (self.elapsed_ms + dt_ms) as u32,
                duration_ms: self.duration_ms,
            }
        }
    }

    /// A fresh timer with the given period.
    pub fn new(duration_ms: u32) -> (t: TickTimer)
        requires
            0 < duration_ms,
        ensures
            t.wf(),
            t.duration_ms == duration_ms,
            t.elapsed_ms == 0,
    {
        TickTimer { elapsed_ms: 0, duration_ms }
    }

    /// Advances the timer by `dt_ms`; reports whether the period elapsed and
    /// keeps the remainder for the next period.
    pub fn tick(&mut self, dt_ms: u32) -> (finished: bool)
        requires
            old(self).wf(),
            dt_ms <= 0x4000_0000,
        ensures
            final(self).wf(),
            finished == old(self).finishes_after(dt_ms),
            *final(self) == old(self).spec_ticked(dt_ms),
    {
        let total: u64 = self.elapsed_ms as u64 + dt_ms as u64;
        if total >= self.duration_ms as u64 {
            self.elapsed_ms = (total % self.duration_ms as u64) as u32;
            true
        } else {
            self.elapsed_ms = total as u32;
            false
        }
    }

    /// Rewinds the accumulator to the start of the period.
    pub fn reset(&mut self)
        requires
            old(self).wf(),
        ensures
            final(self).wf(),
            final(self).duration_ms == old(self).duration_ms,
            final(self).elapsed_ms == 0,
    {
        self.elapsed_ms = 0;
    }
}

/// Timer gating how often an idle NPC picks a wander target.
#[derive(Clone, Copy, Debug, PartialEq, Eq, Structural)]
pub struct ChillTimer {
    pub timer: TickTimer,
}

/// Timer pacing an attacking civilian's strikes; doubles as the civilian's
/// death timer while in the dead state.
#[derive(Clone, Copy, Debug, PartialEq, Eq, Structural)]
pub struct AttackTimer {
    pub timer: TickTimer,
}

/// Timer pacing a civilian's angry particle effects.
#[derive(Clone, Copy, Debug, PartialEq, Eq, Structural)]
pub struct ParticleTimer {
    pub timer: TickTimer,
}

/// Timer pacing a hunter's throws; doubles as the hunter's death timer while
/// in the dead state.
#[derive(Clone, Copy, Debug, PartialEq, Eq, Structural)]
pub struct HunterTimer {
    pub timer: TickTimer,
}

/// Timer after which a spawned projectile is removed.
#[derive(Clone, Copy, Debug, PartialEq, Eq, Structural)]
pub struct DespawnTimer {
    pub timer: TickTimer,
}

/// The currently committed route, consumed waypoint by waypoint; `None`
/// means no active route.
#[derive(Debug)]
pub struct NpcPath {
    pub path: Option<Vec<Pos>>,
}

/// The player's last known grid cell, tracked by hunters for the looking
/// state.
#[derive(Clone, Copy, Debug, PartialEq, Eq, Structural)]
pub struct PlayerLastPos {
    pub pos: Pos,
}

/// The process-wide day/night flag pair, written by the external day-cycle
/// driver and only read here.
#[derive(Clone, Copy, Debug, PartialEq, Eq, Structural)]
pub struct DayCycle {
    pub is_night: bool,
    pub is_translating: bool,
}

/// Count of collectables gathered so far against the winning total.
#[derive(Clone, Copy, Debug, PartialEq, Eq, Structural)]
pub struct RosesCollected {
    pub collected: u32,
    pub max: u32,
}

} // verus!
