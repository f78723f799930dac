//! Pickup spawning: a one-shot countdown that, each time it elapses,
//! requests the creation of one pickup at the spawner's position and
//! re-arms itself with a randomly drawn delay of one to four whole
//! seconds.

use vstd::prelude::*;
use crate::rng::sample_range_u64;
use crate::timer::Timer;
use crate::timer::TimerMode;

verus! {

/// The delay before the very first spawn, in milliseconds.
pub const SPAWN_INITIAL_MS: u64 = 2500;

/// Smallest re-arm delay, in whole seconds (inclusive).
pub const REARM_MIN_SECS: u64 = 1;

/// Largest re-arm delay, in whole seconds (exclusive).
pub const REARM_MAX_SECS: u64 = 5;

pub const MILLIS_PER_SEC: u64 = 1000;

/// The largest duration the spawn timer can ever carry.
pub const SPAWN_MAX_DURATION_MS: u64 = 5000;

/// The fixed-position entity that emits pickups. Its health counter is
/// stored but drives no logic.
#[derive(Clone, Copy, Debug, PartialEq, Eq, Structural)]
pub struct Spawner {
    pub health: u16,
    pub x: i64,
    pub y: i64,
}

impl Spawner {
    pub fn new(x: i64, y: i64) -> (s: Spawner)
        ensures
            s == (Spawner { health: 5u16, x, y }),
    {
        Spawner { health: 5, x, y }
    }
}

/// The countdown that paces pickup creation.
#[derive(Clone, Copy, Debug, PartialEq, Eq, Structural)]
pub struct SpawnTimer {
    pub timer: Timer,
}

/// What one spawn update decided.
#[derive(Clone, Copy, Debug, PartialEq, Eq, Structural)]
pub enum SpawnOutcome {
    /// The countdown has not elapsed; nothing to do.
    Idle,
    /// The countdown elapsed: create one pickup at this position.
    Spawn { x: i64, y: i64 },
    /// The countdown elapsed but no spawner exists; the spawn is
    /// skipped and the countdown re-armed all the same.
    MissingSpawner,
}

impl SpawnTimer {
    /// Well-formed: a one-shot timer whose duration never exceeds the
    /// largest delay the re-arm range allows.
    pub open spec fn wf(self) -> bool {
        &&& self.timer.wf()
        &&& self.timer.mode is Once
        &&& self.timer.duration_ms <= SPAWN_MAX_DURATION_MS
    }

    /// The spawn timer starts as a one-shot countdown of the initial delay.
    pub fn new() -> (s: SpawnTimer)
        ensures
            s.wf(),
            s.timer == (Timer {
                duration_ms: SPAWN_INITIAL_MS,
                elapsed_ms: 0,
                mode: TimerMode::Once,
                just_finished: false,
            }),
    {
        SpawnTimer { timer: Timer::new(SPAWN_INITIAL_MS, TimerMode::Once) }
    }

    /// Restart the countdown with a delay of `secs` whole seconds.
    /// This is the deterministic half of re-arming: it is exact for
    /// every value the random draw can produce.
    pub fn rearm_secs(&mut self, secs: u64)
        requires
            old(self).wf(),
            REARM_MIN_SECS <= secs < REARM_MAX_SECS,
        ensures
            final(self).wf(),
            final(self).timer == (Timer {
                duration_ms: (secs * MILLIS_PER_SEC) as u64,
                elapsed_ms: 0,
                mode: old(self).timer.mode,
                just_finished: false,
            }),
    {
        self.timer.rearm(secs * MILLIS_PER_SEC);
    }
}

/// One spawn update: advance the countdown by `delta_ms`; if it
/// elapses, re-arm it with a random delay of one to four whole seconds
/// and request one pickup at the spawner's position — or skip the
/// request, re-arming all the same, when no spawner exists.
pub fn spawn_step(st: &mut SpawnTimer, spawner: Option<&Spawner>, delta_ms: u64) -> (out: SpawnOutcome)
    requires
        old(st).wf(),
        delta_ms <= u64::MAX - SPAWN_MAX_DURATION_MS,
    ensures
        final(st).wf(),
        // When the countdown does not elapse, the timer merely advances
        // and nothing is requested.
        old(st).timer.spec_completions(delta_ms) == 0 ==> {
            &&& final(st).timer == old(st).timer.spec_tick(delta_ms)
            &&& out == SpawnOutcome::Idle
        },
        // When it elapses, the timer is re-armed from zero with a fresh
        // duration drawn from the stated range of whole seconds.
        old(st).timer.spec_completions(delta_ms) > 0 ==> {
            &&& final(st).timer.elapsed_ms == 0
            &&& final(st).timer.just_finished == false
            &&& final(st).timer.mode == old(st).timer.mode
            &&& REARM_MIN_SECS * MILLIS_PER_SEC <= final(st).timer.duration_ms
            &&& final(st).timer.duration_ms < REARM_MAX_SECS * MILLIS_PER_SEC
            &&& final(st).timer.duration_ms % MILLIS_PER_SEC == 0
        },
        // Exactly one pickup is requested per firing, and only with a
        // spawner present; a firing without one is reported as such.
        (out is Spawn) <==> (old(st).timer.spec_completions(delta_ms) > 0 && spawner is Some),
        (out is MissingSpawner) <==> (old(st).timer.spec_completions(delta_ms) > 0 && spawner is None),
        spawner matches Some(s)
            ==> (old(st).timer.spec_completions(delta_ms) > 0
                ==> out == (SpawnOutcome::Spawn { x: s.x, y: s.y })),
{
    let completions: u64 = st.timer.tick(delta_ms);
    if completions > 0 {
        let secs: u64 = sample_range_u64(REARM_MIN_SECS, REARM_MAX_SECS);
        st.rearm_secs(secs);
        match spawner {
            Some(s) => SpawnOutcome::Spawn { x: s.x, y: s.y },
            None => SpawnOutcome::MissingSpawner,
        }
    } else {
        SpawnOutcome::Idle
    }
}

} // verus!
