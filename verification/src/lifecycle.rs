//! The start/stop lifecycle the driver and the worker follow.
//!
//! The driver runs once per host tick over two flags: `enabled` (external
//! intent) and the shared running flag. It spawns a worker when enabled and
//! not running, and clears the flag — a signal only — when disabled and
//! running. The worker checks the flag once per iteration and exits
//! cooperatively; the driver then reaps the finished handle.

use vstd::prelude::*;

verus! {

/// What the driver does, this tick, about starting or stopping the worker.
#[derive(Clone, Copy, Debug, PartialEq, Eq, Structural)]
pub enum TickAction {
    /// Spawn a worker and set the running flag.
    Spawn,
    /// Clear the running flag; the worker exits on its own schedule.
    SignalStop,
    /// Leave the worker as it is.
    Idle,
}

/// The driver's decision from the two flags it reads.
pub open spec fn spec_tick_action(enabled: bool, running: bool) -> TickAction {
    if enabled && !running {
        TickAction::Spawn
    } else if !enabled && running {
        TickAction::SignalStop
    } else {
        TickAction::Idle
    }
}

/// Decide this tick's action from the enable intent and the running flag.
pub fn tick_action(enabled: bool, running: bool) -> (a: TickAction)
    ensures
        a == spec_tick_action(enabled, running),
{
    if enabled && !running {
        TickAction::Spawn
    } else if !enabled && running {
        TickAction::SignalStop
    } else {
        TickAction::Idle
    }
}

/// Abstract state of one controller: the enable intent, the shared running
/// flag, how many workers are alive, and whether the driver still holds a
/// handle to one.
pub struct LifecycleState {
    pub enabled: bool,
    pub running_flag: bool,
    pub workers: nat,
    pub handle_held: bool,
}

/// One driver tick: spawn when enabled and not flagged running, clear the
/// flag when disabled and flagged running, reap the handle once no worker
/// is alive. Returns the new state and whether a worker was spawned.
pub open spec fn spec_driver_tick(s: LifecycleState) -> (LifecycleState, bool) {
    let spawned = s.enabled && !s.running_flag;
    let s1 = if spawned {
        LifecycleState { running_flag: true, workers: s.workers + 1, handle_held: true, ..s }
    } else {
        s
    };
    let s2 = if !s1.enabled && s1.running_flag {
        LifecycleState { running_flag: false, ..s1 }
    } else {
        s1
    };
    let s3 = if s2.handle_held && s2.workers == 0 {
        LifecycleState { handle_held: false, ..s2 }
    } else {
        s2
    };
    (s3, spawned)
}

/// One worker observation of the running flag: a live worker that sees the
/// flag cleared finishes; otherwise it runs another iteration unchanged.
pub open spec fn spec_worker_observe(s: LifecycleState) -> LifecycleState {
    if s.workers > 0 && !s.running_flag {
        LifecycleState { workers: (s.workers - 1) as nat, ..s }
    } else {
        s
    }
}

/// Law: enabling with no worker alive spawns exactly one worker, and while
/// it stays enabled the next tick spawns none and changes nothing.
pub proof fn lemma_enable_spawns_exactly_one(s: LifecycleState)
    requires
        s.enabled,
        !s.running_flag,
        s.workers == 0,
        !s.handle_held,
    ensures
        ({
            let (t, spawned) = spec_driver_tick(s);
            &&& spawned
            &&& t.workers == 1
            &&& t.running_flag
            &&& t.handle_held
            &&& !spec_driver_tick(t).1
            &&& spec_driver_tick(t).0 == t
        }),
{
}

/// Law: disabling while a worker is alive only signals: the tick clears the
/// running flag but the worker survives it, and the handle stays held. The
/// worker exits when it next observes the flag, and only the tick after
/// that reaps the handle.
pub proof fn lemma_disable_stops_cooperatively(s: LifecycleState)
    requires
        !s.enabled,
        s.running_flag,
        s.workers == 1,
        s.handle_held,
    ensures
        ({
            let (t, spawned) = spec_driver_tick(s);
            let u = spec_worker_observe(t);
            &&& !spawned
            &&& !t.running_flag
            &&& t.workers == 1
            &&& t.handle_held
            &&& u.workers == 0
            &&& u.handle_held
            &&& !spec_driver_tick(u).0.handle_held
            &&& !spec_driver_tick(u).1
        }),
{
}

} // verus!
