//! The reload cooldown that gates every shot.

use crate::clock::{
    duration_nanos, span_nanos, stopwatch_state, watch_elapsed, watch_reset, watch_tick,
    StopwatchState,
};
use crate::components::{ReloadStopwatch, ReloadTime};
use std::time::Duration;
use vstd::prelude::*;

verus! {

/// A shooter may fire once the time since the last shot has reached the
/// reload time; reaching it exactly is enough.
pub open spec fn cooldown_over(elapsed: nat, reload: nat) -> bool {
    elapsed >= reload
}

/// The stopwatch after a frame in which the shooter tried to fire: it has
/// gone on by `delta`, and starts again from zero if the shot went off.
pub open spec fn after_trigger(watch: StopwatchState, reload: nat, delta: nat) -> StopwatchState {
    let ticked = watch.ticked(delta);
    if cooldown_over(ticked.elapsed, reload) {
        ticked.reset()
    } else {
        ticked
    }
}

/// Lets the stopwatch run on by `delta` and says whether the shooter fires
/// now; if so the stopwatch starts again from zero.
pub fn fire_control(reload: &mut ReloadStopwatch, reload_time: &ReloadTime, delta: &Duration) -> (fire:
    bool)
    requires
        stopwatch_state(old(reload).0).can_tick(duration_nanos(*delta)),
    ensures
        fire == cooldown_over(
            stopwatch_state(old(reload).0).ticked(duration_nanos(*delta)).elapsed,
            duration_nanos(reload_time.0),
        ),
        stopwatch_state(final(reload).0) == after_trigger(
            stopwatch_state(old(reload).0),
            duration_nanos(reload_time.0),
            duration_nanos(*delta),
        ),
{
    watch_tick(&mut reload.0, delta);
    let elapsed = watch_elapsed(&reload.0);
    let fire = span_nanos(&elapsed) >= span_nanos(&reload_time.0);
    if fire {
        watch_reset(&mut reload.0);
    }
    fire
}

/// A shooter whose stopwatch shows exactly the reload time fires.
pub proof fn lemma_exact_reload_fires(watch: StopwatchState, reload: nat, delta: nat)
    requires
        watch.ticked(delta).elapsed == reload,
    ensures
        cooldown_over(watch.ticked(delta).elapsed, reload),
        after_trigger(watch, reload, delta).elapsed == 0,
{
}

} // verus!
