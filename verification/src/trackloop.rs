use vstd::prelude::*;

use crate::detector::WindowDetector;
use crate::recorder::ActivityRecorder;
use crate::state::AppState;

verus! {

/// The idle decision of one check: idle exactly when the sensor's count of
/// seconds has reached the configured threshold.
pub fn evaluate_idle(idle_seconds: u64, threshold: u64) -> (b: bool)
    ensures
        b == (idle_seconds >= threshold),
{
    idle_seconds >= threshold
}

/// One cycle of the sampling loop, with the caller deciding the cadence:
/// it sleeps between cycles and sets `check_idle` on the slower idle
/// sub-cadence.
///
/// With tracking off the cycle only closes any segment left open, so a stop
/// never leaves time unaccounted. On the idle sub-cadence the idle flag is
/// re-evaluated; entering idle flushes the open segment at that very
/// moment. While idle no window is sampled. Otherwise a sample, if the
/// sensor yields one, updates the shared snapshot and drives the recorder.
/// The returned value is the new idle flag when it flipped, for the caller
/// to hand to its observers; sensor failures are no signal, never an error.
pub fn run_cycle(
    state: &AppState,
    recorder: &mut ActivityRecorder,
    detector: &WindowDetector,
    check_idle: bool,
    idle_threshold: u64,
) -> (idle_changed: Option<bool>)
    ensures
        idle_changed matches Some(b) ==> (b ==> final(recorder)@ is None),
{
    if !state.is_tracking() {
        recorder.flush_current();
        return None;
    }
    let mut idle_changed: Option<bool> = None;
    if check_idle {
        let idle_seconds = detector.get_idle_time_seconds();
        let is_idle = evaluate_idle(idle_seconds, idle_threshold);
        if is_idle != state.is_idle() {
            state.set_idle(is_idle);
            if is_idle {
                recorder.flush_current();
                return Some(true);
            }
            idle_changed = Some(false);
        }
    }
    if state.is_idle() {
        return idle_changed;
    }
    if let Some(window) = detector.get_active_window() {
        state.set_current_window(Some(window.clone()));
        recorder.record_window_change(&window);
    }
    idle_changed
}

/// Start tracking: raise the shared flag and stamp the session's start.
pub fn start_tracking(state: &AppState) {
    state.set_tracking(true);
    let now = crate::clock::now_seconds();
    state.set_session_start(Some(now));
}

/// Stop tracking: lower the shared flag and clear the session's start. The
/// sampling loop observes the flag on its next cycle and closes the open
/// segment itself.
pub fn stop_tracking(state: &AppState) {
    state.set_tracking(false);
    state.set_session_start(None);
}

} // verus!
