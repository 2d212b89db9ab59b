use vstd::prelude::*;
use crate::camera::Camera;
use crate::camera::WorldRange;
use crate::input::InputEvent;
use crate::input::spec_has_close;
use crate::input::lemma_close_sets_quit;
use crate::metrics::MAX_DELTA_NS;
use crate::metrics::RateMeter;
use crate::sim::SimModel;
use crate::sim::spec_snapshot_of;
use crate::sim::spec_run;
use crate::sim::spec_tick;
use crate::sim::TickInput;
use crate::snapshot::Snapshot;

verus! {

/// What one render frame derives from the snapshot it read: whether the
/// loop must terminate, the visible world box for culling, and the frame
/// rate to display.  The transforms and body poses themselves travel in the
/// snapshot, which the rendering collaborator reads directly.
#[derive(Clone, Copy, PartialEq, Eq, Structural)]
pub struct FrameStep {
    /// The snapshot carried the quit flag: the render loop's sole intended
    /// exit path.
    pub stop: bool,
    pub range: WorldRange,
    /// Rolling measured frame rate, frames per second.
    pub measured_fps: u32,
}

/// The world box reported for a snapshot whose camera did not come from a
/// verified constructor and fails its bounds: an empty range at the origin,
/// which culls everything rather than overflowing.
pub open spec fn spec_empty_range() -> WorldRange {
    WorldRange { min_x: 0, min_y: 0, max_x: 0, max_y: 0 }
}

/// The range a frame derives from a snapshot's camera.
pub open spec fn spec_frame_range(cam: Camera) -> WorldRange {
    if cam.wf() {
        cam.spec_visible_range()
    } else {
        spec_empty_range()
    }
}

/// One render-loop step over a freshly read snapshot: observe the quit flag
/// first (a quitting snapshot terminates the loop before anything is
/// derived or metered), otherwise derive the visible world range and fold
/// the frame delta into the frame-rate meter.  Works for every snapshot
/// value, however stale or foreign: the camera is bounds-checked before any
/// range arithmetic.
pub fn frame_step(
    snap: &Snapshot,
    meter: &mut RateMeter,
    last_fps: u32,
    delta_ns: u64,
) -> (r: FrameStep)
    requires
        old(meter).wf(),
        delta_ns <= MAX_DELTA_NS,
    ensures
        final(meter).wf(),
        final(meter).window_ns == old(meter).window_ns,
        r.stop == snap.quit,
        snap.quit ==> {
            &&& r.range == spec_empty_range()
            &&& r.measured_fps == last_fps
            &&& *final(meter) == *old(meter)
        },
        !snap.quit ==> r.range == spec_frame_range(snap.camera),
        !snap.quit && old(meter).spec_closes(delta_ns) ==> {
            &&& r.measured_fps == old(meter).spec_rate_of_window(delta_ns)
            &&& final(meter).delta_sum_ns == 0
            &&& final(meter).count == 0
        },
        !snap.quit && !old(meter).spec_closes(delta_ns) ==> {
            &&& r.measured_fps == last_fps
            &&& final(meter).delta_sum_ns == old(meter).delta_sum_ns + delta_ns
            &&& final(meter).count == old(meter).count + 1
        },
{
    if snap.quit {
        return FrameStep {
            stop: true,
            range: WorldRange { min_x: 0, min_y: 0, max_x: 0, max_y: 0 },
            measured_fps: last_fps,
        };
    }
    let range: WorldRange = if snap.camera.is_well_formed() {
        snap.camera.visible_world_range()
    } else {
        WorldRange { min_x: 0, min_y: 0, max_x: 0, max_y: 0 }
    };
    let measured_fps: u32 = match meter.record(delta_ns) {
        Some(rate) => rate,
        None => last_fps,
    };
    FrameStep { stop: false, range, measured_fps }
}

/// A tick whose polled events carry a close request leaves the simulation
/// quit and publishes a quitting snapshot: the simulation loop stops within
/// that very tick, and the render loop stops within the first frame that
/// reads the snapshot.
pub proof fn lemma_close_event_stops_both_loops(m: SimModel, evs: Seq<InputEvent>, delta_ns: u64)
    requires
        spec_has_close(evs),
    ensures
        spec_tick(m, evs, delta_ns).quit,
        spec_snapshot_of(spec_tick(m, evs, delta_ns)).quit,
{
    lemma_close_sets_quit(m.input, evs);
}

/// Once the simulation has quit, every later tick still carries the quit
/// flag: quitting is latched, never rescinded by further input.
pub proof fn lemma_quit_latched_across_ticks(m: SimModel, evs: Seq<InputEvent>, delta_ns: u64)
    requires
        m.quit,
    ensures
        spec_tick(m, evs, delta_ns).quit,
        spec_snapshot_of(spec_tick(m, evs, delta_ns)).quit,
{
}

/// End to end: a scripted run whose tick `k` polls a close request is quit
/// once that tick has run.  Together with the contract of
/// `SimState::run_script` this bounds the whole shutdown: the loop publishes
/// at most `k + 1` snapshots, the last of which carries the quit flag that
/// stops the render loop on its next frame.
pub proof fn lemma_close_in_script_quits_run(m: SimModel, script: Seq<TickInput>, k: int)
    requires
        0 <= k < script.len(),
        spec_has_close(script[k].events@),
    ensures
        spec_run(m, script, k + 1).quit,
{
    lemma_close_event_stops_both_loops(
        spec_run(m, script, k),
        script[k].events@,
        script[k].delta_ns,
    );
}

} // verus!
