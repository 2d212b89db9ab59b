use vstd::prelude::*;
use crate::metrics::MAX_DELTA_NS;
use crate::metrics::RateMeter;
use crate::render::FrameStep;
use crate::render::frame_step;
use crate::render::spec_frame_range;
use crate::sim::SimState;
use crate::sim::spec_snapshot_of;
use crate::snapshot::Snapshot;
use crate::snapshot::SnapshotModel;

verus! {

#[verifier::external_type_specification]
#[verifier::external_body]
#[verifier::reject_recursive_types(T)]
pub struct ExReceiver<T>(single_value_channel::Receiver<T>);

#[verifier::external_type_specification]
#[verifier::external_body]
#[verifier::reject_recursive_types(T)]
pub struct ExUpdater<T>(single_value_channel::Updater<T>);

/// The snapshot a receiver holds: the seeded default at creation, and after
/// each `latest` the value that call folded in and returned.  The producer
/// writes through its own endpoint, so what a future `latest` will return is
/// never a function of the receiver alone; contracts therefore only ever
/// speak of this value at creation and as `latest` leaves it.
pub uninterp spec fn receiver_value(rx: single_value_channel::Receiver<Snapshot>) -> SnapshotModel;

/// Relies on single_value_channel::channel_starting_with: the receiver
/// starts out holding the seeded value, which `latest` returns until an
/// update replaces it.
#[verifier::external_body]
pub(crate) fn snapshot_channel(initial: Snapshot) -> (r: (
    single_value_channel::Receiver<Snapshot>,
    single_value_channel::Updater<Snapshot>,
))
    ensures
        receiver_value(r.0) == initial.model(),
{
    single_value_channel::channel_starting_with(initial)
}

/// Relies on single_value_channel::Receiver::latest: folds any pending
/// update into the receiver and returns the value it then holds, without
/// blocking and without consuming it.
#[verifier::external_body]
pub(crate) fn latest_snapshot(rx: &mut single_value_channel::Receiver<Snapshot>) -> (r: Snapshot)
    ensures
        r.model() == receiver_value(*final(rx)),
{
    rx.latest().clone()
}

/// Relies on single_value_channel::Updater::update: replaces the channel's
/// value (last write wins, nothing buffered), or returns the value back
/// inside the error when the receiver has been dropped.
#[verifier::external_body]
pub(crate) fn update_snapshot(
    tx: &single_value_channel::Updater<Snapshot>,
    snap: Snapshot,
) -> (r: Result<(), Snapshot>)
    ensures
        r is Err ==> r->Err_0 == snap,
{
    match tx.update(snap) {
        Ok(()) => Ok(()),
        Err(e) => Err(e.0),
    }
}

/// Open the hand-off channel between the simulation and render loops,
/// seeded with the state's current snapshot so that a read before the first
/// publish still sees a well-defined value.
pub fn seed_channel(state: &SimState) -> (r: (
    single_value_channel::Receiver<Snapshot>,
    single_value_channel::Updater<Snapshot>,
))
    ensures
        receiver_value(r.0) == spec_snapshot_of(state.model()),
{
    snapshot_channel(state.make_snapshot())
}

/// Publish the state's current snapshot to the render loop.  Failure means
/// the consumer is gone; the undelivered snapshot comes back and the
/// simulation loop is expected to exit cleanly rather than busy-publish
/// into a void.
pub fn publish_snapshot(
    state: &SimState,
    tx: &single_value_channel::Updater<Snapshot>,
) -> (r: Result<(), Snapshot>)
    ensures
        r is Err ==> r->Err_0.model() == spec_snapshot_of(state.model()),
{
    update_snapshot(tx, state.make_snapshot())
}

/// One render-loop step fed straight from the channel: read the latest
/// snapshot (never blocking, never waiting for a new one) and derive the
/// frame's stop flag, visible world range and displayed frame rate from
/// exactly the value read.
pub fn channel_frame_step(
    rx: &mut single_value_channel::Receiver<Snapshot>,
    meter: &mut RateMeter,
    last_fps: u32,
    delta_ns: u64,
) -> (r: (Snapshot, FrameStep))
    requires
        old(meter).wf(),
        delta_ns <= MAX_DELTA_NS,
    ensures
        final(meter).wf(),
        final(meter).window_ns == old(meter).window_ns,
        r.0.model() == receiver_value(*final(rx)),
        r.1.stop == receiver_value(*final(rx)).quit,
        !receiver_value(*final(rx)).quit
            ==> r.1.range == spec_frame_range(receiver_value(*final(rx)).camera),
        !receiver_value(*final(rx)).quit && old(meter).spec_closes(delta_ns)
            ==> r.1.measured_fps == old(meter).spec_rate_of_window(delta_ns),
        (receiver_value(*final(rx)).quit || !old(meter).spec_closes(delta_ns))
            ==> r.1.measured_fps == last_fps,
{
    let snap: Snapshot = latest_snapshot(rx);
    let step: FrameStep = frame_step(&snap, meter, last_fps, delta_ns);
    (snap, step)
}

} // verus!
