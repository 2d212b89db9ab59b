use vstd::prelude::*;
use crate::camera::Camera;

verus! {

/// The draw data of one body: where its orbit lies and the angular position
/// to draw it at, all fixed-point plain values.
#[derive(Clone, Copy, PartialEq, Eq, Structural)]
pub struct BodyPose {
    pub center_x: i64,
    pub center_y: i64,
    pub radius: i64,
    pub angle_ut: u64,
}

/// The spec-level value of a snapshot: the same fields with the body list
/// as a sequence.
#[verifier::ext_equal]
pub struct SnapshotModel {
    pub camera: Camera,
    pub bodies: Seq<BodyPose>,
    pub measured_tps: u32,
    pub quit: bool,
}

/// An immutable, self-contained copy of the simulation state published for
/// the render loop: the camera, every body's draw pose, the measured tick
/// rate for the on-screen diagnostics, and the quit flag.  Once published a
/// snapshot is never mutated; the renderer holds a temporally frozen view.
#[derive(Clone)]
pub struct Snapshot {
    pub camera: Camera,
    pub bodies: Vec<BodyPose>,
    pub measured_tps: u32,
    pub quit: bool,
}

impl Snapshot {
    pub open spec fn model(self) -> SnapshotModel {
        SnapshotModel {
            camera: self.camera,
            bodies: self.bodies@,
            measured_tps: self.measured_tps,
            quit: self.quit,
        }
    }
}

} // verus!
