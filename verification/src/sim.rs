use vstd::prelude::*;
use crate::camera::Camera;
use crate::camera::DIM_MAX;
use crate::input::InputEvent;
use crate::input::UserInput;
use crate::input::spec_apply_events;
use crate::input::spec_drained;
use crate::metrics::MAX_DELTA_NS;
use crate::metrics::MAX_WINDOW_NS;
use crate::metrics::RateMeter;
use crate::orbit::OrbitBody;
use crate::orbit::OrbitParams;
use crate::orbit::angle_at;
use crate::orbit::spec_angle_at;
use crate::snapshot::BodyPose;
use crate::snapshot::Snapshot;
use crate::snapshot::SnapshotModel;

verus! {

/// Simulation time advanced by one tick delta, saturating at the largest
/// representable time instead of wrapping.
pub open spec fn spec_advanced_time(t_ns: u64, delta_ns: u64) -> u64 {
    if t_ns + delta_ns > u64::MAX {
        u64::MAX
    } else {
        (t_ns + delta_ns) as u64
    }
}

/// The spec-level value of the simulation state: the same fields with the
/// body list as a sequence.
#[verifier::ext_equal]
pub struct SimModel {
    pub input: UserInput,
    pub camera: Camera,
    pub bodies: Seq<OrbitBody>,
    pub meter: RateMeter,
    pub sim_time_ns: u64,
    pub measured_tps: u32,
    pub quit: bool,
}

impl SimModel {
    pub open spec fn wf(self) -> bool {
        &&& self.input.wf()
        &&& self.camera.wf()
        &&& self.meter.wf()
        &&& forall|i: int| 0 <= i < self.bodies.len() ==> self.bodies[i].wf()
    }
}

/// One whole simulation tick as a mathematical function: intake the polled
/// events, consume the accumulated pan/zoom into the camera, advance
/// simulation time, recompute every body's angle from its fixed parameters
/// and the new time alone, and feed the tick delta to the rate meter.
pub open spec fn spec_tick(m: SimModel, evs: Seq<InputEvent>, delta_ns: u64) -> SimModel {
    let inp = spec_apply_events(m.input, evs);
    let t = spec_advanced_time(m.sim_time_ns, delta_ns);
    let closes = m.meter.spec_closes(delta_ns);
    SimModel {
        input: spec_drained(inp),
        camera: m.camera.spec_integrate(inp),
        bodies: m.bodies.map_values(
            |b: OrbitBody| OrbitBody {
                params: b.params,
                angle_ut: spec_angle_at(b.params.phase_ut, b.params.rate_ut_per_s, t),
            },
        ),
        meter: if closes {
            RateMeter { window_ns: m.meter.window_ns, delta_sum_ns: 0, count: 0 }
        } else {
            RateMeter {
                window_ns: m.meter.window_ns,
                delta_sum_ns: (m.meter.delta_sum_ns + delta_ns) as u64,
                count: (m.meter.count + 1) as u64,
            }
        },
        sim_time_ns: t,
        measured_tps: if closes {
            m.meter.spec_rate_of_window(delta_ns)
        } else {
            m.measured_tps
        },
        quit: m.quit || inp.quit,
    }
}

/// The snapshot a state publishes: each body reduced to its draw pose.
pub open spec fn spec_snapshot_of(m: SimModel) -> SnapshotModel {
    SnapshotModel {
        camera: m.camera,
        bodies: m.bodies.map_values(
            |b: OrbitBody| BodyPose {
                center_x: b.params.center_x,
                center_y: b.params.center_y,
                radius: b.params.radius,
                angle_ut: b.angle_ut,
            },
        ),
        measured_tps: m.measured_tps,
        quit: m.quit,
    }
}

/// The state after the first `n` ticks of a scripted run.
pub open spec fn spec_run(m: SimModel, script: Seq<TickInput>, n: int) -> SimModel
    decreases n,
{
    if n <= 0 {
        m
    } else {
        spec_tick(spec_run(m, script, n - 1), script[n - 1].events@, script[n - 1].delta_ns)
    }
}

/// The synthetic inputs of one simulated tick: the events its poll drained
/// and the measured (or simulated) delta since the previous tick.
#[derive(Clone)]
pub struct TickInput {
    pub events: Vec<InputEvent>,
    pub delta_ns: u64,
}

/// The mutable model owned exclusively by the simulation thread: user input
/// as last polled, the camera, the orbiting bodies, the tick-rate meter and
/// its latest reading, elapsed simulation time, and the quit flag.
pub struct SimState {
    pub input: UserInput,
    pub camera: Camera,
    pub bodies: Vec<OrbitBody>,
    pub meter: RateMeter,
    pub sim_time_ns: u64,
    pub measured_tps: u32,
    pub quit: bool,
}

impl SimState {
    pub open spec fn model(self) -> SimModel {
        SimModel {
            input: self.input,
            camera: self.camera,
            bodies: self.bodies@,
            meter: self.meter,
            sim_time_ns: self.sim_time_ns,
            measured_tps: self.measured_tps,
            quit: self.quit,
        }
    }

    pub open spec fn wf(self) -> bool {
        self.model().wf()
    }

    /// A fresh simulation sized to the window's pixel dimensions, with no
    /// bodies, at simulation time zero, measuring tick rate over
    /// `window_ns`.
    pub fn new(width_px: u32, height_px: u32, window_ns: u64) -> (r: SimState)
        requires
            1 <= width_px <= DIM_MAX,
            1 <= height_px <= DIM_MAX,
            1 <= window_ns <= MAX_WINDOW_NS,
        ensures
            r.wf(),
            r.input == UserInput::spec_initial(),
            r.camera == Camera::spec_initial(width_px, height_px),
            r.bodies@.len() == 0,
            r.meter == (RateMeter { window_ns, delta_sum_ns: 0, count: 0 }),
            r.sim_time_ns == 0,
            r.measured_tps == 0,
            !r.quit,
    {
        SimState {
            input: UserInput::new(),
            camera: Camera::new(width_px, height_px),
            bodies: Vec::new(),
            meter: RateMeter::new(window_ns),
            sim_time_ns: 0,
            measured_tps: 0,
            quit: false,
        }
    }

    /// Add one orbiting body, its angle derived at the current simulation
    /// time.
    pub fn add_body(&mut self, params: OrbitParams)
        requires
            old(self).wf(),
            params.wf(),
        ensures
            final(self).wf(),
            final(self).model() == (SimModel {
                bodies: old(self).model().bodies.push(
                    OrbitBody {
                        params,
                        angle_ut: spec_angle_at(params.phase_ut, params.rate_ut_per_s, old(self).sim_time_ns),
                    },
                ),
                ..old(self).model()
            }),
    {
        let angle: u64 = angle_at(&params, self.sim_time_ns);
        self.bodies.push(OrbitBody { params, angle_ut: angle });
        proof {
            assert(final(self).model() =~= SimModel {
                bodies: old(self).model().bodies.push(
                    OrbitBody {
                        params,
                        angle_ut: spec_angle_at(params.phase_ut, params.rate_ut_per_s, old(self).sim_time_ns),
                    },
                ),
                ..old(self).model()
            });
        }
    }

    /// One simulation tick: exactly `spec_tick` on the state's model.
    pub fn tick(&mut self, events: &Vec<InputEvent>, delta_ns: u64)
        requires
            old(self).wf(),
            delta_ns <= MAX_DELTA_NS,
        ensures
            final(self).wf(),
            final(self).model() == spec_tick(old(self).model(), events@, delta_ns),
    {
        self.input.apply_events(events);
        if self.input.quit {
            self.quit = true;
        }
        self.camera = self.camera.integrate(&self.input);
        self.input.pan_dx = 0;
        self.input.pan_dy = 0;
        self.input.zoom_steps = 0;
        self.sim_time_ns = if delta_ns > u64::MAX - self.sim_time_ns {
            u64::MAX
        } else {
            self.sim_time_ns + delta_ns
        };
        let t: u64 = self.sim_time_ns;
        let n: usize = self.bodies.len();
        proof {
            assert(forall|j: int| 0 <= j < self.bodies@.len()
                ==> self.bodies@[j] == old(self).model().bodies[j]);
        }
        let mut advanced: Vec<OrbitBody> = Vec::new();
        let mut i: usize = 0;
        while i < n
            invariant
                0 <= i <= n,
                n == self.bodies@.len(),
                forall|j: int| 0 <= j < n ==> self.bodies@[j].wf(),
                advanced@.len() == i,
                forall|j: int| 0 <= j < i ==> advanced@[j] == (OrbitBody {
                    params: self.bodies@[j].params,
                    angle_ut: spec_angle_at(
                        self.bodies@[j].params.phase_ut,
                        self.bodies@[j].params.rate_ut_per_s,
                        t,
                    ),
                }),
                forall|j: int| 0 <= j < i ==> advanced@[j].wf(),
            decreases n - i,
        {
            let b: OrbitBody = self.bodies[i];
            let angle: u64 = angle_at(&b.params, t);
            advanced.push(OrbitBody { params: b.params, angle_ut: angle });
            i = i + 1;
        }
        self.bodies = advanced;
        match self.meter.record(delta_ns) {
            Some(rate) => {
                self.measured_tps = rate;
            },
            None => {},
        }
        proof {
            assert(final(self).model().bodies =~= spec_tick(old(self).model(), events@, delta_ns).bodies);
            assert(final(self).model() =~= spec_tick(old(self).model(), events@, delta_ns));
        }
    }

    /// Publish-ready copy of the state: exactly `spec_snapshot_of` the
    /// model.
    pub fn make_snapshot(&self) -> (r: Snapshot)
        ensures
            r.model() == spec_snapshot_of(self.model()),
    {
        let n: usize = self.bodies.len();
        let mut poses: Vec<BodyPose> = Vec::new();
        let mut i: usize = 0;
        while i < n
            invariant
                0 <= i <= n,
                n == self.bodies@.len(),
                poses@.len() == i,
                forall|j: int| 0 <= j < i ==> poses@[j] == (BodyPose {
                    center_x: self.bodies@[j].params.center_x,
                    center_y: self.bodies@[j].params.center_y,
                    radius: self.bodies@[j].params.radius,
                    angle_ut: self.bodies@[j].angle_ut,
                }),
            decreases n - i,
        {
            let b: OrbitBody = self.bodies[i];
            poses.push(BodyPose {
                center_x: b.params.center_x,
                center_y: b.params.center_y,
                radius: b.params.radius,
                angle_ut: b.angle_ut,
            });
            i = i + 1;
        }
        let r = Snapshot {
            camera: self.camera,
            bodies: poses,
            measured_tps: self.measured_tps,
            quit: self.quit,
        };
        proof {
            assert(r.model().bodies =~= spec_snapshot_of(self.model()).bodies);
            assert(r.model() =~= spec_snapshot_of(self.model()));
        }
        r
    }

    /// Run the simulation loop over a synthetic script of tick inputs, as
    /// deterministic tests drive it: one tick per script entry, publishing
    /// a snapshot after every tick, stopping after the first tick that
    /// leaves the quit flag set.  Once quit is observed, no further tick
    /// runs and no further snapshot is published.
    pub fn run_script(&mut self, script: &Vec<TickInput>) -> (published: Vec<Snapshot>)
        requires
            old(self).wf(),
            forall|i: int| 0 <= i < script@.len() ==> script@[i].delta_ns <= MAX_DELTA_NS,
        ensures
            final(self).wf(),
            published@.len() <= script@.len(),
            final(self).model() == spec_run(old(self).model(), script@, published@.len() as int),
            forall|i: int| 0 <= i < published@.len()
                ==> published@[i].model() == spec_snapshot_of(
                    spec_run(old(self).model(), script@, i + 1),
                ),
            forall|i: int| 1 <= i < published@.len()
                ==> !spec_run(old(self).model(), script@, i).quit,
            published@.len() < script@.len()
                ==> spec_run(old(self).model(), script@, published@.len() as int).quit,
    {
        let n: usize = script.len();
        let mut published: Vec<Snapshot> = Vec::new();
        let mut i: usize = 0;
        let mut stopped: bool = false;
        while i < n && !stopped
            invariant
                0 <= i <= n,
                n == script@.len(),
                forall|k: int| 0 <= k < script@.len() ==> script@[k].delta_ns <= MAX_DELTA_NS,
                self.wf(),
                published@.len() == i,
                self.model() == spec_run(old(self).model(), script@, i as int),
                forall|k: int| 0 <= k < i ==> published@[k].model() == spec_snapshot_of(
                    spec_run(old(self).model(), script@, k + 1),
                ),
                forall|k: int| 1 <= k < i ==> !spec_run(old(self).model(), script@, k).quit,
                stopped == (i > 0 && spec_run(old(self).model(), script@, i as int).quit),
            decreases n - i,
        {
            let entry: &TickInput = &script[i];
            self.tick(&entry.events, entry.delta_ns);
            let snap: Snapshot = self.make_snapshot();
            published.push(snap);
            if self.quit {
                stopped = true;
            }
            i = i + 1;
        }
        published
    }
}

} // verus!
