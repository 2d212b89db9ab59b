use vstd::prelude::*;

verus! {

/// One full turn, in micro-turns: all angles live in `[0, TURN)`.
pub const TURN: u64 = 1_000_000;

/// Nanoseconds in one second (angular rates are given per second).
pub const RATE_NANOS_PER_SEC: u64 = 1_000_000_000;

/// The fixed orbital parameters of one body: where its orbit is centered,
/// how wide it is, and how the body's angular position is parametrized over
/// simulation time.  World lengths are in micro-units.
#[derive(Clone, Copy, PartialEq, Eq, Structural)]
pub struct OrbitParams {
    /// Orbit center, world micro-units.
    pub center_x: i64,
    /// Orbit center, world micro-units.
    pub center_y: i64,
    /// Orbit radius, world micro-units.
    pub radius: i64,
    /// Angular position at simulation time zero, micro-turns in `[0, TURN)`.
    pub phase_ut: u64,
    /// Signed angular rate, micro-turns per second; negative is retrograde.
    pub rate_ut_per_s: i64,
}

/// One orbiting body: fixed parameters plus the angular position last
/// derived from simulation time.  The derived angle is never integrated:
/// each tick recomputes it from the parameters and the current time alone.
#[derive(Clone, Copy, PartialEq, Eq, Structural)]
pub struct OrbitBody {
    pub params: OrbitParams,
    /// Derived angular position, micro-turns in `[0, TURN)`.
    pub angle_ut: u64,
}

/// Micro-turns of angle swept after `t_ns` nanoseconds at a rate of
/// `rate_abs` micro-turns per second, reduced modulo one turn.
pub open spec fn spec_swept_ut(rate_abs: nat, t_ns: nat) -> nat {
    ((rate_abs * t_ns) / (RATE_NANOS_PER_SEC as nat)) % (TURN as nat)
}

/// Angular position at simulation time `t_ns` of a body with the given
/// phase and signed rate: the phase advanced (or, for a negative rate,
/// retarded) by the swept angle, reduced into `[0, TURN)`.  A pure function
/// of the parameters and the time: no previous position enters.
pub open spec fn spec_angle_at(phase_ut: u64, rate_ut_per_s: i64, t_ns: u64) -> u64
    recommends phase_ut < TURN,
{
    let swept = spec_swept_ut(abs_i64(rate_ut_per_s), t_ns as nat) as int;
    if rate_ut_per_s >= 0 {
        (((phase_ut as int) + swept) % (TURN as int)) as u64
    } else {
        (((phase_ut as int) + (TURN as int) - swept) % (TURN as int)) as u64
    }
}

/// Absolute value of `v` as a mathematical natural.
pub open spec fn abs_i64(v: i64) -> nat {
    if v >= 0 { v as nat } else { (-(v as int)) as nat }
}

impl OrbitParams {
    /// Parameters are well formed when the phase is a reduced angle.
    pub open spec fn wf(self) -> bool {
        self.phase_ut < TURN
    }
}

impl OrbitBody {
    pub open spec fn wf(self) -> bool {
        &&& self.params.wf()
        &&& self.angle_ut < TURN
    }

    /// A body at simulation time zero, its derived angle at its phase.
    pub fn new(params: OrbitParams) -> (r: OrbitBody)
        requires
            params.wf(),
        ensures
            r.wf(),
            r.params == params,
            r.angle_ut == params.phase_ut,
    {
        OrbitBody { params, angle_ut: params.phase_ut }
    }
}

/// The angular position of a body with parameters `params` at simulation
/// time `t_ns`, recomputed from scratch: the result depends on the
/// parameters and the time alone, so repeated evaluation at the same time
/// returns the identical angle and no integration drift can accumulate.
pub fn angle_at(params: &OrbitParams, t_ns: u64) -> (r: u64)
    requires
        params.wf(),
    ensures
        r == spec_angle_at(params.phase_ut, params.rate_ut_per_s, t_ns),
        r < TURN,
{
    let rate: i64 = params.rate_ut_per_s;
    let rate_abs: u64 = if rate >= 0 {
        rate as u64
    } else {
        ((-(rate + 1)) as u64) + 1
    };
    assert(rate_abs == abs_i64(rate));
    proof {
        assert((rate_abs as nat) * (t_ns as nat) <= (u64::MAX as nat) * (u64::MAX as nat))
            by (nonlinear_arith)
            requires
                rate_abs <= u64::MAX,
                t_ns <= u64::MAX,
        ;
    }
    let product: u128 = (rate_abs as u128) * (t_ns as u128);
    let swept: u64 = ((product / (RATE_NANOS_PER_SEC as u128)) % (TURN as u128)) as u64;
    if params.rate_ut_per_s >= 0 {
        (params.phase_ut + swept) % TURN
    } else {
        (params.phase_ut + TURN - swept) % TURN
    }
}

/// Two bodies with equal fixed parameters derive equal angles at equal
/// simulation times, whatever angular positions they currently carry:
/// position is a function of parameters and time, never of the previous
/// tick's position.
pub proof fn lemma_angle_free_of_history(b1: OrbitBody, b2: OrbitBody, t_ns: u64)
    requires
        b1.params == b2.params,
    ensures
        spec_angle_at(b1.params.phase_ut, b1.params.rate_ut_per_s, t_ns)
            == spec_angle_at(b2.params.phase_ut, b2.params.rate_ut_per_s, t_ns),
{
}

} // verus!
