use vstd::prelude::*;

verus! {

/// Nanoseconds in one second, the unit conversion used by rate measurement.
pub const NANOS_PER_SEC: u64 = 1_000_000_000;

/// Largest single delta a meter accepts, about 146 years in nanoseconds;
/// keeps every internal sum inside `u64`.
pub const MAX_DELTA_NS: u64 = 0x4000_0000_0000_0000;

/// Largest measurement window a meter can be configured with.
pub const MAX_WINDOW_NS: u64 = 0x4000_0000_0000_0000;

/// A measurement closes after this many samples even if the configured time
/// window has not elapsed, so the sample count stays bounded.
pub const MAX_SAMPLES: u64 = 0x1_0000_0000;

/// Rate in whole events per second measured from `count` events over
/// `sum_ns` nanoseconds, rounded to the nearest integer (halves up).
/// Meaningful only for `sum_ns >= 1`.
pub open spec fn spec_rounded_rate(count: nat, sum_ns: nat) -> nat
    recommends sum_ns >= 1,
{
    (count * (NANOS_PER_SEC as nat) + sum_ns / 2) / sum_ns
}

/// `v` clamped into `u32`.
pub open spec fn spec_clamp_u32(v: nat) -> u32 {
    if v >= u32::MAX { u32::MAX } else { v as u32 }
}

/// Rolling accumulator that averages iteration deltas over a fixed
/// measurement window and produces a rounded events-per-second rate each
/// time the window elapses; used for the on-screen tick-rate and frame-rate
/// diagnostics only, never for control decisions.
pub struct RateMeter {
    /// Length of one measurement window in nanoseconds.
    pub window_ns: u64,
    /// Deltas accumulated since the current window opened.
    pub delta_sum_ns: u64,
    /// Samples recorded since the current window opened.
    pub count: u64,
}

impl RateMeter {
    /// A meter is well formed when its window is a positive length inside
    /// the supported bound and its accumulators lie inside the open window.
    pub open spec fn wf(self) -> bool {
        &&& 1 <= self.window_ns <= MAX_WINDOW_NS
        &&& self.delta_sum_ns < self.window_ns
        &&& self.count < MAX_SAMPLES
    }

    /// Whether recording `delta_ns` closes the current window.
    pub open spec fn spec_closes(self, delta_ns: u64) -> bool {
        self.delta_sum_ns + delta_ns >= self.window_ns || self.count + 1 >= MAX_SAMPLES
    }

    /// The rate reported when recording `delta_ns` closes the window: the
    /// rounded mean rate over the window, clamped into `u32`; a window
    /// closed by the sample cap with zero elapsed time reads as saturated.
    pub open spec fn spec_rate_of_window(self, delta_ns: u64) -> u32 {
        if self.delta_sum_ns + delta_ns == 0 {
            u32::MAX
        } else {
            spec_clamp_u32(spec_rounded_rate(
                (self.count + 1) as nat,
                (self.delta_sum_ns + delta_ns) as nat,
            ))
        }
    }

    pub fn new(window_ns: u64) -> (r: RateMeter)
        requires
            1 <= window_ns <= MAX_WINDOW_NS,
        ensures
            r.wf(),
            r.window_ns == window_ns,
            r.delta_sum_ns == 0,
            r.count == 0,
    {
        RateMeter { window_ns, delta_sum_ns: 0, count: 0 }
    }

    /// Record one iteration delta.  Returns the measured rate when this
    /// delta closes the measurement window (which also resets the
    /// accumulators), and `None` while the window is still open.
    pub fn record(&mut self, delta_ns: u64) -> (rate: Option<u32>)
        requires
            old(self).wf(),
            delta_ns <= MAX_DELTA_NS,
        ensures
            final(self).wf(),
            final(self).window_ns == old(self).window_ns,
            old(self).spec_closes(delta_ns) ==> {
                &&& rate == Some(old(self).spec_rate_of_window(delta_ns))
                &&& final(self).delta_sum_ns == 0
                &&& final(self).count == 0
            },
            !old(self).spec_closes(delta_ns) ==> {
                &&& rate is None
                &&& final(self).delta_sum_ns == old(self).delta_sum_ns + delta_ns
                &&& final(self).count == old(self).count + 1
            },
    {
        let sum: u64 = self.delta_sum_ns + delta_ns;
        let count: u64 = self.count + 1;
        if sum >= self.window_ns || count >= MAX_SAMPLES {
            let rate: u32 = if sum == 0 {
                u32::MAX
            } else {
                let raw: u64 = (count * NANOS_PER_SEC + sum / 2) / sum;
                if raw >= u32::MAX as u64 {
                    u32::MAX
                } else {
                    raw as u32
                }
            };
            self.delta_sum_ns = 0;
            self.count = 0;
            Some(rate)
        } else {
            self.delta_sum_ns = sum;
            self.count = count;
            None
        }
    }
}

/// `record` as a mathematical function: the meter afterwards and the rate
/// it reported.
pub open spec fn spec_record(m: RateMeter, delta_ns: u64) -> (RateMeter, Option<u32>) {
    if m.spec_closes(delta_ns) {
        (
            RateMeter { window_ns: m.window_ns, delta_sum_ns: 0, count: 0 },
            Some(m.spec_rate_of_window(delta_ns)),
        )
    } else {
        (
            RateMeter {
                window_ns: m.window_ns,
                delta_sum_ns: (m.delta_sum_ns + delta_ns) as u64,
                count: (m.count + 1) as u64,
            },
            None,
        )
    }
}

/// A whole sequence of deltas recorded in order: the meter afterwards and
/// the rate the last record reported.
pub open spec fn spec_record_seq(m: RateMeter, deltas: Seq<u64>) -> (RateMeter, Option<u32>)
    decreases deltas.len(),
{
    if deltas.len() == 0 {
        (m, None)
    } else {
        spec_record(spec_record_seq(m, deltas.drop_last()).0, deltas.last())
    }
}

/// Total of a sequence of deltas.
pub open spec fn spec_sum(deltas: Seq<u64>) -> int
    decreases deltas.len(),
{
    if deltas.len() == 0 {
        0
    } else {
        spec_sum(deltas.drop_last()) + deltas.last()
    }
}

/// While the accumulated deltas stay short of the window (and the sample
/// cap), recording only accumulates: no rate is reported and nothing is
/// reset.
proof fn lemma_record_seq_stays_open(m: RateMeter, deltas: Seq<u64>)
    requires
        m.wf(),
        m.delta_sum_ns + spec_sum(deltas) < m.window_ns,
        m.count + deltas.len() < MAX_SAMPLES,
        forall|i: int| 0 <= i < deltas.len() ==> deltas[i] >= 0,
    ensures
        spec_record_seq(m, deltas).0 == (RateMeter {
            window_ns: m.window_ns,
            delta_sum_ns: (m.delta_sum_ns + spec_sum(deltas)) as u64,
            count: (m.count + deltas.len()) as u64,
        }),
        spec_record_seq(m, deltas).1 is None || deltas.len() == 0,
    decreases deltas.len(),
{
    lemma_sum_bounds(deltas);
    if deltas.len() > 0 {
        lemma_sum_bounds(deltas.drop_last());
        lemma_record_seq_stays_open(m, deltas.drop_last());
    }
}

/// Every delta is non-negative, so partial sums never exceed the total.
proof fn lemma_sum_bounds(deltas: Seq<u64>)
    ensures
        spec_sum(deltas) >= 0,
        deltas.len() > 0 ==> spec_sum(deltas.drop_last()) <= spec_sum(deltas),
    decreases deltas.len(),
{
    if deltas.len() > 0 {
        lemma_sum_bounds(deltas.drop_last());
    }
}

/// The measured-rate computation over one whole measurement window: a fresh
/// meter fed positive deltas that sum to exactly its window reports, on the
/// last of them, the rounded mean rate `round(count / window seconds)`, and
/// comes out reset for the next window.
pub proof fn lemma_window_rate(m: RateMeter, deltas: Seq<u64>)
    requires
        m.wf(),
        m.delta_sum_ns == 0,
        m.count == 0,
        1 <= deltas.len(),
        m.count + deltas.len() < MAX_SAMPLES,
        forall|i: int| 0 <= i < deltas.len() ==> 1 <= deltas[i],
        spec_sum(deltas) == m.window_ns,
    ensures
        spec_record_seq(m, deltas).1 == Some(
            spec_clamp_u32(spec_rounded_rate(deltas.len() as nat, m.window_ns as nat)),
        ),
        spec_record_seq(m, deltas).0.delta_sum_ns == 0,
        spec_record_seq(m, deltas).0.count == 0,
{
    let prefix = deltas.drop_last();
    lemma_sum_positive_all(prefix);
    assert(spec_sum(prefix) + deltas.last() == m.window_ns);
    lemma_record_seq_stays_open(m, prefix);
    let opened = spec_record_seq(m, prefix).0;
    assert(opened.delta_sum_ns + deltas.last() == m.window_ns);
    assert(opened.spec_closes(deltas.last()));
}

/// A sequence of positive deltas of length `n` sums to at least `n`.
proof fn lemma_sum_positive_all(deltas: Seq<u64>)
    requires
        forall|i: int| 0 <= i < deltas.len() ==> 1 <= deltas[i],
    ensures
        spec_sum(deltas) >= deltas.len(),
    decreases deltas.len(),
{
    if deltas.len() > 0 {
        lemma_sum_positive_all(deltas.drop_last());
    }
}

} // verus!
