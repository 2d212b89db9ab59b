use vstd::prelude::*;

verus! {

/// Bound on the pan and zoom accumulators: event intake clamps into
/// `[-ACC_MAX, ACC_MAX]` so that later camera arithmetic cannot overflow.
pub const ACC_MAX: i64 = 0x8000_0000;

/// One discrete input event, as handed over by the windowing collaborator's
/// non-blocking poll.  Pointer coordinates are window pixels.
#[derive(Clone, Copy, PartialEq, Eq, Structural)]
pub enum InputEvent {
    /// The user asked to close the window.
    CloseRequested,
    PointerMoved { x: i32, y: i32 },
    ButtonPressed,
    ButtonReleased,
    /// Wheel or pinch zoom, in whole steps; positive zooms in.
    Zoom { steps: i32 },
}

/// The simulation thread's view of user input: the pointer, whether a drag
/// is in progress, the pan/zoom accumulated since the camera last consumed
/// them, and whether quitting was requested.  Mutated only by the
/// simulation thread's event-intake phase.
#[derive(Clone, Copy, PartialEq, Eq, Structural)]
pub struct UserInput {
    pub pointer_x: i32,
    pub pointer_y: i32,
    pub dragging: bool,
    /// Drag distance accumulated since the last camera update, pixels.
    pub pan_dx: i64,
    pub pan_dy: i64,
    /// Zoom steps accumulated since the last camera update.
    pub zoom_steps: i64,
    pub quit: bool,
}

/// `v` clamped into `[lo, hi]`.
pub open spec fn spec_clamped(v: int, lo: int, hi: int) -> int {
    if v < lo {
        lo
    } else if v > hi {
        hi
    } else {
        v
    }
}

/// The input state after one event is applied: a close request latches the
/// quit flag; pointer motion during a drag accumulates clamped pan; button
/// presses bracket a drag; zoom accumulates clamped steps.
pub open spec fn spec_apply_event(inp: UserInput, e: InputEvent) -> UserInput {
    match e {
        InputEvent::CloseRequested => UserInput { quit: true, ..inp },
        InputEvent::PointerMoved { x, y } => {
            if inp.dragging {
                UserInput {
                    pointer_x: x,
                    pointer_y: y,
                    pan_dx: spec_clamped(
                        inp.pan_dx + (x - inp.pointer_x),
                        -ACC_MAX as int,
                        ACC_MAX as int,
                    ) as i64,
                    pan_dy: spec_clamped(
                        inp.pan_dy + (y - inp.pointer_y),
                        -ACC_MAX as int,
                        ACC_MAX as int,
                    ) as i64,
                    ..inp
                }
            } else {
                UserInput { pointer_x: x, pointer_y: y, ..inp }
            }
        },
        InputEvent::ButtonPressed => UserInput { dragging: true, ..inp },
        InputEvent::ButtonReleased => UserInput { dragging: false, ..inp },
        InputEvent::Zoom { steps } => UserInput {
            zoom_steps: spec_clamped(
                inp.zoom_steps + steps,
                -ACC_MAX as int,
                ACC_MAX as int,
            ) as i64,
            ..inp
        },
    }
}

/// The input state after a whole batch of polled events, oldest first.
pub open spec fn spec_apply_events(inp: UserInput, evs: Seq<InputEvent>) -> UserInput
    decreases evs.len(),
{
    if evs.len() == 0 {
        inp
    } else {
        spec_apply_event(spec_apply_events(inp, evs.drop_last()), evs.last())
    }
}

/// Whether a batch of events carries a close request.
pub open spec fn spec_has_close(evs: Seq<InputEvent>) -> bool {
    exists|i: int| 0 <= i < evs.len() && evs[i] is CloseRequested
}

/// The input state with the pan and zoom accumulators drained, as left
/// behind once the camera has consumed them.
pub open spec fn spec_drained(inp: UserInput) -> UserInput {
    UserInput { pan_dx: 0, pan_dy: 0, zoom_steps: 0, ..inp }
}

impl UserInput {
    /// The fresh input state: pointer at the origin, nothing accumulated,
    /// no quit requested.
    pub open spec fn spec_initial() -> UserInput {
        UserInput {
            pointer_x: 0,
            pointer_y: 0,
            dragging: false,
            pan_dx: 0,
            pan_dy: 0,
            zoom_steps: 0,
            quit: false,
        }
    }

    /// Accumulators stay inside the clamp bound.
    pub open spec fn wf(self) -> bool {
        &&& -ACC_MAX <= self.pan_dx <= ACC_MAX
        &&& -ACC_MAX <= self.pan_dy <= ACC_MAX
        &&& -ACC_MAX <= self.zoom_steps <= ACC_MAX
    }

    /// Fresh input state: pointer at the origin, nothing accumulated,
    /// no quit requested.
    pub fn new() -> (r: UserInput)
        ensures
            r.wf(),
            r == UserInput::spec_initial(),
    {
        UserInput {
            pointer_x: 0,
            pointer_y: 0,
            dragging: false,
            pan_dx: 0,
            pan_dy: 0,
            zoom_steps: 0,
            quit: false,
        }
    }

    /// Apply one polled event.
    pub fn apply_event(&mut self, e: &InputEvent)
        requires
            old(self).wf(),
        ensures
            *final(self) == spec_apply_event(*old(self), *e),
            final(self).wf(),
    {
        match *e {
            InputEvent::CloseRequested => {
                self.quit = true;
            },
            InputEvent::PointerMoved { x, y } => {
                if self.dragging {
                    self.pan_dx = acc_add(self.pan_dx, (x as i64) - (self.pointer_x as i64));
                    self.pan_dy = acc_add(self.pan_dy, (y as i64) - (self.pointer_y as i64));
                }
                self.pointer_x = x;
                self.pointer_y = y;
            },
            InputEvent::ButtonPressed => {
                self.dragging = true;
            },
            InputEvent::ButtonReleased => {
                self.dragging = false;
            },
            InputEvent::Zoom { steps } => {
                self.zoom_steps = acc_add(self.zoom_steps, steps as i64);
            },
        }
    }

    /// Apply a whole batch of polled events, oldest first.
    pub fn apply_events(&mut self, evs: &Vec<InputEvent>)
        requires
            old(self).wf(),
        ensures
            *final(self) == spec_apply_events(*old(self), evs@),
            final(self).wf(),
    {
        let n: usize = evs.len();
        let mut i: usize = 0;
        while i < n
            invariant
                0 <= i <= n,
                n == evs@.len(),
                *self == spec_apply_events(*old(self), evs@.take(i as int)),
                self.wf(),
            decreases n - i,
        {
            self.apply_event(&evs[i]);
            proof {
                assert(evs@.take((i + 1) as int).drop_last() =~= evs@.take(i as int));
                assert(evs@.take((i + 1) as int).last() == evs@[i as int]);
            }
            i = i + 1;
        }
        proof {
            assert(evs@.take(n as int) =~= evs@);
        }
    }
}

/// `acc + delta`, clamped into the accumulator bound.
fn acc_add(acc: i64, delta: i64) -> (r: i64)
    requires
        -ACC_MAX <= acc <= ACC_MAX,
        -0x2_0000_0000 <= delta <= 0x2_0000_0000,
    ensures
        r == spec_clamped(acc + delta, -ACC_MAX as int, ACC_MAX as int),
{
    let sum: i64 = acc + delta;
    if sum < -ACC_MAX {
        -ACC_MAX
    } else if sum > ACC_MAX {
        ACC_MAX
    } else {
        sum
    }
}

/// Applying events never clears an already-latched quit request.
pub proof fn lemma_quit_is_latched(inp: UserInput, evs: Seq<InputEvent>)
    requires
        inp.quit,
    ensures
        spec_apply_events(inp, evs).quit,
    decreases evs.len(),
{
    if evs.len() > 0 {
        lemma_quit_is_latched(inp, evs.drop_last());
    }
}

/// A batch that carries a close request leaves the quit flag set: the
/// simulation observes a quit within the very tick that polled it.
pub proof fn lemma_close_sets_quit(inp: UserInput, evs: Seq<InputEvent>)
    requires
        spec_has_close(evs),
    ensures
        spec_apply_events(inp, evs).quit,
    decreases evs.len(),
{
    let i = choose|i: int| 0 <= i < evs.len() && evs[i] is CloseRequested;
    if i == evs.len() - 1 {
        assert(evs.last() is CloseRequested);
    } else {
        assert(evs.drop_last()[i] is CloseRequested);
        lemma_close_sets_quit(inp, evs.drop_last());
    }
}

} // verus!
