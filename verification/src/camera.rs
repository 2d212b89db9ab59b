use vstd::prelude::*;
use crate::input::ACC_MAX;
use crate::input::UserInput;
use crate::input::spec_clamped;

verus! {

/// Finest zoom: one world micro-unit per pixel.
pub const SCALE_MIN: i64 = 1;

/// Coarsest zoom, micro-units per pixel.
pub const SCALE_MAX: i64 = 1_000_000_000;

/// Bound on the camera center, world micro-units.
pub const CENTER_MAX: i64 = 0x4_0000_0000_0000;

/// Largest window dimension the camera accepts, pixels.
pub const DIM_MAX: u32 = 16384;

/// The view transform of the render: where the camera looks (world
/// micro-units), how many micro-units one pixel covers, and the window it
/// projects into.  These are the projection parameters the rendering
/// collaborator consumes.
#[derive(Clone, Copy, PartialEq, Eq, Structural)]
pub struct Camera {
    pub center_x: i64,
    pub center_y: i64,
    /// World micro-units covered by one pixel.
    pub scale: i64,
    pub width_px: u32,
    pub height_px: u32,
}

/// The axis-aligned box of world coordinates visible through the camera,
/// used to cull off-screen curve geometry.
#[derive(Clone, Copy, PartialEq, Eq, Structural)]
pub struct WorldRange {
    pub min_x: i64,
    pub min_y: i64,
    pub max_x: i64,
    pub max_y: i64,
}

/// The scale after one zoom step: a step in shrinks the per-pixel coverage
/// by a tenth, a step out grows it by at least one unit, both held inside
/// the supported scale band.
pub open spec fn spec_zoom_once(scale: int, zoom_in: bool) -> int {
    if zoom_in {
        let s = scale * 9 / 10;
        if s < SCALE_MIN {
            SCALE_MIN as int
        } else {
            s
        }
    } else {
        let s = if scale * 10 / 9 > scale + 1 {
            scale * 10 / 9
        } else {
            scale + 1
        };
        if s > SCALE_MAX {
            SCALE_MAX as int
        } else {
            s
        }
    }
}

/// The scale after a signed number of zoom steps, applied one at a time.
pub open spec fn spec_zoom(scale: int, steps: int) -> int
    decreases (if steps < 0 { -steps } else { steps }),
{
    if steps == 0 {
        scale
    } else if steps > 0 {
        spec_zoom(spec_zoom_once(scale, true), steps - 1)
    } else {
        spec_zoom(spec_zoom_once(scale, false), steps + 1)
    }
}

impl Camera {
    pub open spec fn wf(self) -> bool {
        &&& SCALE_MIN <= self.scale <= SCALE_MAX
        &&& -CENTER_MAX <= self.center_x <= CENTER_MAX
        &&& -CENTER_MAX <= self.center_y <= CENTER_MAX
        &&& 1 <= self.width_px <= DIM_MAX
        &&& 1 <= self.height_px <= DIM_MAX
    }

    /// The camera after consuming the input accumulators: dragging by a
    /// pixel moves the view center by one pixel's worth of world units
    /// against the drag, and accumulated zoom steps rescale the view; the
    /// center is clamped into the supported world band.
    pub open spec fn spec_integrate(self, inp: UserInput) -> Camera {
        Camera {
            center_x: spec_clamped(
                self.center_x - inp.pan_dx * self.scale,
                -CENTER_MAX as int,
                CENTER_MAX as int,
            ) as i64,
            center_y: spec_clamped(
                self.center_y - inp.pan_dy * self.scale,
                -CENTER_MAX as int,
                CENTER_MAX as int,
            ) as i64,
            scale: spec_zoom(self.scale as int, inp.zoom_steps as int) as i64,
            ..self
        }
    }

    /// The world box the camera can see: half the window's world coverage
    /// on each side of the center.
    pub open spec fn spec_visible_range(self) -> WorldRange {
        WorldRange {
            min_x: (self.center_x - self.width_px * self.scale / 2) as i64,
            min_y: (self.center_y - self.height_px * self.scale / 2) as i64,
            max_x: (self.center_x + self.width_px * self.scale / 2) as i64,
            max_y: (self.center_y + self.height_px * self.scale / 2) as i64,
        }
    }

    /// A camera over the origin at the coarse default scale, sized to the
    /// window's pixel dimensions.
    pub open spec fn spec_initial(width_px: u32, height_px: u32) -> Camera {
        Camera { center_x: 0, center_y: 0, scale: 1_000_000, width_px, height_px }
    }

    pub fn new(width_px: u32, height_px: u32) -> (r: Camera)
        requires
            1 <= width_px <= DIM_MAX,
            1 <= height_px <= DIM_MAX,
        ensures
            r.wf(),
            r == Camera::spec_initial(width_px, height_px),
    {
        Camera { center_x: 0, center_y: 0, scale: 1_000_000, width_px, height_px }
    }

    /// Checks well-formedness at run time, for values that arrive from
    /// outside any verified constructor.
    pub fn is_well_formed(&self) -> (r: bool)
        ensures
            r == self.wf(),
    {
        SCALE_MIN <= self.scale && self.scale <= SCALE_MAX
            && -CENTER_MAX <= self.center_x && self.center_x <= CENTER_MAX
            && -CENTER_MAX <= self.center_y && self.center_y <= CENTER_MAX
            && 1 <= self.width_px && self.width_px <= DIM_MAX
            && 1 <= self.height_px && self.height_px <= DIM_MAX
    }

    /// Consume the input accumulators into a new camera pose.
    pub fn integrate(&self, inp: &UserInput) -> (r: Camera)
        requires
            self.wf(),
            inp.wf(),
        ensures
            r == self.spec_integrate(*inp),
            r.wf(),
    {
        proof {
            lemma_pan_product_bounded(inp.pan_dx, self.scale);
            lemma_pan_product_bounded(inp.pan_dy, self.scale);
        }
        let moved_x: i64 = clamp_i64(self.center_x - inp.pan_dx * self.scale, -CENTER_MAX, CENTER_MAX);
        let moved_y: i64 = clamp_i64(self.center_y - inp.pan_dy * self.scale, -CENTER_MAX, CENTER_MAX);
        let scale: i64 = zoom_scale(self.scale, inp.zoom_steps);
        Camera { center_x: moved_x, center_y: moved_y, scale, ..*self }
    }

    /// The world box visible through a well-formed camera.
    pub fn visible_world_range(&self) -> (r: WorldRange)
        requires
            self.wf(),
        ensures
            r == self.spec_visible_range(),
            r.min_x <= r.max_x,
            r.min_y <= r.max_y,
    {
        proof {
            lemma_dim_product_bounded(self.width_px, self.scale);
            lemma_dim_product_bounded(self.height_px, self.scale);
        }
        let half_w: i64 = (self.width_px as i64) * self.scale / 2;
        let half_h: i64 = (self.height_px as i64) * self.scale / 2;
        WorldRange {
            min_x: self.center_x - half_w,
            min_y: self.center_y - half_h,
            max_x: self.center_x + half_w,
            max_y: self.center_y + half_h,
        }
    }
}

/// A clamped pan displacement times a supported scale stays well inside
/// `i64`.
proof fn lemma_pan_product_bounded(pan: i64, scale: i64)
    requires
        -ACC_MAX <= pan <= ACC_MAX,
        SCALE_MIN <= scale <= SCALE_MAX,
    ensures
        -ACC_MAX * SCALE_MAX <= pan * scale <= ACC_MAX * SCALE_MAX,
{
    assert(-ACC_MAX * SCALE_MAX <= pan * scale <= ACC_MAX * SCALE_MAX) by (nonlinear_arith)
        requires
            -ACC_MAX <= pan <= ACC_MAX,
            SCALE_MIN <= scale <= SCALE_MAX,
    ;
}

/// A supported window dimension times a supported scale stays well inside
/// `i64`.
proof fn lemma_dim_product_bounded(dim: u32, scale: i64)
    requires
        1 <= dim <= DIM_MAX,
        SCALE_MIN <= scale <= SCALE_MAX,
    ensures
        0 <= dim * scale <= DIM_MAX * SCALE_MAX,
{
    assert(0 <= dim * scale <= DIM_MAX * SCALE_MAX) by (nonlinear_arith)
        requires
            1 <= dim <= DIM_MAX,
            SCALE_MIN <= scale <= SCALE_MAX,
    ;
}

/// `v` clamped into `[lo, hi]`.
fn clamp_i64(v: i64, lo: i64, hi: i64) -> (r: i64)
    requires
        lo <= hi,
    ensures
        r == spec_clamped(v as int, lo as int, hi as int),
{
    if v < lo {
        lo
    } else if v > hi {
        hi
    } else {
        v
    }
}

/// One zoom step applied to a supported scale.
fn zoom_once(scale: i64, zoom_in: bool) -> (r: i64)
    requires
        SCALE_MIN <= scale <= SCALE_MAX,
    ensures
        r == spec_zoom_once(scale as int, zoom_in),
        SCALE_MIN <= r <= SCALE_MAX,
{
    if zoom_in {
        let s: i64 = scale * 9 / 10;
        if s < SCALE_MIN {
            SCALE_MIN
        } else {
            s
        }
    } else {
        let grown: i64 = scale * 10 / 9;
        let s: i64 = if grown > scale + 1 {
            grown
        } else {
            scale + 1
        };
        if s > SCALE_MAX {
            SCALE_MAX
        } else {
            s
        }
    }
}

/// A signed number of zoom steps applied one at a time.
fn zoom_scale(scale: i64, steps: i64) -> (r: i64)
    requires
        SCALE_MIN <= scale <= SCALE_MAX,
        -ACC_MAX <= steps <= ACC_MAX,
    ensures
        r == spec_zoom(scale as int, steps as int),
        SCALE_MIN <= r <= SCALE_MAX,
{
    let mut s: i64 = scale;
    let mut k: i64 = steps;
    while k != 0
        invariant
            SCALE_MIN <= s <= SCALE_MAX,
            -ACC_MAX <= k <= ACC_MAX,
            spec_zoom(s as int, k as int) == spec_zoom(scale as int, steps as int),
        decreases (if k < 0 { -(k as int) } else { k as int }),
    {
        if k > 0 {
            s = zoom_once(s, true);
            k = k - 1;
        } else {
            s = zoom_once(s, false);
            k = k + 1;
        }
    }
    s
}

} // verus!
