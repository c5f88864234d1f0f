//! Orbital camera state: spherical angles, zoom distance and the animated
//! distance transition.
//!
//! The camera orbits a target point. The point itself is a floating-point
//! position owned by the renderer; what is kept here is everything the
//! controls decide: where the angles and the distance are, the bounds they
//! keep, and how a pending distance is approached frame by frame.

use vstd::prelude::*;
use crate::clock::clamp;

verus! {

/// Initial horizontal angle: 0.3 rad.
pub const DEFAULT_THETA: i64 = 300_000;

/// Initial vertical angle: 0.6 rad.
pub const DEFAULT_PHI: i64 = 600_000;

/// Initial distance from the target: 200 display units.
pub const DEFAULT_DISTANCE: i64 = 200_000;

/// Closest zoom: 5 display units.
pub const MIN_DISTANCE: i64 = 5_000;

/// Farthest zoom: 1500 display units.
pub const MAX_DISTANCE: i64 = 1_500_000;

/// Largest vertical angle either way: 1.4 rad, short of the poles.
pub const PHI_LIMIT: i64 = 1_400_000;

/// Rotation per pixel of drag: 0.005 rad.
pub const ROTATE_STEP: i64 = 5_000;

/// Zoom factor denominator: one wheel unit changes the distance by 1/1000.
pub const ZOOM_SCALE: i64 = 1000;

/// Transition rate: the fraction of the remaining way covered per second,
/// as a whole number (four times the gap per second, capped at all of it).
pub const TRANSITION_RATE: u64 = 4;

/// One whole in parts per million.
pub const PPM: u64 = 1_000_000;

/// A transition ends once it is closer than this (0.01 display units).
pub const SNAP_EPSILON: i64 = 10;

/// Distance to a focused body, in body display radii.
pub const FOCUS_RADII: i64 = 8;

/// `x` limited to the range of `i64`.
pub open spec fn saturate_i64(x: int) -> i64 {
    clamp(x, i64::MIN as int, i64::MAX as int) as i64
}

/// The distance after a zoom by `delta` wheel units, before clamping:
/// `d * (1 + delta / 1000)`, rounded down.
pub open spec fn zoomed(d: int, delta: int) -> int {
    (d * (ZOOM_SCALE + delta)) / ZOOM_SCALE as int
}

/// The fraction of the remaining way covered in `dt_micros`, in parts per
/// million, never more than the whole.
pub open spec fn spec_transition_fraction(dt_micros: u64) -> int {
    let f = dt_micros * TRANSITION_RATE;
    if f > PPM {
        PPM as int
    } else {
        f
    }
}

/// `span * alpha / PPM`, rounded up.
pub open spec fn step_toward(span: int, alpha: int) -> int {
    (span * alpha + PPM - 1) / PPM as int
}

/// `cur` moved toward `goal` by `alpha` parts per million of the gap, the
/// step rounded up so that any positive fraction makes progress.
pub open spec fn approach(cur: int, goal: int, alpha: int) -> int {
    if goal >= cur {
        cur + step_toward(goal - cur, alpha)
    } else {
        cur - step_toward(cur - goal, alpha)
    }
}

/// Distance between two integers.
pub open spec fn gap(a: int, b: int) -> int {
    if a >= b {
        a - b
    } else {
        b - a
    }
}

/// Orbital camera controls.
#[derive(Debug, Clone, Copy, PartialEq, Eq)]
pub struct Camera {
    /// Horizontal angle, in microradians.
    pub theta: i64,
    /// Vertical angle, in microradians, within `[-PHI_LIMIT, PHI_LIMIT]`.
    pub phi: i64,
    /// Distance from the target, in thousandths of a display unit.
    pub distance: i64,
    /// Closest allowed distance.
    pub min_distance: i64,
    /// Farthest allowed distance.
    pub max_distance: i64,
    /// Distance being approached, if a transition is running.
    pub pending_distance: Option<i64>,
}

/// The viewing distance for a body of `radius` with the closest zoom at
/// `min_distance`: `FOCUS_RADII` radii, but at least one and a half times the
/// closest zoom.
pub open spec fn spec_focus_distance(min_distance: i64, radius: i64) -> i64 {
    if radius as int * FOCUS_RADII > min_distance * 3 / 2 {
        saturate_i64(radius as int * FOCUS_RADII)
    } else {
        (min_distance * 3 / 2) as i64
    }
}

/// The camera after `set_target_distance(distance)`.
pub open spec fn spec_set_target_distance(c: Camera, distance: i64) -> Camera {
    Camera {
        pending_distance: Some(clamp(distance as int, c.min_distance as int, c.max_distance as int) as i64),
        ..c
    }
}

/// The default camera.
pub open spec fn default_camera() -> Camera {
    Camera {
        theta: DEFAULT_THETA,
        phi: DEFAULT_PHI,
        distance: DEFAULT_DISTANCE,
        min_distance: MIN_DISTANCE,
        max_distance: MAX_DISTANCE,
        pending_distance: None,
    }
}

/// The camera after `update_transition(dt_micros)`.
pub open spec fn spec_update_transition(c: Camera, dt_micros: u64) -> Camera {
    match c.pending_distance {
        None => c,
        Some(goal) => {
            let next = approach(c.distance as int, goal as int, spec_transition_fraction(dt_micros));
            if gap(next, goal as int) < SNAP_EPSILON {
                Camera { distance: goal, pending_distance: None, ..c }
            } else {
                Camera { distance: next as i64, ..c }
            }
        },
    }
}

/// The camera after `rotate(dx, dy)`.
pub open spec fn spec_rotate(c: Camera, dx: i64, dy: i64) -> Camera {
    Camera {
        theta: saturate_i64(c.theta - dx * ROTATE_STEP),
        phi: clamp(c.phi + dy * ROTATE_STEP, -PHI_LIMIT as int, PHI_LIMIT as int) as i64,
        ..c
    }
}

/// The camera after `zoom(delta)`.
pub open spec fn spec_zoom(c: Camera, delta: i64) -> Camera {
    Camera {
        distance: clamp(zoomed(c.distance as int, delta as int), c.min_distance as int, c.max_distance as int) as i64,
        ..c
    }
}

/// The camera after zooming by each delta in turn.
pub open spec fn zoom_all(c: Camera, deltas: Seq<i64>) -> Camera
    decreases deltas.len(),
{
    if deltas.len() == 0 {
        c
    } else {
        zoom_all(spec_zoom(c, deltas[0]), deltas.drop_first())
    }
}

/// The camera after rotating by each `(dx, dy)` in turn.
pub open spec fn rotate_all(c: Camera, drags: Seq<(i64, i64)>) -> Camera
    decreases drags.len(),
{
    if drags.len() == 0 {
        c
    } else {
        rotate_all(spec_rotate(c, drags[0].0, drags[0].1), drags.drop_first())
    }
}

impl Camera {
    /// Bounds are ordered and positive; angle, distance and pending distance
    /// keep within them.
    pub open spec fn wf(&self) -> bool {
        &&& 0 < self.min_distance <= self.max_distance <= MAX_DISTANCE
        &&& self.min_distance <= self.distance <= self.max_distance
        &&& -PHI_LIMIT <= self.phi <= PHI_LIMIT
        &&& match self.pending_distance {
            Some(p) => self.min_distance <= p <= self.max_distance,
            None => true,
        }
    }

    /// The default camera: angles, distance and bounds as the constants
    /// give them, with no transition running.
    pub fn new() -> (r: Camera)
        ensures
            r.wf(),
            r == default_camera(),
            r.theta == DEFAULT_THETA,
            r.phi == DEFAULT_PHI,
            r.distance == DEFAULT_DISTANCE,
            r.min_distance == MIN_DISTANCE,
            r.max_distance == MAX_DISTANCE,
            r.pending_distance is None,
    {
        Camera {
            theta: DEFAULT_THETA,
            phi: DEFAULT_PHI,
            distance: DEFAULT_DISTANCE,
            min_distance: MIN_DISTANCE,
            max_distance: MAX_DISTANCE,
            pending_distance: None,
        }
    }

    /// Rotate by a drag of `dx`, `dy` pixels: the horizontal angle decreases
    /// by `dx` steps, the vertical angle increases by `dy` steps and is held
    /// within `[-PHI_LIMIT, PHI_LIMIT]`.
    pub fn rotate(&mut self, dx: i64, dy: i64)
        requires
            old(self).wf(),
        ensures
            final(self).wf(),
            *final(self) == spec_rotate(*old(self), dx, dy),
            -PHI_LIMIT <= final(self).phi <= PHI_LIMIT,
    {
        proof {
            let a = dx as int;
            assert(-0x1_0000_0000_0000_0000 * ROTATE_STEP <= a * ROTATE_STEP <= 0x1_0000_0000_0000_0000 * ROTATE_STEP)
                by (nonlinear_arith)
                requires
                    -0x1_0000_0000_0000_0000 <= a <= 0x1_0000_0000_0000_0000,
            ;
        }
        let theta: i128 = self.theta as i128 - dx as i128 * ROTATE_STEP as i128;
        if theta < i64::MIN as i128 {
            self.theta = i64::MIN;
        } else if theta > i64::MAX as i128 {
            self.theta = i64::MAX;
        } else {
            self.theta = theta as i64;
        }
        let phi: i128 = self.phi as i128 + dy as i128 * ROTATE_STEP as i128;
        if phi < -PHI_LIMIT as i128 {
            self.phi = -PHI_LIMIT;
        } else if phi > PHI_LIMIT as i128 {
            self.phi = PHI_LIMIT;
        } else {
            self.phi = phi as i64;
        }
    }

    /// Zoom by `delta` wheel units: the distance is multiplied by
    /// `1 + delta / 1000` and held within `[min_distance, max_distance]`.
    pub fn zoom(&mut self, delta: i64)
        requires
            old(self).wf(),
        ensures
            final(self).wf(),
            *final(self) == spec_zoom(*old(self), delta),
            final(self).min_distance <= final(self).distance <= final(self).max_distance,
    {
        let d = self.distance as i128;
        let factor = ZOOM_SCALE as i128 + delta as i128;
        proof {
            let a = self.distance as int;
            let b = factor as int;
            assert(-(MAX_DISTANCE as int) * 0x1_0000_0000_0000_0000 <= a * b <= MAX_DISTANCE as int * 0x1_0000_0000_0000_0000)
                by (nonlinear_arith)
                requires
                    0 < a <= MAX_DISTANCE as int,
                    -0x1_0000_0000_0000_0000 <= b <= 0x1_0000_0000_0000_0000,
            ;
        }
        let product = d * factor;
        if product <= 0 {
            proof {
                assert(zoomed(self.distance as int, delta as int) <= 0) by (nonlinear_arith)
                    requires
                        product <= 0,
                        product == self.distance * (ZOOM_SCALE + delta),
                ;
            }
            self.distance = self.min_distance;
        } else {
            let z = product / ZOOM_SCALE as i128;
            assert(z == zoomed(self.distance as int, delta as int));
            if z < self.min_distance as i128 {
                self.distance = self.min_distance;
            } else if z > self.max_distance as i128 {
                self.distance = self.max_distance;
            } else {
                self.distance = z as i64;
            }
        }
    }

    /// Look straight down on the target.
    pub fn top_down(&mut self)
        requires
            old(self).wf(),
        ensures
            final(self).wf(),
            *final(self) == (Camera { theta: 0, phi: PHI_LIMIT, ..*old(self) }),
    {
        self.theta = 0;
        self.phi = PHI_LIMIT;
    }

    /// Start a transition toward `distance`, clamped to the zoom bounds; the
    /// current distance is not changed until `update_transition`.
    pub fn set_target_distance(&mut self, distance: i64)
        requires
            old(self).wf(),
        ensures
            final(self).wf(),
            *final(self) == spec_set_target_distance(*old(self), distance),
    {
        let d = if distance < self.min_distance {
            self.min_distance
        } else if distance > self.max_distance {
            self.max_distance
        } else {
            distance
        };
        self.pending_distance = Some(d);
    }

    /// The viewing distance for a body of `radius` (thousandths of a display
    /// unit): `FOCUS_RADII` radii, and never closer than one and a half times
    /// the closest zoom.
    pub fn focus_distance(&self, radius: i64) -> (r: i64)
        requires
            self.wf(),
        ensures
            r == spec_focus_distance(self.min_distance, radius),
    {
        let least = self.min_distance * 3 / 2;
        let wanted: i128 = radius as i128 * FOCUS_RADII as i128;
        if wanted > least as i128 {
            if wanted > i64::MAX as i128 {
                i64::MAX
            } else {
                wanted as i64
            }
        } else {
            least
        }
    }

    /// Advance a running distance transition by `dt_micros`: move the
    /// `transition_fraction` of the remaining gap, and once closer than
    /// `SNAP_EPSILON` land exactly on the goal and end the transition.
    pub fn update_transition(&mut self, dt_micros: u64)
        requires
            old(self).wf(),
        ensures
            final(self).wf(),
            *final(self) == spec_update_transition(*old(self), dt_micros),
            final(self).theta == old(self).theta,
            final(self).phi == old(self).phi,
            final(self).min_distance == old(self).min_distance,
            final(self).max_distance == old(self).max_distance,
            old(self).pending_distance is None ==> *final(self) == *old(self),
            old(self).pending_distance matches Some(goal) ==> {
                let next = approach(
                    old(self).distance as int,
                    goal as int,
                    spec_transition_fraction(dt_micros),
                );
                if gap(next, goal as int) < SNAP_EPSILON {
                    final(self).distance == goal && final(self).pending_distance is None
                } else {
                    final(self).distance == next && final(self).pending_distance == Some(goal)
                }
            },
            old(self).pending_distance matches Some(goal) ==> (spec_transition_fraction(dt_micros) > 0
                ==> final(self).pending_distance is None || gap(final(self).distance as int, goal as int)
                < gap(old(self).distance as int, goal as int)),
    {
        if let Some(goal) = self.pending_distance {
            let alpha = transition_fraction(dt_micros);
            let cur = self.distance;
            let next: i64;
            if goal >= cur {
                let step = lerp_step((goal - cur) as u64, alpha);
                next = cur + step as i64;
            } else {
                let step = lerp_step((cur - goal) as u64, alpha);
                next = cur - step as i64;
            }
            let close = if next >= goal {
                next - goal < SNAP_EPSILON
            } else {
                goal - next < SNAP_EPSILON
            };
            if close {
                self.distance = goal;
                self.pending_distance = None;
            } else {
                self.distance = next;
            }
        }
    }
}

/// The part of a gap of `span` covered at fraction `alpha`, rounded up: all
/// of it at the whole fraction, and at least one unit of a nonempty gap at any
/// positive fraction.
fn lerp_step(span: u64, alpha: u64) -> (r: u64)
    requires
        span <= 2 * MAX_DISTANCE,
        alpha <= PPM,
    ensures
        r == step_toward(span as int, alpha as int),
        r <= span,
        span > 0 && alpha > 0 ==> r > 0,
{
    proof {
        assert(span * alpha <= span * PPM) by (nonlinear_arith)
            requires
                alpha <= PPM,
        ;
        assert((span * alpha + PPM - 1) / PPM as int <= span) by (nonlinear_arith)
            requires
                span * alpha <= span * PPM,
        ;
        if span > 0 && alpha > 0 {
            assert(span * alpha >= 1) by (nonlinear_arith)
                requires
                    span > 0,
                    alpha > 0,
            ;
        }
    }
    (span * alpha + PPM - 1) / PPM
}

/// The fraction of the remaining way a transition covers in `dt_micros`, in
/// parts per million: `TRANSITION_RATE` per second, capped at the whole.
pub fn transition_fraction(dt_micros: u64) -> (r: u64)
    ensures
        r == spec_transition_fraction(dt_micros),
        r <= PPM,
{
    if dt_micros > PPM / TRANSITION_RATE {
        PPM
    } else {
        dt_micros * TRANSITION_RATE
    }
}

/// However many times and by however much the camera is zoomed, its distance
/// stays within `[min_distance, max_distance]`.
pub proof fn lemma_zoom_all_stays_in_bounds(c: Camera, deltas: Seq<i64>)
    requires
        c.wf(),
    ensures
        zoom_all(c, deltas).wf(),
        c.min_distance <= zoom_all(c, deltas).distance <= c.max_distance,
    decreases deltas.len(),
{
    if deltas.len() > 0 {
        lemma_zoom_all_stays_in_bounds(spec_zoom(c, deltas[0]), deltas.drop_first());
    }
}

/// However many times and by however much the camera is dragged, its
/// vertical angle stays within `[-PHI_LIMIT, PHI_LIMIT]`.
pub proof fn lemma_rotate_all_keeps_phi(c: Camera, drags: Seq<(i64, i64)>)
    requires
        c.wf(),
    ensures
        rotate_all(c, drags).wf(),
        -PHI_LIMIT <= rotate_all(c, drags).phi <= PHI_LIMIT,
    decreases drags.len(),
{
    if drags.len() > 0 {
        lemma_rotate_all_keeps_phi(spec_rotate(c, drags[0].0, drags[0].1), drags.drop_first());
    }
}

} // verus!
