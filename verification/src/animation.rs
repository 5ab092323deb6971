//! Core descriptors of the animation system: easing curves, animation and
//! delay steps, playback direction, repeat policies, the lens capability and
//! the completion event.

use vstd::prelude::*;
use crate::curves;
use crate::frac::{lerp_i64, lerp_val, Frac, MAX_CURVE_DEN, MAX_DURATION_MS};

verus! {

/// Maps normalized time progress to eased animation progress, as an exact
/// fraction. The polynomial shapes stand in for caller-supplied smooth
/// curves; a host that wants floating-point ease functions composes them in
/// its own lens on top of `Linear`.
#[derive(Clone, Copy, PartialEq, Eq, Structural, Debug)]
pub enum AnimationCurve {
    /// Progress itself.
    Linear,
    /// 1 up to and including the cutoff, 0 strictly past it.
    Step(Frac),
    /// Quadratic ease-in, `curves::second_order`.
    SecondOrder,
    /// Cubic ease-in, `curves::third_order`.
    ThirdOrder,
}

impl AnimationCurve {
    /// A step cutoff is a fraction in `[0, 1]` with a bounded denominator.
    pub open spec fn wf(self) -> bool {
        match self {
            AnimationCurve::Step(c) => c.unit() && c.den <= MAX_DURATION_MS,
            _ => true,
        }
    }

    /// Numerator of the exact curve output at progress `p`.
    pub open spec fn eval_num(self, p: Frac) -> int {
        match self {
            AnimationCurve::Linear => p.num as int,
            AnimationCurve::Step(c) => if c.spec_lt(p) {
                0
            } else {
                1
            },
            AnimationCurve::SecondOrder => p.num * p.num,
            AnimationCurve::ThirdOrder => p.num * p.num * p.num,
        }
    }

    /// Denominator of the exact curve output at progress `p`.
    pub open spec fn eval_den(self, p: Frac) -> int {
        match self {
            AnimationCurve::Linear => p.den as int,
            AnimationCurve::Step(_) => 1,
            AnimationCurve::SecondOrder => p.den * p.den,
            AnimationCurve::ThirdOrder => p.den * p.den * p.den,
        }
    }

    /// Evaluates the curve at time progress `p`. The output is again a
    /// fraction in `[0, 1]`, small enough for every lens to accept.
    pub fn eval(&self, p: Frac) -> (r: Frac)
        requires
            self.wf(),
            p.unit(),
            p.den <= MAX_DURATION_MS,
        ensures
            r.num == self.eval_num(p),
            r.den == self.eval_den(p),
            r.unit(),
            r.den <= MAX_CURVE_DEN,
    {
        match self {
            AnimationCurve::Linear => p,
            AnimationCurve::Step(cutoff) => {
                proof {
                    assert(cutoff.num * p.den <= MAX_DURATION_MS * MAX_DURATION_MS
                        && p.num * cutoff.den <= MAX_DURATION_MS * MAX_DURATION_MS)
                        by (nonlinear_arith)
                        requires
                            cutoff.num <= MAX_DURATION_MS,
                            p.den <= MAX_DURATION_MS,
                            p.num <= MAX_DURATION_MS,
                            cutoff.den <= MAX_DURATION_MS,
                    ;
                }
                if cutoff.num * p.den < p.num * cutoff.den {
                    Frac { num: 0, den: 1 }
                } else {
                    Frac { num: 1, den: 1 }
                }
            },
            AnimationCurve::SecondOrder => {
                let r = curves::second_order(p);
                proof {
                    assert(p.den * p.den <= MAX_DURATION_MS * MAX_DURATION_MS)
                        by (nonlinear_arith)
                        requires
                            p.den <= MAX_DURATION_MS,
                    ;
                }
                r
            },
            AnimationCurve::ThirdOrder => {
                let r = curves::third_order(p);
                proof {
                    assert(p.den * p.den * p.den
                        <= MAX_DURATION_MS * MAX_DURATION_MS * MAX_DURATION_MS)
                        by (nonlinear_arith)
                        requires
                            p.den <= MAX_DURATION_MS,
                            1 <= p.den,
                    ;
                }
                r
            },
        }
    }
}

/// An animation: a positive duration in milliseconds and a curve.
#[derive(Clone, Copy, PartialEq, Eq, Structural, Debug)]
pub struct Animation {
    pub duration: u64,
    pub curve: AnimationCurve,
}

impl Animation {
    pub open spec fn wf(self) -> bool {
        1 <= self.duration <= MAX_DURATION_MS && self.curve.wf()
    }
}

/// A delay: a positive duration in milliseconds that only occupies time.
#[derive(Clone, Copy, PartialEq, Eq, Structural, Debug)]
pub struct Delay {
    pub duration: u64,
}

impl Delay {
    pub open spec fn wf(self) -> bool {
        1 <= self.duration <= MAX_DURATION_MS
    }
}

/// Which way playback runs through a step.
#[derive(Clone, Copy, PartialEq, Eq, Structural, Debug)]
pub enum AnimationDirection {
    Forward,
    Backward,
}

impl AnimationDirection {
    /// The other direction.
    pub open spec fn spec_opposite(self) -> AnimationDirection {
        match self {
            AnimationDirection::Forward => AnimationDirection::Backward,
            AnimationDirection::Backward => AnimationDirection::Forward,
        }
    }

    /// The other direction.
    pub fn opposite(&self) -> (d: AnimationDirection)
        ensures
            d == self.spec_opposite(),
    {
        match self {
            AnimationDirection::Forward => AnimationDirection::Backward,
            AnimationDirection::Backward => AnimationDirection::Forward,
        }
    }

    /// Progress (in milliseconds of the given duration) at which playback
    /// starts in this direction: 0 going forward, the full duration going
    /// backward.
    pub fn start_point(&self, duration_ms: u64) -> (p: u64)
        ensures
            p == (if *self is Forward {
                0u64
            } else {
                duration_ms
            }),
    {
        match self {
            AnimationDirection::Forward => 0,
            AnimationDirection::Backward => duration_ms,
        }
    }

    /// The sign with which elapsed time enters the integration.
    pub fn factor(&self) -> (f: i64)
        ensures
            f == (if *self is Forward {
                1i64
            } else {
                -1i64
            }),
    {
        match self {
            AnimationDirection::Forward => 1,
            AnimationDirection::Backward => -1,
        }
    }
}

/// Whether and how playback continues when progress leaves `[0, 1]`.
#[derive(Clone, Copy, PartialEq, Eq, Structural, Debug)]
pub enum Repeat {
    /// Clamp at the boundary, mark completed, emit a completion event.
    Once,
    /// Wrap around modulo the duration; no event, no direction change.
    Always,
    /// Reflect at the boundary and flip direction; no event.
    Mirrored,
}

/// Mutable playback state of an animator. Progress is measured in
/// milliseconds into the current step and always stays within its duration.
#[derive(Clone, Copy, PartialEq, Eq, Structural, Debug)]
pub(crate) struct PlaybackState {
    pub(crate) completed: bool,
    pub(crate) direction: AnimationDirection,
    pub(crate) progress: u64,
}

/// Ghost image of a playback state, with unbounded progress, used by the
/// transition specifications and the laws about them.
pub struct PlaybackModel {
    pub completed: bool,
    pub direction: AnimationDirection,
    pub progress: int,
}

/// Emitted once per boundary crossing under `Repeat::Once` (and once per
/// completed step of a sequence), for external listeners.
#[derive(Clone, Copy, PartialEq, Eq, Debug)]
pub struct AnimationCompleted {
    /// The entity the animator belongs to, as an opaque identifier.
    pub entity: u64,
    /// The optional numeric tag of the animator.
    pub animator_id: Option<u32>,
    /// The index of the step that finished (0 for a single-step animator).
    pub animation_id: usize,
}

/// A capability that writes an interpolated value into one field of the
/// target for a given progress fraction.
pub trait AnimationLens {
    type C;

    fn lerp(&self, target: &mut Self::C, progress: Frac)
        requires
            progress.unit(),
            progress.den <= MAX_CURVE_DEN,
    ;
}

/// An integer 3-vector; the coordinates an animated component is made of.
#[derive(Clone, Copy, PartialEq, Eq, Structural, Debug)]
pub struct Vec3i {
    pub x: i64,
    pub y: i64,
    pub z: i64,
}

/// The animated target: a translation and a scale.
#[derive(Clone, Copy, PartialEq, Eq, Structural, Debug)]
pub struct Transform {
    pub translation: Vec3i,
    pub scale: Vec3i,
}

/// Interpolates the translation of a `Transform` between two endpoints.
#[derive(Clone, Copy, PartialEq, Eq, Structural, Debug)]
pub struct TransformTranslationLens {
    pub start: Vec3i,
    pub end: Vec3i,
}

impl AnimationLens for TransformTranslationLens {
    type C = Transform;

    fn lerp(&self, target: &mut Transform, progress: Frac)
        ensures
            final(target).translation.x == lerp_val(self.start.x, self.end.x, progress),
            final(target).translation.y == lerp_val(self.start.y, self.end.y, progress),
            final(target).translation.z == lerp_val(self.start.z, self.end.z, progress),
            final(target).scale == old(target).scale,
    {
        target.translation.x = lerp_i64(self.start.x, self.end.x, progress);
        target.translation.y = lerp_i64(self.start.y, self.end.y, progress);
        target.translation.z = lerp_i64(self.start.z, self.end.z, progress);
    }
}

/// Interpolates the scale of a `Transform` between two endpoints.
#[derive(Clone, Copy, PartialEq, Eq, Structural, Debug)]
pub struct TransformScaleLens {
    pub start: Vec3i,
    pub end: Vec3i,
}

impl AnimationLens for TransformScaleLens {
    type C = Transform;

    fn lerp(&self, target: &mut Transform, progress: Frac)
        ensures
            final(target).scale.x == lerp_val(self.start.x, self.end.x, progress),
            final(target).scale.y == lerp_val(self.start.y, self.end.y, progress),
            final(target).scale.z == lerp_val(self.start.z, self.end.z, progress),
            final(target).translation == old(target).translation,
    {
        target.scale.x = lerp_i64(self.start.x, self.end.x, progress);
        target.scale.y = lerp_i64(self.start.y, self.end.y, progress);
        target.scale.z = lerp_i64(self.start.z, self.end.z, progress);
    }
}

} // verus!
