//! The single-step animator: one animation, one lens, a repeat policy and
//! mutable playback state, advanced tick by tick.

use vstd::prelude::*;
use vstd::arithmetic::div_mod::{
    lemma_fundamental_div_mod, lemma_fundamental_div_mod_converse,
    lemma_mod_division_less_than_divisor,
};
use vstd::arithmetic::mul::lemma_mul_basics;
use crate::animation::{
    Animation, AnimationCompleted, AnimationDirection, AnimationLens, PlaybackModel, PlaybackState,
    Repeat,
};
use crate::frac::{Frac, MAX_TICK_MS};

verus! {

/// Progress after an overflow to `t > d` wraps around the upper boundary:
/// the remainder modulo `d`, except that an exact multiple lands on `d`
/// itself, because the boundary test is strict.
pub open spec fn wrap_over(t: int, d: int) -> int {
    if t % d == 0 {
        d
    } else {
        t % d
    }
}

/// Progress after an underflow of magnitude `u > 0` wraps around the lower
/// boundary.
pub open spec fn wrap_under(u: int, d: int) -> int {
    if u % d == 0 {
        0
    } else {
        d - u % d
    }
}

/// The playback state after one tick of a single-step animator with duration
/// `d` (milliseconds), repeat policy `rep` and elapsed time `e`
/// (milliseconds), paired with whether a completion event is emitted.
///
/// A completed animator is a fixed point. Otherwise the elapsed time is
/// integrated in the playback direction; when the result leaves `[0, d]` the
/// repeat policy decides: `Once` clamps and completes (the only case that
/// emits), `Always` wraps modulo the duration, and `Mirrored` reflects,
/// flipping the direction once per boundary crossed.
pub open spec fn tick_transition(m: PlaybackModel, d: int, rep: Repeat, e: int) -> (PlaybackModel,
    bool) {
    if m.completed {
        (m, false)
    } else if m.direction is Forward {
        let t = m.progress + e;
        if t <= d {
            (PlaybackModel { progress: t, ..m }, false)
        } else {
            match rep {
                Repeat::Once => (PlaybackModel { completed: true, progress: d, ..m }, true),
                Repeat::Always => (PlaybackModel { progress: wrap_over(t, d), ..m }, false),
                Repeat::Mirrored => {
                    let k = (t - 1) / d;
                    let r = t - k * d;
                    if k % 2 == 0 {
                        (PlaybackModel { progress: r, ..m }, false)
                    } else {
                        (
                            PlaybackModel {
                                progress: d - r,
                                direction: AnimationDirection::Backward,
                                ..m
                            },
                            false,
                        )
                    }
                },
            }
        }
    } else {
        if e <= m.progress {
            (PlaybackModel { progress: m.progress - e, ..m }, false)
        } else {
            let u = e - m.progress;
            match rep {
                Repeat::Once => (PlaybackModel { completed: true, progress: 0, ..m }, true),
                Repeat::Always => (PlaybackModel { progress: wrap_under(u, d), ..m }, false),
                Repeat::Mirrored => {
                    let j = (u - 1) / d;
                    let r = u - j * d;
                    if j % 2 == 0 {
                        (
                            PlaybackModel {
                                progress: r,
                                direction: AnimationDirection::Forward,
                                ..m
                            },
                            false,
                        )
                    } else {
                        (PlaybackModel { progress: d - r, ..m }, false)
                    }
                },
            }
        }
    }
}

/// The state after one tick: the first component of `tick_transition`.
pub open spec fn tick_next(m: PlaybackModel, d: int, rep: Repeat, e: int) -> PlaybackModel {
    tick_transition(m, d, rep, e).0
}

/// Whether one tick emits a completion event: the second component of
/// `tick_transition`.
pub open spec fn tick_emits(m: PlaybackModel, d: int, rep: Repeat, e: int) -> bool {
    tick_transition(m, d, rep, e).1
}

/// A single-step animator: an animation, a repeat policy, a lens writing into
/// the target, mutable playback state and an optional numeric tag.
pub struct Animator<L: AnimationLens> {
    id: Option<u32>,
    state: PlaybackState,
    animation: Animation,
    repeat: Repeat,
    lens: L,
}

impl<L: AnimationLens> Animator<L> {
    /// Ghost image of the mutable playback state.
    pub closed spec fn model(&self) -> PlaybackModel {
        PlaybackModel {
            completed: self.state.completed,
            direction: self.state.direction,
            progress: self.state.progress as int,
        }
    }

    pub closed spec fn spec_animation(&self) -> Animation {
        self.animation
    }

    pub open spec fn spec_duration(&self) -> u64 {
        self.spec_animation().duration
    }

    pub closed spec fn spec_repeat(&self) -> Repeat {
        self.repeat
    }

    pub closed spec fn spec_id(&self) -> Option<u32> {
        self.id
    }

    pub closed spec fn spec_lens(&self) -> L {
        self.lens
    }

    /// The animation is well formed and progress never leaves its duration.
    pub open spec fn inv(&self) -> bool {
        self.spec_animation().wf() && 0 <= self.model().progress <= self.spec_duration()
    }

    /// A fresh animator, playing forward from progress 0, not completed, with
    /// no tag.
    pub fn new(animation: Animation, repeat: Repeat, lens: L) -> (a: Self)
        requires
            animation.wf(),
        ensures
            a.inv(),
            a.model() == (PlaybackModel {
                completed: false,
                direction: AnimationDirection::Forward,
                progress: 0,
            }),
            a.spec_animation() == animation,
            a.spec_repeat() == repeat,
            a.spec_id() is None,
            a.spec_lens() == lens,
    {
        Animator {
            id: None,
            state: PlaybackState {
                completed: false,
                direction: AnimationDirection::Forward,
                progress: 0,
            },
            animation,
            repeat,
            lens,
        }
    }

    /// A fresh animator playing in the given direction, starting at that
    /// direction's start point (0 forward, the full duration backward).
    pub fn new_with_direction(
        animation: Animation,
        direction: AnimationDirection,
        repeat: Repeat,
        lens: L,
    ) -> (a: Self)
        requires
            animation.wf(),
        ensures
            a.inv(),
            a.model() == (PlaybackModel {
                completed: false,
                direction,
                progress: if direction is Forward {
                    0
                } else {
                    animation.duration as int
                },
            }),
            a.spec_animation() == animation,
            a.spec_repeat() == repeat,
            a.spec_id() is None,
            a.spec_lens() == lens,
    {
        let start = direction.start_point(animation.duration);
        Animator {
            id: None,
            state: PlaybackState { completed: false, direction, progress: start },
            animation,
            repeat,
            lens,
        }
    }

    /// The same animator carrying the given numeric tag.
    pub fn with_id(self, id: u32) -> (a: Self)
        ensures
            a.spec_id() == Some(id),
            a.model() == self.model(),
            a.spec_animation() == self.spec_animation(),
            a.spec_repeat() == self.spec_repeat(),
            a.spec_lens() == self.spec_lens(),
    {
        Animator { id: Some(id), ..self }
    }

    pub fn completed(&self) -> (b: bool)
        ensures
            b == self.model().completed,
    {
        self.state.completed
    }

    pub fn direction(&self) -> (d: AnimationDirection)
        ensures
            d == self.model().direction,
    {
        self.state.direction
    }

    /// Progress into the step, in milliseconds of its duration.
    pub fn progress_ms(&self) -> (p: u64)
        ensures
            p == self.model().progress,
    {
        self.state.progress
    }

    pub fn duration_ms(&self) -> (d: u64)
        ensures
            d == self.spec_duration(),
    {
        self.animation.duration
    }

    /// Advances playback by `elapsed_ms`, exactly as `tick_transition`
    /// describes; evaluates the curve at the new progress and lets the lens
    /// write into `target`; appends one completion event (tagged with
    /// `entity` and the animator's id, step index 0) exactly when the
    /// transition emits. Returns the time progress as a fraction of the
    /// duration: the terminal point if the animator was already completed,
    /// the new progress otherwise.
    pub fn tick(
        &mut self,
        target: &mut L::C,
        elapsed_ms: u64,
        entity: u64,
        events: &mut Vec<AnimationCompleted>,
    ) -> (r: Frac)
        requires
            old(self).inv(),
            elapsed_ms <= MAX_TICK_MS,
        ensures
            final(self).inv(),
            final(self).spec_animation() == old(self).spec_animation(),
            final(self).spec_repeat() == old(self).spec_repeat(),
            final(self).spec_id() == old(self).spec_id(),
            final(self).spec_lens() == old(self).spec_lens(),
            final(self).model() == tick_next(
                old(self).model(),
                old(self).spec_duration() as int,
                old(self).spec_repeat(),
                elapsed_ms as int,
            ),
            final(events)@ == (if tick_emits(
                old(self).model(),
                old(self).spec_duration() as int,
                old(self).spec_repeat(),
                elapsed_ms as int,
            ) {
                old(events)@.push(
                    (AnimationCompleted {
                        entity,
                        animator_id: old(self).spec_id(),
                        animation_id: 0,
                    }),
                )
            } else {
                old(events)@
            }),
            r.den == old(self).spec_duration(),
            r.num as int == (if old(self).model().completed {
                if old(self).model().direction is Forward {
                    old(self).spec_duration() as int
                } else {
                    0
                }
            } else {
                final(self).model().progress
            }),
            r.unit(),
            old(self).model().completed ==> *final(target) == *old(target),
    {
        if self.state.completed {
            return match self.state.direction {
                AnimationDirection::Forward => Frac {
                    num: self.animation.duration,
                    den: self.animation.duration,
                },
                AnimationDirection::Backward => Frac { num: 0, den: self.animation.duration },
            };
        }
        let d = self.animation.duration;
        match self.state.direction {
            AnimationDirection::Forward => {
                let t = self.state.progress + elapsed_ms;
                if t <= d {
                    self.state.progress = t;
                } else {
                    match self.repeat {
                        Repeat::Once => {
                            self.state.completed = true;
                            self.state.progress = d;
                            events.push(
                                AnimationCompleted {
                                    entity,
                                    animator_id: self.id,
                                    animation_id: 0,
                                },
                            );
                        },
                        Repeat::Always => {
                            let rem = t % d;
                            proof {
                                lemma_mod_division_less_than_divisor(t as int, d as int);
                            }
                            self.state.progress = if rem == 0 {
                                d
                            } else {
                                rem
                            };
                        },
                        Repeat::Mirrored => {
                            let t1 = t - 1;
                            let k = t1 / d;
                            proof {
                                lemma_fundamental_div_mod(t1 as int, d as int);
                                lemma_mod_division_less_than_divisor(t1 as int, d as int);
                                assert(k as int * d as int == d as int * (t1 as int / d as int))
                                    by (nonlinear_arith)
                                    requires
                                        k as int == t1 as int / d as int,
                                ;
                                assert(k as int * d as int == t1 as int - t1 as int % d as int);
                            }
                            let r = t - k * d;
                            if k % 2 == 0 {
                                self.state.progress = r;
                            } else {
                                self.state.progress = d - r;
                                self.state.direction = AnimationDirection::Backward;
                            }
                        },
                    }
                }
            },
            AnimationDirection::Backward => {
                if elapsed_ms <= self.state.progress {
                    self.state.progress = self.state.progress - elapsed_ms;
                } else {
                    let u = elapsed_ms - self.state.progress;
                    match self.repeat {
                        Repeat::Once => {
                            self.state.completed = true;
                            self.state.progress = 0;
                            events.push(
                                AnimationCompleted {
                                    entity,
                                    animator_id: self.id,
                                    animation_id: 0,
                                },
                            );
                        },
                        Repeat::Always => {
                            let rem = u % d;
                            proof {
                                lemma_mod_division_less_than_divisor(u as int, d as int);
                            }
                            self.state.progress = if rem == 0 {
                                0
                            } else {
                                d - rem
                            };
                        },
                        Repeat::Mirrored => {
                            let u1 = u - 1;
                            let j = u1 / d;
                            proof {
                                lemma_fundamental_div_mod(u1 as int, d as int);
                                lemma_mod_division_less_than_divisor(u1 as int, d as int);
                                assert(j as int * d as int == d as int * (u1 as int / d as int))
                                    by (nonlinear_arith)
                                    requires
                                        j as int == u1 as int / d as int,
                                ;
                                assert(j as int * d as int == u1 as int - u1 as int % d as int);
                            }
                            let r = u - j * d;
                            if j % 2 == 0 {
                                self.state.progress = r;
                                self.state.direction = AnimationDirection::Forward;
                            } else {
                                self.state.progress = d - r;
                            }
                        },
                    }
                }
            },
        }
        let p = Frac { num: self.state.progress, den: d };
        let out = self.animation.curve.eval(p);
        self.lens.lerp(target, out);
        p
    }
}

/// Law: a completed animator is a fixed point. Whatever the elapsed time and
/// the repeat policy, a tick leaves the state unchanged and emits nothing.
pub proof fn lemma_completed_tick_fixed(m: PlaybackModel, d: int, rep: Repeat, e: int)
    requires
        m.completed,
    ensures
        tick_next(m, d, rep, e) == m,
        !tick_emits(m, d, rep, e),
{
}

/// Law: under `Repeat::Always`, progress stays within `[0, duration]` after
/// every tick, however large the elapsed time (a multi-lap overflow reduces
/// fully, modulo the duration), and neither the direction nor completion
/// changes, and no event is emitted.
pub proof fn lemma_always_stays_in_range(m: PlaybackModel, d: int, e: int)
    requires
        1 <= d,
        0 <= m.progress <= d,
        0 <= e,
    ensures
        0 <= tick_next(m, d, Repeat::Always, e).progress <= d,
        tick_next(m, d, Repeat::Always, e).direction == m.direction,
        tick_next(m, d, Repeat::Always, e).completed == m.completed,
        !tick_emits(m, d, Repeat::Always, e),
{
    if !m.completed {
        if m.direction is Forward {
            let t = m.progress + e;
            if t > d {
                lemma_mod_division_less_than_divisor(t, d);
            }
        } else {
            if e > m.progress {
                lemma_mod_division_less_than_divisor(e - m.progress, d);
            }
        }
    }
}

/// Law: under `Repeat::Mirrored`, a single forward boundary crossing flips
/// the direction exactly once, and the progress right after the flip is the
/// mirror image of the overshoot.
pub proof fn lemma_mirrored_single_crossing_forward(m: PlaybackModel, d: int, e: int)
    requires
        !m.completed,
        m.direction is Forward,
        1 <= d,
        0 <= m.progress <= d,
        d < m.progress + e <= 2 * d,
    ensures
        tick_next(m, d, Repeat::Mirrored, e).direction is Backward,
        tick_next(m, d, Repeat::Mirrored, e).progress == d - (m.progress + e - d),
        !tick_next(m, d, Repeat::Mirrored, e).completed,
        !tick_emits(m, d, Repeat::Mirrored, e),
{
    let t = m.progress + e;
    lemma_fundamental_div_mod_converse(t - 1, d, 1, t - 1 - d);
    lemma_mul_basics(d);
}

/// Law: under `Repeat::Mirrored`, a single backward boundary crossing flips
/// the direction exactly once, and the progress right after the flip is the
/// mirror image of the undershoot.
pub proof fn lemma_mirrored_single_crossing_backward(m: PlaybackModel, d: int, e: int)
    requires
        !m.completed,
        m.direction is Backward,
        1 <= d,
        0 <= m.progress <= d,
        m.progress < e <= m.progress + d,
    ensures
        tick_next(m, d, Repeat::Mirrored, e).direction is Forward,
        tick_next(m, d, Repeat::Mirrored, e).progress == e - m.progress,
        !tick_next(m, d, Repeat::Mirrored, e).completed,
        !tick_emits(m, d, Repeat::Mirrored, e),
{
    let u = e - m.progress;
    lemma_fundamental_div_mod_converse(u - 1, d, 0, u - 1);
    lemma_mul_basics(d);
}

/// Law: under `Repeat::Mirrored`, a tick that stays within the boundaries
/// does not flip the direction: it only moves progress by the elapsed time.
pub proof fn lemma_mirrored_no_crossing(m: PlaybackModel, d: int, e: int)
    requires
        !m.completed,
        1 <= d,
        0 <= m.progress <= d,
        0 <= e,
        m.direction is Forward ==> m.progress + e <= d,
        m.direction is Backward ==> e <= m.progress,
    ensures
        tick_next(m, d, Repeat::Mirrored, e).direction == m.direction,
        tick_next(m, d, Repeat::Mirrored, e).progress == (if m.direction is Forward {
            m.progress + e
        } else {
            m.progress - e
        }),
        !tick_next(m, d, Repeat::Mirrored, e).completed,
        !tick_emits(m, d, Repeat::Mirrored, e),
{
}

} // verus!
