//! The sequence animator: an ordered list of animation and delay steps with a
//! current index, advanced step by step, spilling leftover time of a finished
//! step into the next one within the same tick.

use vstd::prelude::*;
use crate::animation::{
    Animation, AnimationCompleted, AnimationDirection, AnimationLens, Delay, PlaybackState, Repeat,
};
use crate::frac::{Frac, MAX_DURATION_MS, MAX_TICK_MS};

verus! {

/// One step of a sequence: an animation driving a lens, or a bare delay that
/// only occupies time.
pub enum AnimationStep<L: AnimationLens> {
    Animation(Animation, L),
    Delay(Delay),
}

impl<L: AnimationLens> AnimationStep<L> {
    pub open spec fn wf(&self) -> bool {
        match self {
            AnimationStep::Animation(a, _) => a.wf(),
            AnimationStep::Delay(dl) => dl.wf(),
        }
    }

    pub open spec fn spec_duration(&self) -> u64 {
        match self {
            AnimationStep::Animation(a, _) => a.duration,
            AnimationStep::Delay(dl) => dl.duration,
        }
    }

    /// The step's duration in milliseconds.
    pub fn duration_ms(&self) -> (d: u64)
        ensures
            d == self.spec_duration(),
    {
        match self {
            AnimationStep::Animation(a, _) => a.duration,
            AnimationStep::Delay(dl) => dl.duration,
        }
    }
}

/// Ghost image of a sequence animator's mutable state.
pub struct SequenceModel {
    pub completed: bool,
    pub direction: AnimationDirection,
    pub progress: int,
    pub current: int,
}

/// Well-formedness of a sequence state against the step durations `ds`:
/// every duration is positive and bounded, and while playback is live the
/// current index is in range and progress stays within the current step.
pub open spec fn seq_wf(m: SequenceModel, ds: Seq<int>) -> bool {
    &&& forall|i: int| 0 <= i < ds.len() ==> 1 <= #[trigger] ds[i] <= MAX_DURATION_MS
    &&& !m.completed ==> 0 <= m.current < ds.len() && 0 <= m.progress <= ds[m.current]
}

/// The state after the repeat policy decides what follows a finished step:
/// the next `(current, progress, direction)` triple, or completion.
pub open spec fn advance(m: SequenceModel, rep: Repeat, ds: Seq<int>) -> SequenceModel {
    let last = ds.len() - 1;
    match (rep, m.direction) {
        (Repeat::Once, AnimationDirection::Forward) => if m.current == last {
            SequenceModel { completed: true, progress: ds[m.current], ..m }
        } else {
            SequenceModel { current: m.current + 1, progress: 0, ..m }
        },
        (Repeat::Once, AnimationDirection::Backward) => if m.current == 0 {
            SequenceModel { completed: true, progress: 0, ..m }
        } else {
            SequenceModel { current: m.current - 1, progress: ds[m.current - 1], ..m }
        },
        (Repeat::Always, AnimationDirection::Forward) => if m.current == last {
            SequenceModel { current: 0, progress: 0, ..m }
        } else {
            SequenceModel { current: m.current + 1, progress: 0, ..m }
        },
        (Repeat::Always, AnimationDirection::Backward) => if m.current == 0 {
            SequenceModel { current: last, progress: ds[last], ..m }
        } else {
            SequenceModel { current: m.current - 1, progress: ds[m.current - 1], ..m }
        },
        (Repeat::Mirrored, AnimationDirection::Forward) => if m.current == last {
            SequenceModel {
                direction: AnimationDirection::Backward,
                progress: ds[m.current],
                ..m
            }
        } else {
            SequenceModel { current: m.current + 1, progress: 0, ..m }
        },
        (Repeat::Mirrored, AnimationDirection::Backward) => if m.current == 0 {
            SequenceModel { direction: AnimationDirection::Forward, progress: 0, ..m }
        } else {
            SequenceModel { current: m.current - 1, progress: ds[m.current - 1], ..m }
        },
    }
}

/// One integration of the current step with elapsed time `e`: the new state,
/// whether the step's boundary was crossed (which emits one event for the
/// step that finished), and the overtime in milliseconds that spills into
/// the new current step.
pub open spec fn step_once(m: SequenceModel, rep: Repeat, ds: Seq<int>, e: int) -> (
    SequenceModel,
    bool,
    int,
) {
    let d = ds[m.current];
    if m.direction is Forward {
        let t = m.progress + e;
        if t <= d {
            (SequenceModel { progress: t, ..m }, false, 0)
        } else {
            (advance(m, rep, ds), true, t - d)
        }
    } else {
        if e <= m.progress {
            (SequenceModel { progress: m.progress - e, ..m }, false, 0)
        } else {
            (advance(m, rep, ds), true, e - m.progress)
        }
    }
}

/// Whether the state sits at the entry point of its current step: progress 0
/// going forward, the full duration going backward. Every live state that an
/// advance produces is at its entry point.
pub open spec fn at_entry(m: SequenceModel, ds: Seq<int>) -> bool {
    if m.direction is Forward {
        m.progress == 0
    } else {
        m.progress == ds[m.current]
    }
}

/// An advance of a live well-formed state stays well formed, and if it did
/// not complete the sequence it lands at the entry point of its new current
/// step.
pub proof fn lemma_advance_wf(m: SequenceModel, rep: Repeat, ds: Seq<int>)
    requires
        seq_wf(m, ds),
        !m.completed,
    ensures
        seq_wf(advance(m, rep, ds), ds),
        !advance(m, rep, ds).completed ==> at_entry(advance(m, rep, ds), ds),
        advance(m, rep, ds).completed ==> rep is Once,
{
}

/// The transition of one tick of a sequence animator: starting from state
/// `m` with elapsed time `e`, the state after the tick together with the
/// indices of the steps that finished during it, in order. A finished step's
/// overtime re-enters the (advanced) current step within the same tick, so
/// one tick may finish several steps; the recursion terminates because every
/// spill but the first starts at a step's entry point and therefore consumes
/// at least that step's full (positive) duration.
pub open spec fn seq_tick(m: SequenceModel, rep: Repeat, ds: Seq<int>, e: int) -> (
    SequenceModel,
    Seq<int>,
)
    decreases e, (if at_entry(m, ds) { 0int } else { 1int })
        when seq_wf(m, ds) && 0 <= e via seq_tick_decreases
{
    if m.completed {
        (m, Seq::empty())
    } else {
        let s1 = step_once(m, rep, ds, e).0;
        let cross = step_once(m, rep, ds, e).1;
        let ot = step_once(m, rep, ds, e).2;
        if cross {
            if !s1.completed && ot > 0 {
                let rest = seq_tick(s1, rep, ds, ot);
                (rest.0, seq![m.current] + rest.1)
            } else {
                (s1, seq![m.current])
            }
        } else {
            (s1, Seq::empty())
        }
    }
}

#[via_fn]
proof fn seq_tick_decreases(m: SequenceModel, rep: Repeat, ds: Seq<int>, e: int) {
    if !m.completed {
        let s1 = step_once(m, rep, ds, e).0;
        let cross = step_once(m, rep, ds, e).1;
        if cross {
            lemma_advance_wf(m, rep, ds);
        }
    }
}

/// The state after one sequence tick: the first component of `seq_tick`.
pub open spec fn seq_tick_next(m: SequenceModel, rep: Repeat, ds: Seq<int>, e: int) -> SequenceModel {
    seq_tick(m, rep, ds, e).0
}

/// The indices of the steps one sequence tick finishes, in order: the second
/// component of `seq_tick`.
pub open spec fn seq_tick_finished(m: SequenceModel, rep: Repeat, ds: Seq<int>, e: int) -> Seq<int> {
    seq_tick(m, rep, ds, e).1
}

/// The completion events that a tick appends for an animator tagged `id` on
/// entity `entity`, one per finished step index.
pub open spec fn completion_events(entity: u64, id: Option<u32>, finished: Seq<int>) -> Seq<
    AnimationCompleted,
> {
    finished.map_values(
        |s: int| (AnimationCompleted { entity, animator_id: id, animation_id: s as usize }),
    )
}

/// A sequence animator: an ordered list of steps, a current index, a repeat
/// policy, mutable playback state and an optional numeric tag. Progress is
/// measured in milliseconds into the current step.
pub struct SequenceAnimator<L: AnimationLens> {
    id: Option<u32>,
    state: PlaybackState,
    current: usize,
    seq: Vec<AnimationStep<L>>,
    repeat: Repeat,
}

impl<L: AnimationLens> SequenceAnimator<L> {
    /// Ghost image of the mutable state.
    pub closed spec fn model(&self) -> SequenceModel {
        SequenceModel {
            completed: self.state.completed,
            direction: self.state.direction,
            progress: self.state.progress as int,
            current: self.current as int,
        }
    }

    pub closed spec fn steps(&self) -> Seq<AnimationStep<L>> {
        self.seq@
    }

    /// The step durations, in milliseconds.
    pub open spec fn durations(&self) -> Seq<int> {
        self.steps().map_values(|st: AnimationStep<L>| st.spec_duration() as int)
    }

    pub closed spec fn spec_repeat(&self) -> Repeat {
        self.repeat
    }

    pub closed spec fn spec_id(&self) -> Option<u32> {
        self.id
    }

    /// Every step is well formed and the playback state is well formed
    /// against the step durations.
    pub open spec fn inv(&self) -> bool {
        &&& forall|i: int|
            0 <= i < self.steps().len() ==> (#[trigger] self.steps()[i]).wf()
        &&& seq_wf(self.model(), self.durations())
    }

    /// A fresh sequence animator, playing forward from the first step, with
    /// no tag. A sequence with no steps is completed from the start.
    pub fn new(seq: Vec<AnimationStep<L>>, repeat: Repeat) -> (s: Self)
        requires
            forall|i: int| 0 <= i < seq@.len() ==> (#[trigger] seq@[i]).wf(),
        ensures
            s.inv(),
            s.model() == (SequenceModel {
                completed: seq@.len() == 0,
                direction: AnimationDirection::Forward,
                progress: 0,
                current: 0,
            }),
            s.steps() == seq@,
            s.spec_repeat() == repeat,
            s.spec_id() is None,
    {
        let completed = seq.is_empty();
        SequenceAnimator {
            id: None,
            state: PlaybackState {
                completed,
                direction: AnimationDirection::Forward,
                progress: 0,
            },
            current: 0,
            seq,
            repeat,
        }
    }

    /// A fresh sequence animator playing in the given direction: forward
    /// from the start of the first step, or backward from the end of the
    /// last step (which therefore must exist).
    pub fn new_with_direction(
        seq: Vec<AnimationStep<L>>,
        direction: AnimationDirection,
        repeat: Repeat,
    ) -> (s: Self)
        requires
            forall|i: int| 0 <= i < seq@.len() ==> (#[trigger] seq@[i]).wf(),
            direction is Backward ==> seq@.len() >= 1,
        ensures
            s.inv(),
            s.model() == (SequenceModel {
                completed: seq@.len() == 0,
                direction,
                progress: if direction is Forward {
                    0
                } else {
                    seq@[seq@.len() - 1].spec_duration() as int
                },
                current: if direction is Forward {
                    0
                } else {
                    seq@.len() - 1
                },
            }),
            s.steps() == seq@,
            s.spec_repeat() == repeat,
            s.spec_id() is None,
    {
        let completed = seq.is_empty();
        let current: usize = match direction {
            AnimationDirection::Forward => 0,
            AnimationDirection::Backward => seq.len() - 1,
        };
        let progress: u64 = match direction {
            AnimationDirection::Forward => 0,
            AnimationDirection::Backward => seq[current].duration_ms(),
        };
        SequenceAnimator {
            id: None,
            state: PlaybackState { completed, direction, progress },
            current,
            seq,
            repeat,
        }
    }

    /// The same animator carrying the given numeric tag.
    pub fn with_id(self, id: u32) -> (s: Self)
        ensures
            s.spec_id() == Some(id),
            s.model() == self.model(),
            s.steps() == self.steps(),
            s.spec_repeat() == self.spec_repeat(),
    {
        SequenceAnimator { id: Some(id), ..self }
    }

    pub fn completed(&self) -> (b: bool)
        ensures
            b == self.model().completed,
    {
        self.state.completed
    }

    pub fn direction(&self) -> (d: AnimationDirection)
        ensures
            d == self.model().direction,
    {
        self.state.direction
    }

    /// Progress into the current step, in milliseconds of its duration.
    pub fn progress_ms(&self) -> (p: u64)
        ensures
            p == self.model().progress,
    {
        self.state.progress
    }

    /// The index of the current step.
    pub fn current_step(&self) -> (c: usize)
        ensures
            c == self.model().current,
    {
        self.current
    }

    /// The number of steps.
    pub fn len(&self) -> (n: usize)
        ensures
            n == self.steps().len(),
    {
        self.seq.len()
    }

    /// Applies the repeat policy after the current step finished, moving to
    /// the next `(current, progress, direction)` triple, exactly as
    /// `advance` describes. Does not account for overtime.
    fn next_animation(&mut self)
        requires
            old(self).inv(),
            !old(self).model().completed,
        ensures
            final(self).inv(),
            final(self).model() == advance(
                old(self).model(),
                old(self).spec_repeat(),
                old(self).durations(),
            ),
            final(self).steps() == old(self).steps(),
            final(self).spec_repeat() == old(self).spec_repeat(),
            final(self).spec_id() == old(self).spec_id(),
    {
        proof {
            lemma_advance_wf(old(self).model(), old(self).spec_repeat(), old(self).durations());
        }
        let last = self.seq.len() - 1;
        match (self.repeat, self.state.direction) {
            (Repeat::Once, AnimationDirection::Forward) => {
                if self.current == last {
                    self.state.completed = true;
                    self.state.progress = self.seq[self.current].duration_ms();
                } else {
                    self.current = self.current + 1;
                    self.state.progress = 0;
                }
            },
            (Repeat::Once, AnimationDirection::Backward) => {
                if self.current == 0 {
                    self.state.completed = true;
                    self.state.progress = 0;
                } else {
                    self.current = self.current - 1;
                    self.state.progress = self.seq[self.current].duration_ms();
                }
            },
            (Repeat::Always, AnimationDirection::Forward) => {
                if self.current == last {
                    self.current = 0;
                    self.state.progress = 0;
                } else {
                    self.current = self.current + 1;
                    self.state.progress = 0;
                }
            },
            (Repeat::Always, AnimationDirection::Backward) => {
                if self.current == 0 {
                    self.current = last;
                    self.state.progress = self.seq[self.current].duration_ms();
                } else {
                    self.current = self.current - 1;
                    self.state.progress = self.seq[self.current].duration_ms();
                }
            },
            (Repeat::Mirrored, AnimationDirection::Forward) => {
                if self.current == last {
                    self.state.direction = AnimationDirection::Backward;
                    self.state.progress = self.seq[self.current].duration_ms();
                } else {
                    self.current = self.current + 1;
                    self.state.progress = 0;
                }
            },
            (Repeat::Mirrored, AnimationDirection::Backward) => {
                if self.current == 0 {
                    self.state.direction = AnimationDirection::Forward;
                    self.state.progress = 0;
                } else {
                    self.current = self.current - 1;
                    self.state.progress = self.seq[self.current].duration_ms();
                }
            },
        }
    }
    /// Integrates the current step with elapsed time `e`, exactly as
    /// `step_once` describes. An animation step evaluates its curve at the
    /// progress clamped into the step and lets its lens write into `target`;
    /// a delay only occupies time. When the boundary is crossed, one
    /// completion event for the finished step is appended and the repeat
    /// policy advances the state; the returned overtime is what remains of
    /// `e` past the boundary.
    fn tick_step(
        &mut self,
        target: &mut L::C,
        e: u64,
        entity: u64,
        events: &mut Vec<AnimationCompleted>,
    ) -> (ot: u64)
        requires
            old(self).inv(),
            !old(self).model().completed,
            e <= MAX_TICK_MS,
        ensures
            final(self).inv(),
            final(self).steps() == old(self).steps(),
            final(self).spec_repeat() == old(self).spec_repeat(),
            final(self).spec_id() == old(self).spec_id(),
            final(self).model() == step_once(
                old(self).model(),
                old(self).spec_repeat(),
                old(self).durations(),
                e as int,
            ).0,
            ot as int == step_once(
                old(self).model(),
                old(self).spec_repeat(),
                old(self).durations(),
                e as int,
            ).2,
            final(events)@ == (if step_once(
                old(self).model(),
                old(self).spec_repeat(),
                old(self).durations(),
                e as int,
            ).1 {
                old(events)@.push(
                    (AnimationCompleted {
                        entity,
                        animator_id: old(self).spec_id(),
                        animation_id: old(self).model().current as usize,
                    }),
                )
            } else {
                old(events)@
            }),
            ot <= e,
            (ot > 0) == step_once(
                old(self).model(),
                old(self).spec_repeat(),
                old(self).durations(),
                e as int,
            ).1,
            (ot > 0 && !final(self).model().completed) ==> at_entry(
                final(self).model(),
                final(self).durations(),
            ),
            at_entry(old(self).model(), old(self).durations()) && ot > 0 ==> ot < e,
    {
        let cur = self.current;
        let d = self.seq[cur].duration_ms();
        proof {
            assert(self.durations()[cur as int] == self.steps()[cur as int].spec_duration() as int);
            assert(self.steps()[cur as int].wf());
        }
        let forward = match self.state.direction {
            AnimationDirection::Forward => true,
            AnimationDirection::Backward => false,
        };
        let clamped: u64;
        let crossed: bool;
        let ot: u64;
        if forward {
            let t = self.state.progress + e;
            if t <= d {
                clamped = t;
                crossed = false;
                ot = 0;
            } else {
                clamped = d;
                crossed = true;
                ot = t - d;
            }
        } else {
            if e <= self.state.progress {
                clamped = self.state.progress - e;
                crossed = false;
                ot = 0;
            } else {
                clamped = 0;
                crossed = true;
                ot = e - self.state.progress;
            }
        }
        match &self.seq[cur] {
            AnimationStep::Animation(anim, lens) => {
                let out = anim.curve.eval(Frac { num: clamped, den: d });
                lens.lerp(target, out);
            },
            AnimationStep::Delay(_) => {},
        }
        if crossed {
            events.push(
                AnimationCompleted { entity, animator_id: self.id, animation_id: cur },
            );
            self.next_animation();
            proof {
                lemma_advance_wf(
                    old(self).model(),
                    old(self).spec_repeat(),
                    old(self).durations(),
                );
            }
        } else {
            self.state.progress = clamped;
        }
        ot
    }

    /// Advances the sequence by `elapsed_ms`, exactly as `seq_tick`
    /// describes: the current step is integrated; each step that finishes
    /// emits one completion event and spills its overtime into the next step
    /// within the same call, until the overtime is consumed or the sequence
    /// completes. A completed sequence ignores the tick and emits nothing.
    pub fn tick(
        &mut self,
        target: &mut L::C,
        elapsed_ms: u64,
        entity: u64,
        events: &mut Vec<AnimationCompleted>,
    )
        requires
            old(self).inv(),
            elapsed_ms <= MAX_TICK_MS,
        ensures
            final(self).inv(),
            final(self).steps() == old(self).steps(),
            final(self).spec_repeat() == old(self).spec_repeat(),
            final(self).spec_id() == old(self).spec_id(),
            final(self).model() == seq_tick_next(
                old(self).model(),
                old(self).spec_repeat(),
                old(self).durations(),
                elapsed_ms as int,
            ),
            final(events)@ == old(events)@ + completion_events(
                entity,
                old(self).spec_id(),
                seq_tick_finished(
                    old(self).model(),
                    old(self).spec_repeat(),
                    old(self).durations(),
                    elapsed_ms as int,
                ),
            ),
            old(self).model().completed ==> *final(target) == *old(target),
    {
        let ghost m0 = self.model();
        let ghost ds = self.durations();
        let ghost rep = self.spec_repeat();
        let ghost id0 = self.spec_id();
        let ghost evs0 = events@;
        let ghost steps0 = self.steps();
        if self.state.completed {
            proof {
                assert(evs0 + completion_events(
                    entity,
                    id0,
                    seq_tick_finished(m0, rep, ds, elapsed_ms as int),
                ) =~= evs0);
            }
            return ;
        }
        let mut ot = self.tick_step(target, elapsed_ms, entity, events);
        proof {
            lemma_tick_compose(m0, rep, ds, elapsed_ms as int, entity, id0, evs0, events@);
        }
        while ot > 0 && !self.state.completed
            invariant
                self.inv(),
                self.steps() == steps0,
                self.durations() == ds,
                self.spec_repeat() == rep,
                self.spec_id() == id0,
                ot <= MAX_TICK_MS,
                (ot > 0 && !self.model().completed) ==> at_entry(self.model(), ds),
                seq_tick_next(m0, rep, ds, elapsed_ms as int) == (if ot > 0
                    && !self.model().completed {
                    seq_tick_next(self.model(), rep, ds, ot as int)
                } else {
                    self.model()
                }),
                evs0 + completion_events(
                    entity,
                    id0,
                    seq_tick_finished(m0, rep, ds, elapsed_ms as int),
                ) == (if ot > 0 && !self.model().completed {
                    events@ + completion_events(
                        entity,
                        id0,
                        seq_tick_finished(self.model(), rep, ds, ot as int),
                    )
                } else {
                    events@
                }),
            decreases ot,
        {
            let prev_ot = ot;
            let ghost mi = self.model();
            let ghost evi = events@;
            ot = self.tick_step(target, prev_ot, entity, events);
            proof {
                lemma_tick_compose(mi, rep, ds, prev_ot as int, entity, id0, evi, events@);
            }
        }
    }
}

/// How one `seq_tick` relates to its first `step_once` and the remaining
/// spill: the glue that lets an iterative tick retrace the recursive
/// transition, both for the state and for the event sequence.
proof fn lemma_tick_compose(
    m: SequenceModel,
    rep: Repeat,
    ds: Seq<int>,
    e: int,
    entity: u64,
    id: Option<u32>,
    evs: Seq<AnimationCompleted>,
    evs_after: Seq<AnimationCompleted>,
)
    requires
        seq_wf(m, ds),
        !m.completed,
        0 <= e,
        evs_after == (if step_once(m, rep, ds, e).1 {
            evs.push(
                (AnimationCompleted {
                    entity,
                    animator_id: id,
                    animation_id: m.current as usize,
                }),
            )
        } else {
            evs
        }),
    ensures
        ({
            let s1 = step_once(m, rep, ds, e).0;
            let cross = step_once(m, rep, ds, e).1;
            let ot = step_once(m, rep, ds, e).2;
            &&& (cross && !s1.completed && ot > 0 ==> seq_tick_next(m, rep, ds, e)
                == seq_tick_next(s1, rep, ds, ot))
            &&& (!(cross && !s1.completed && ot > 0) ==> seq_tick_next(m, rep, ds, e) == s1)
            &&& (cross && !s1.completed && ot > 0 ==> evs + completion_events(
                entity,
                id,
                seq_tick_finished(m, rep, ds, e),
            ) == evs_after + completion_events(entity, id, seq_tick_finished(s1, rep, ds, ot)))
            &&& (!(cross && !s1.completed && ot > 0) ==> evs + completion_events(
                entity,
                id,
                seq_tick_finished(m, rep, ds, e),
            ) == evs_after)
        }),
{
    let s1 = step_once(m, rep, ds, e).0;
    let cross = step_once(m, rep, ds, e).1;
    let ot = step_once(m, rep, ds, e).2;
    let ev = AnimationCompleted { entity, animator_id: id, animation_id: m.current as usize };
    if cross {
        if !s1.completed && ot > 0 {
            let rest = seq_tick_finished(s1, rep, ds, ot);
            assert(seq_tick_finished(m, rep, ds, e) == seq![m.current] + rest);
            assert(evs + completion_events(entity, id, seq![m.current] + rest) =~= evs.push(ev)
                + completion_events(entity, id, rest));
        } else {
            assert(seq_tick_finished(m, rep, ds, e) == seq![m.current]);
            assert(evs + completion_events(entity, id, seq![m.current]) =~= evs.push(ev));
        }
    } else {
        assert(seq_tick_finished(m, rep, ds, e) == Seq::<int>::empty());
        assert(evs + completion_events(entity, id, Seq::<int>::empty()) =~= evs);
    }
}

/// Law: a completed sequence animator is a fixed point. Whatever the elapsed
/// time, a tick leaves the state unchanged and finishes no step, so it emits
/// no events. A sequence built from an empty step list starts completed, so
/// this holds for it from the first tick on.
pub proof fn lemma_seq_completed_tick_fixed(m: SequenceModel, rep: Repeat, ds: Seq<int>, e: int)
    requires
        m.completed,
        seq_wf(m, ds),
        0 <= e,
    ensures
        seq_tick_next(m, rep, ds, e) == m,
        seq_tick_finished(m, rep, ds, e) == Seq::<int>::empty(),
{
}

} // verus!
