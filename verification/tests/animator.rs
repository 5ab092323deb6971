//! The single-step animator: integration, repeat policies and completion.

use bevy_toolbox::animation::{
    Animation, AnimationCompleted, AnimationCurve, AnimationDirection, Repeat, Transform,
    TransformTranslationLens, Vec3i,
};
use bevy_toolbox::animator::Animator;
use bevy_toolbox::frac::Frac;

fn translation_lens(end_x: i64) -> TransformTranslationLens {
    TransformTranslationLens {
        start: Vec3i { x: 0, y: 0, z: 0 },
        end: Vec3i { x: end_x, y: 0, z: 0 },
    }
}

fn target() -> Transform {
    Transform {
        translation: Vec3i { x: 0, y: 0, z: 0 },
        scale: Vec3i { x: 1, y: 1, z: 1 },
    }
}

#[test]
fn once_linear_end_to_end() {
    let animation = Animation { duration: 2000, curve: AnimationCurve::Linear };
    let mut animator = Animator::new(animation, Repeat::Once, translation_lens(1000));
    let mut t = target();
    let mut events: Vec<AnimationCompleted> = Vec::new();

    assert_eq!(animator.duration_ms(), 2000);
    let p1 = animator.tick(&mut t, 1000, 5, &mut events);
    assert_eq!(p1, Frac { num: 1000, den: 2000 });
    assert!(!animator.completed());
    assert_eq!(t.translation.x, 500);
    assert!(events.is_empty());

    let p2 = animator.tick(&mut t, 1500, 5, &mut events);
    assert_eq!(p2, Frac { num: 2000, den: 2000 });
    assert!(animator.completed());
    assert_eq!(t.translation.x, 1000);
    assert_eq!(events.len(), 1);
    assert_eq!(
        events[0],
        AnimationCompleted { entity: 5, animator_id: None, animation_id: 0 }
    );
}

#[test]
fn once_completed_is_fixed_point() {
    let animation = Animation { duration: 1000, curve: AnimationCurve::Linear };
    let mut animator = Animator::new(animation, Repeat::Once, translation_lens(100));
    let mut t = target();
    let mut events: Vec<AnimationCompleted> = Vec::new();

    animator.tick(&mut t, 1500, 1, &mut events);
    assert!(animator.completed());
    assert_eq!(animator.progress_ms(), 1000);
    assert_eq!(events.len(), 1);
    let frozen = t;

    for elapsed in [0u64, 1, 999, 123456789] {
        let p = animator.tick(&mut t, elapsed, 1, &mut events);
        assert_eq!(p, Frac { num: 1000, den: 1000 });
        assert_eq!(animator.progress_ms(), 1000);
        assert!(animator.completed());
        assert_eq!(events.len(), 1);
        assert_eq!(t, frozen);
    }
}

#[test]
fn always_wraps_multi_lap() {
    let animation = Animation { duration: 1000, curve: AnimationCurve::Linear };
    let mut animator = Animator::new(animation, Repeat::Always, translation_lens(100));
    let mut t = target();
    let mut events: Vec<AnimationCompleted> = Vec::new();

    // five and a half laps in one tick still reduce modulo the duration
    animator.tick(&mut t, 5500, 2, &mut events);
    assert_eq!(animator.progress_ms(), 500);
    assert!(!animator.completed());
    assert!(events.is_empty());

    // an exact multiple of the duration lands on the boundary itself
    animator.tick(&mut t, 2500, 2, &mut events);
    assert_eq!(animator.progress_ms(), 1000);

    // and one more millisecond wraps past it
    animator.tick(&mut t, 1, 2, &mut events);
    assert_eq!(animator.progress_ms(), 1);
    assert!(events.is_empty());
}

#[test]
fn always_stays_within_bounds() {
    let animation = Animation { duration: 700, curve: AnimationCurve::Linear };
    let mut animator = Animator::new(animation, Repeat::Always, translation_lens(100));
    let mut t = target();
    let mut events: Vec<AnimationCompleted> = Vec::new();
    for elapsed in [1u64, 699, 700, 701, 1399, 1400, 98765, 1_000_000_000] {
        animator.tick(&mut t, elapsed, 3, &mut events);
        assert!(animator.progress_ms() <= 700);
        assert!(!animator.completed());
    }
    assert!(events.is_empty());
}

#[test]
fn mirrored_flips_once_and_mirrors_overshoot() {
    let animation = Animation { duration: 1000, curve: AnimationCurve::Linear };
    let mut animator = Animator::new(animation, Repeat::Mirrored, translation_lens(100));
    let mut t = target();
    let mut events: Vec<AnimationCompleted> = Vec::new();

    // forward crossing: overshoot 300 reflects to 700, direction flips
    animator.tick(&mut t, 1300, 4, &mut events);
    assert_eq!(animator.progress_ms(), 700);
    assert_eq!(animator.direction(), AnimationDirection::Backward);

    // backward crossing: undershoot 200 reflects to 200, direction flips back
    animator.tick(&mut t, 900, 4, &mut events);
    assert_eq!(animator.progress_ms(), 200);
    assert_eq!(animator.direction(), AnimationDirection::Forward);

    // no crossing: no flip
    animator.tick(&mut t, 100, 4, &mut events);
    assert_eq!(animator.progress_ms(), 300);
    assert_eq!(animator.direction(), AnimationDirection::Forward);

    assert!(events.is_empty());
    assert!(!animator.completed());
}

#[test]
fn mirrored_multi_lap_keeps_parity() {
    let animation = Animation { duration: 1000, curve: AnimationCurve::Linear };
    // an even number of crossings leaves the direction unchanged
    let mut a = Animator::new(animation, Repeat::Mirrored, translation_lens(100));
    let mut t = target();
    let mut events: Vec<AnimationCompleted> = Vec::new();
    a.tick(&mut t, 2500, 6, &mut events);
    assert_eq!(a.progress_ms(), 500);
    assert_eq!(a.direction(), AnimationDirection::Forward);

    // an odd number flips it
    let mut b = Animator::new(animation, Repeat::Mirrored, translation_lens(100));
    b.tick(&mut t, 3500, 6, &mut events);
    assert_eq!(b.progress_ms(), 500);
    assert_eq!(b.direction(), AnimationDirection::Backward);
}

#[test]
fn backward_once_completes_at_zero() {
    let animation = Animation { duration: 1000, curve: AnimationCurve::Linear };
    let mut animator = Animator::new_with_direction(
        animation,
        AnimationDirection::Backward,
        Repeat::Once,
        translation_lens(800),
    )
    .with_id(7);
    let mut t = target();
    let mut events: Vec<AnimationCompleted> = Vec::new();

    assert_eq!(animator.progress_ms(), 1000);
    animator.tick(&mut t, 400, 9, &mut events);
    assert_eq!(animator.progress_ms(), 600);
    assert!(events.is_empty());

    animator.tick(&mut t, 700, 9, &mut events);
    assert!(animator.completed());
    assert_eq!(animator.progress_ms(), 0);
    assert_eq!(
        events,
        vec![AnimationCompleted { entity: 9, animator_id: Some(7), animation_id: 0 }]
    );

    // the terminal value reported after completion going backward is 0
    let p = animator.tick(&mut t, 1, 9, &mut events);
    assert_eq!(p, Frac { num: 0, den: 1000 });
}

#[test]
fn second_order_curve_drives_lens() {
    let animation = Animation { duration: 1000, curve: AnimationCurve::SecondOrder };
    let mut animator = Animator::new(animation, Repeat::Once, translation_lens(1000));
    let mut t = target();
    let mut events: Vec<AnimationCompleted> = Vec::new();
    animator.tick(&mut t, 500, 0, &mut events);
    // progress 1/2, eased to 1/4
    assert_eq!(t.translation.x, 250);
}
