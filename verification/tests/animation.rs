//! Curves, lenses and the interpolation step.

use bevy_toolbox::animation::{
    AnimationCurve, AnimationDirection, AnimationLens, Transform, TransformScaleLens,
    TransformTranslationLens, Vec3i,
};
use bevy_toolbox::curves::{linear, second_order, third_order};
use bevy_toolbox::frac::{lerp_i64, Frac};

fn half() -> Frac {
    Frac { num: 1, den: 2 }
}

fn transform_at_origin() -> Transform {
    Transform {
        translation: Vec3i { x: 0, y: 0, z: 0 },
        scale: Vec3i { x: 1, y: 1, z: 1 },
    }
}

#[test]
fn step_curve_boundary() {
    let curve = AnimationCurve::Step(half());
    let at_cutoff = curve.eval(Frac { num: 50000, den: 100000 });
    assert_eq!(at_cutoff, Frac { num: 1, den: 1 });
    let past_cutoff = curve.eval(Frac { num: 50001, den: 100000 });
    assert_eq!(past_cutoff, Frac { num: 0, den: 1 });
}

#[test]
fn step_curve_extremes() {
    let curve = AnimationCurve::Step(half());
    assert_eq!(curve.eval(Frac { num: 0, den: 1000 }), Frac { num: 1, den: 1 });
    assert_eq!(curve.eval(Frac { num: 1000, den: 1000 }), Frac { num: 0, den: 1 });
}

#[test]
fn linear_curve_is_identity() {
    let curve = AnimationCurve::Linear;
    let p = Frac { num: 250, den: 1000 };
    assert_eq!(curve.eval(p), p);
    assert_eq!(linear(p), p);
}

#[test]
fn second_order_curve_squares() {
    let p = Frac { num: 500, den: 1000 };
    let r = second_order(p);
    assert_eq!(r, Frac { num: 250000, den: 1000000 });
    assert_eq!(AnimationCurve::SecondOrder.eval(p), r);
}

#[test]
fn third_order_curve_cubes() {
    let p = Frac { num: 1, den: 2 };
    let r = third_order(p);
    assert_eq!(r, Frac { num: 1, den: 8 });
    assert_eq!(AnimationCurve::ThirdOrder.eval(p), r);
}

#[test]
fn lerp_rounds_towards_start() {
    assert_eq!(lerp_i64(0, 10, Frac { num: 1, den: 3 }), 3);
    assert_eq!(lerp_i64(10, 0, Frac { num: 1, den: 3 }), 7);
    assert_eq!(lerp_i64(-100, 100, Frac { num: 1, den: 2 }), 0);
    assert_eq!(lerp_i64(0, -1000, Frac { num: 1, den: 3 }), -333);
    assert_eq!(lerp_i64(5, 5, Frac { num: 7, den: 9 }), 5);
}

#[test]
fn lerp_endpoints() {
    assert_eq!(lerp_i64(-7, 42, Frac { num: 0, den: 1 }), -7);
    assert_eq!(lerp_i64(-7, 42, Frac { num: 1, den: 1 }), 42);
}

#[test]
fn direction_start_point_factor_opposite() {
    assert_eq!(AnimationDirection::Forward.start_point(2000), 0);
    assert_eq!(AnimationDirection::Backward.start_point(2000), 2000);
    assert_eq!(AnimationDirection::Forward.factor(), 1);
    assert_eq!(AnimationDirection::Backward.factor(), -1);
    assert_eq!(AnimationDirection::Forward.opposite(), AnimationDirection::Backward);
    assert_eq!(AnimationDirection::Backward.opposite(), AnimationDirection::Forward);
}

#[test]
fn translation_lens_writes_translation_only() {
    let lens = TransformTranslationLens {
        start: Vec3i { x: 0, y: 0, z: 0 },
        end: Vec3i { x: 1000, y: 2000, z: 0 },
    };
    let mut target = transform_at_origin();
    lens.lerp(&mut target, Frac { num: 1, den: 4 });
    assert_eq!(target.translation, Vec3i { x: 250, y: 500, z: 0 });
    assert_eq!(target.scale, Vec3i { x: 1, y: 1, z: 1 });
}

#[test]
fn scale_lens_writes_scale_only() {
    let lens = TransformScaleLens {
        start: Vec3i { x: 1, y: 1, z: 1 },
        end: Vec3i { x: 3, y: 3, z: 1 },
    };
    let mut target = transform_at_origin();
    lens.lerp(&mut target, Frac { num: 1, den: 2 });
    assert_eq!(target.scale, Vec3i { x: 2, y: 2, z: 1 });
    assert_eq!(target.translation, Vec3i { x: 0, y: 0, z: 0 });
}
