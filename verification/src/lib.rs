//! A verified animation toolbox for 2D game prototypes: easing curves,
//! single-step and sequenced tween animators with repeat / mirror semantics
//! and exact overtime carry-over, plus grid-coordinate and inventory helpers.
//!
//! Time is measured in whole milliseconds and progress through a step is the
//! exact fraction `elapsed_ms / duration_ms`, so every state transition of the
//! animators is integer arithmetic and is verified precisely.

pub mod animation;
pub mod animator;
pub mod curves;
pub mod frac;
pub mod grid;
pub mod inventory;
pub mod items;
pub mod sequence;
