//! Stat bars: health, mana and progress indicators drawn as a few solid
//! rectangles next to an object of a 2D scene.
//!
//! The crate turns the description of a bar into an ordered list of placed,
//! coloured rectangles, and keeps the value that a bar shows in step with the
//! value source it observes. It draws nothing itself and knows no scene
//! graph: a host hands it positions and values and takes rectangles back.
//!
//! * [`scalar`], [`vector`], [`ease`]: the numbers. All of them are
//!   fixed-point, so every result is exact and every function is total.
//! * [`color`]: colours, and the rules that derive a colour from a value.
//! * [`bar`], [`geometry`], [`collection`]: bars, groups of bars, and the
//!   rectangles that draw them.
//! * [`observe`], [`effects`], [`pipeline`]: where a bar's value comes
//!   from, how its colour follows the value, and the cycle that does both
//!   and hands out the rectangles.
//!
//! A bar carries the type `F` of the function that a custom colour rule
//! holds. A host that has no such rule, or holds plain functions, takes
//! `fn(Color, Color, Scalar) -> Color` for it.

pub mod bar;
pub mod collection;
pub mod color;
pub mod ease;
pub mod effects;
pub mod geometry;
pub mod observe;
pub mod pipeline;
pub mod scalar;
pub mod vector;

pub use crate::bar::{Statbar, StatbarBorder};
pub use crate::collection::BarCollection;
pub use crate::color::{Color, ColorSpec, Hsla, Rgba};
pub use crate::effects::{StatbarColorLerp, StatbarColorSwitch};
pub use crate::geometry::{Anchor, Rect};
pub use crate::observe::{
    BindingState, ObjectId, ObservationBinding, Observers, StatbarObservable,
    StatbarObserveEntity, StatbarObserveParent, StatbarObserveResource,
};
pub use crate::pipeline::{DrawRequest, Object, Scene, Source, StatbarDepth, StatbarSystem};
pub use crate::scalar::Scalar;
pub use crate::vector::{Rotation, Vec2};
