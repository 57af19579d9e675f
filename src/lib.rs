//! A drifting-circles art toy: circles wander by bounded random steps inside a
//! viewport, leave a fixed-capacity trail of past snapshots, and are driven by a
//! play/pause controller.
//!
//! Real quantities are fixed-point integers: one unit is `1 / SCALE` of a pixel,
//! a degree of hue, or a whole saturation/lightness.

pub mod circle;
pub mod color;
pub mod history;
pub mod random;
pub mod range;
pub mod simulation;
pub mod text;

pub use circle::{Circle, Position, ViewWindow, RADIUS_MAX, RADIUS_MIN};
pub use color::{Color, ColorConfig};
pub use history::History;
pub use range::{ConfigError, RangeConfig, SCALE};
pub use simulation::{App, Effect, Msg, Status};
