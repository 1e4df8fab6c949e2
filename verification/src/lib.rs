//! Verified core of a first-person locomotion prototype.
//!
//! The library models the per-tick gameplay logic of a mouse-driven
//! character controller: a pointer-motion aggregator, camera orientation
//! (yaw and clamped pitch), a locomotion controller whose acceleration is
//! gated by a mouse-circling intensity heuristic, a kinematic integrator
//! (gravity and grounded handling), and the heads-up-display data it feeds.
//!
//! All physical quantities are fixed-point numbers: an `i64` holding the
//! quantity times 1000 (thousandths of the base unit — seconds, metres per
//! second, radians, pointer counts). Products of two fixed-point values are
//! rescaled by a division that truncates toward zero; the `math` module
//! defines that arithmetic and proves its bounds.
//!
//! The host engine (rendering, collision resolution, raw input delivery) is
//! an external collaborator: each tick it hands the library the summed
//! pointer delta, the elapsed time and the previous tick's grounded flag,
//! and receives back a translation request for its kinematic character
//! controller.

pub mod hud;
pub mod input;
pub mod math;
pub mod meme;
pub mod player;
pub mod scene;
pub mod state;
