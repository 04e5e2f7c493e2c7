//! Core simulation of a top-down arena combat game: per-frame player and
//! enemy movement, animation-range selection, weapon targeting, projectile
//! lifecycle, collision and damage resolution, the wave/stage spawner and the
//! experience/leveling gate.
//!
//! All geometry is integer fixed point: positions and lengths are measured in
//! milli-units (one thousandth of a world unit), time in milliseconds, and
//! ratios in per-mille.

pub mod level;
pub mod math;
pub mod player;
pub mod projectile_spawner;
pub mod rng;
pub mod session;
pub mod spawner;
pub mod weapons;
pub mod sprite;
pub mod timer;
