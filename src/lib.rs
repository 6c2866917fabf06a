//! Game rules of "Lots of Snow": menu flow, the enemy's health and its bar,
//! and the small decisions that the per-frame systems take.
//!
//! Quantities that the engine keeps as floats are held here as integers:
//! health in hundredths of a point, frame times in microseconds, and the
//! health bar in hundredths of a point times microseconds, so that a frame's
//! drain is exact. A bar's shown width is given as an exact fraction.

pub mod progressbar;
pub mod combat;
pub mod menu;
pub mod play;

mod chance;
