//! Decision and control core of a robot soccer team.
//!
//! The crate turns what vision and the referee report into snapshots of
//! the world (`perception`), a snapshot into one trajectory for each robot
//! (`gameplay`), and each robot's trajectory into velocity commands
//! (`motion`).
//!
//! Every quantity is a fixed-point integer: lengths are micrometres, speeds
//! micrometres per second, times microseconds, angles microdegrees and
//! angular speeds microdegrees per second. Quotients are rounded toward
//! zero and square roots down; the contracts say so exactly.

pub mod communication;
pub mod gameplay;
pub mod geom;
pub mod math;
pub mod motion;
pub mod perception;
pub mod world;
