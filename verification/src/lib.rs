//! Cut-scene sequencing for a small tile-based puzzle platformer.
//!
//! The library models the game session's cut-scene state machine: a
//! single-slot request channel establishes an active scene and freezes
//! normal gameplay; per-tick drivers then advance the scene through its
//! time windows, moving the camera and entities by piecewise-linear
//! interpolation, emitting audio signals, and handing control back when
//! the final window elapses.
//!
//! All quantities are plain integers: times are milliseconds since
//! startup, positions are world units, scales are millionths, rotations
//! are milli-turns.

pub mod activate;
pub mod arith;
pub mod camera;
pub mod intro;
pub mod model;
pub mod paths;
pub mod player;
pub mod tick;
pub mod transition;
pub mod trigger;
