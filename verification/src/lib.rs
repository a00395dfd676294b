//! Verified core of a small astronomy engine: the integer side of turning a
//! Unix timestamp into a calendar instant, and the chain of SGP4 steps that
//! turns a two-line element set and an instant into a satellite prediction.
//!
//! Floating-point work (splitting a time in seconds, rotations, horizon
//! coordinates, the star catalogue) lives in the companion application crate.

pub mod time;
pub mod tle;
pub mod propagation;
