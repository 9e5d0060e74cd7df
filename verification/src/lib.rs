//! Hidden stat triples of a creature (its "individual values"), the coarse
//! verdicts the game gives on them, and the test whether a triple is
//! consistent with such a verdict.
//!
//! - [`model`] holds the mathematical model of the data.
//! - [`ivs`] holds the validated types and their operations.
//! - [`laws`] holds what is proved of these operations for all values.
//! - [`stardust`] holds the levels that go with the cost of a power-up.

pub mod ivs;
pub mod laws;
pub mod model;
pub mod stardust;

pub use stardust::possible_levels;
