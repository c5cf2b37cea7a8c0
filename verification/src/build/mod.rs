//! Builds: their options, the steps of one build, and the outcome of many.

pub mod attempt;
pub mod options;
pub mod outcome;

pub use attempt::{BuildAction, BuildAttempt, BuildEvent, BuildState, Builder};
pub use options::{BuildOptions, CargoOperation};
pub use outcome::{BuildOutcome, TargetResult};
