//! Cross-compilation support: target triples and their tiers, the steps and
//! the outcome of builds, a cache that tells when a build can be skipped, and
//! diagnostics of the machine that builds.
//!
//! The library decides and computes. Whoever uses it runs the toolchain,
//! reads and writes the files, and hands the library what came of it. Two
//! things the library asks of the machine itself: the time, when a cache
//! entry is stamped, and whether the common linkers are on the search path.

pub mod build;
pub mod cache;
pub mod command;
pub mod doctor;
pub mod error;
pub mod prelude;
pub mod target;
pub mod text;

pub use error::Error;
