//! The items that most callers need, in one place.

pub use crate::build::{BuildOptions, Builder, CargoOperation};
pub use crate::cache::BuildCache;
pub use crate::error::Error;
pub use crate::target::{Target, TargetTier};
