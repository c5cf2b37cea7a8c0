//! Target platforms: triples and what they parse to, the tier of a target,
//! short names, and what the toolchain reports of targets.

pub mod alias;
pub mod tier;
pub mod toolchain;
pub mod triple;

pub use alias::{alias_target, host_view, is_arm_mac, lowercase, resolved};
pub use tier::{has_specialized_marker, is_native_triple, tier_of, TargetTier};
pub use toolchain::{host_line, listed_name, listed_targets, lists_triple, views};
pub use triple::{canonical, invalid_triple_message, parse_triple, Target, TargetView};
