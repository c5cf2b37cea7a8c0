//! Diagnostics of the machine that builds: what is installed, and what is
//! missing for cross-compilation.

pub mod checks;
pub mod report;

pub use checks::{Check, CheckResult, CheckStatus};
pub use report::{DoctorReport, ReportSummary};
