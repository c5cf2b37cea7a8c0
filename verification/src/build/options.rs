//! What a build is asked to do.

use vstd::prelude::*;

verus! {

/// The cargo subcommand that a build runs.
#[derive(Debug, Clone, Copy, PartialEq, Eq, Structural)]
pub enum CargoOperation {
    /// `cargo build`
    Build,
    /// `cargo check`
    Check,
    /// `cargo test`
    Test,
}

impl CargoOperation {
    /// The name of the subcommand.
    pub open spec fn name(&self) -> Seq<char> {
        match self {
            CargoOperation::Build => "build"@,
            CargoOperation::Check => "check"@,
            CargoOperation::Test => "test"@,
        }
    }

    /// What the operation is doing, for the operator.
    pub open spec fn doing(&self) -> Seq<char> {
        match self {
            CargoOperation::Build => "Building"@,
            CargoOperation::Check => "Checking"@,
            CargoOperation::Test => "Testing"@,
        }
    }

    /// The name of the subcommand.
    #[must_use]
    pub fn as_str(&self) -> (name: &'static str)
        ensures
            name@ == self.name(),
    {
        match self {
            CargoOperation::Build => "build",
            CargoOperation::Check => "check",
            CargoOperation::Test => "test",
        }
    }

    /// What the operation is doing, for the operator.
    #[must_use]
    pub fn description(&self) -> (text: &'static str)
        ensures
            text@ == self.doing(),
    {
        match self {
            CargoOperation::Build => "Building",
            CargoOperation::Check => "Checking",
            CargoOperation::Test => "Testing",
        }
    }
}

impl Default for CargoOperation {
    fn default() -> (operation: CargoOperation)
        ensures
            operation == CargoOperation::Build,
    {
        CargoOperation::Build
    }
}

/// The options of one build.
#[derive(Debug, Clone)]
pub struct BuildOptions {
    /// The target to build for, as a triple or a short name.
    pub target: Option<String>,
    /// Whether to build in release mode.
    pub release: bool,
    /// Arguments that are handed on to cargo as they are.
    pub cargo_args: Vec<String>,
    /// The toolchain to use; the active one where none is named.
    pub toolchain: Option<String>,
    /// Whether cargo is asked to be verbose.
    pub verbose: bool,
    /// Whether to build in a container.
    pub use_container: bool,
    /// Whether to build with Zig: `None` leaves the choice open.
    pub use_zig: Option<bool>,
    /// The cargo subcommand.
    pub operation: CargoOperation,
}

impl Default for BuildOptions {
    fn default() -> (options: BuildOptions)
        ensures
            options.target is None,
            !options.release,
            options.cargo_args@.len() == 0,
            options.toolchain is None,
            !options.verbose,
            !options.use_container,
            options.use_zig is None,
            options.operation == CargoOperation::Build,
    {
        BuildOptions {
            target: None,
            release: false,
            cargo_args: Vec::new(),
            toolchain: None,
            verbose: false,
            use_container: false,
            use_zig: None,
            operation: CargoOperation::Build,
        }
    }
}

} // verus!
