//! The errors that the library reports.

use vstd::prelude::*;

verus! {

/// What went wrong, with a message for the operator.
#[derive(Debug, Clone, PartialEq, Eq)]
pub enum Error {
    /// An identifier that is not a target triple.
    TargetNotFound(String),
    /// The toolchain could not be asked, or refused what was asked.
    Toolchain(String),
    /// The compiler could not be started or ended with a failure.
    Build(String),
    /// A configuration or cache file that cannot be used.
    Config(String),
    /// A file that cannot be reached.
    Io(String),
}

impl Error {
    /// The message that the error carries.
    pub open spec fn text(&self) -> Seq<char> {
        match self {
            Error::TargetNotFound(m) => m@,
            Error::Toolchain(m) => m@,
            Error::Build(m) => m@,
            Error::Config(m) => m@,
            Error::Io(m) => m@,
        }
    }

    /// A copy of this error.
    pub fn copy(&self) -> (copy: Error)
        ensures
            copy == *self,
    {
        match self {
            Error::TargetNotFound(m) => Error::TargetNotFound(m.clone()),
            Error::Toolchain(m) => Error::Toolchain(m.clone()),
            Error::Build(m) => Error::Build(m.clone()),
            Error::Config(m) => Error::Config(m.clone()),
            Error::Io(m) => Error::Io(m.clone()),
        }
    }

    /// The message that the error carries.
    pub fn message(&self) -> (m: &String)
        ensures
            m@ == self.text(),
    {
        match self {
            Error::TargetNotFound(m) => m,
            Error::Toolchain(m) => m,
            Error::Build(m) => m,
            Error::Config(m) => m,
            Error::Io(m) => m,
        }
    }
}

} // verus!
