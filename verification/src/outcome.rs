//! What an attempt ends with.

use vstd::prelude::*;
use vstd::string::*;
use crate::text::{decimal, decimal_of};

verus! {

/// Why the latest published version could not be learned.
#[derive(Debug, Clone, Copy, PartialEq, Eq, Structural)]
pub enum FetchFailure {
    /// The registry could not be reached, or its answer could not be read.
    Network,
    /// The registry answered with a status outside the success range.
    HttpStatus(u16),
    /// The answer was not a version listing.
    Parse,
}

/// Why an attempt was abandoned. The running program goes on unchanged.
#[derive(Debug, Clone, Copy, PartialEq, Eq, Structural)]
pub enum RelaunchError {
    /// A marker already exists at the chosen path: another relaunch is under way.
    LockConflict,
    /// The marker could not be created.
    LockCreateFailure,
    /// The program was not started through the search path.
    OriginCheckFailure,
    /// The registry did not yield a version.
    RegistryFetchFailure(FetchFailure),
    /// The package manager could not be run.
    InstallFailure,
    /// The new instance could not be started.
    RelaunchSpawnFailure,
}

/// How an attempt ends when nothing went wrong and the program keeps running.
#[derive(Debug, Clone, Copy, PartialEq, Eq, Structural)]
pub enum Outcome {
    /// The running version is the latest one.
    NoUpdateNeeded,
    /// A different version exists and the confirmation policy said no.
    UserDeclined,
}

/// What the package manager run came to.
#[derive(Debug, Clone, Copy, PartialEq, Eq, Structural)]
pub enum InstallReport {
    /// The package manager could not be started or waited for.
    NotRun,
    /// The package manager ran to its end; `success` is its exit status.
    Exited { success: bool },
}

impl FetchFailure {
    /// What [`FetchFailure::message`] says of this failure.
    pub open spec fn message_of(self) -> Seq<char> {
        match self {
            FetchFailure::Network => "Failed to fetch from crates.io"@,
            FetchFailure::HttpStatus(status) => "Failed to fetch crate info: HTTP "@ + decimal_of(
                status as nat,
            ),
            FetchFailure::Parse => "Failed to get the latest version"@,
        }
    }

    /// Says in words what went wrong.
    pub fn message(&self) -> (text: String)
        ensures
            text@ == self.message_of(),
    {
        match self {
            FetchFailure::Network => String::from_str("Failed to fetch from crates.io"),
            FetchFailure::HttpStatus(status) => {
                let mut text = String::from_str("Failed to fetch crate info: HTTP ");
                let numeral = decimal(*status);
                text.append(numeral.as_str());
                text
            },
            FetchFailure::Parse => String::from_str("Failed to get the latest version"),
        }
    }
}

impl RelaunchError {
    /// What [`RelaunchError::message`] says of this error.
    pub open spec fn message_of(self) -> Seq<char> {
        match self {
            RelaunchError::LockConflict => "Program is already relaunching; avoiding infinite loop."@,
            RelaunchError::LockCreateFailure => "Failed to create lock file"@,
            RelaunchError::OriginCheckFailure => "Program must be executed from PATH, not from a full or relative path."@,
            RelaunchError::RegistryFetchFailure(_) => "Failed to get latest version"@,
            RelaunchError::InstallFailure => "Failed to run cargo install"@,
            RelaunchError::RelaunchSpawnFailure => "Failed to relaunch the program"@,
        }
    }

    /// Says in words why the attempt was abandoned. For a registry failure the
    /// detail is in [`FetchFailure::message`].
    pub fn message(&self) -> (text: String)
        ensures
            text@ == self.message_of(),
    {
        match self {
            RelaunchError::LockConflict => String::from_str(
                "Program is already relaunching; avoiding infinite loop.",
            ),
            RelaunchError::LockCreateFailure => String::from_str("Failed to create lock file"),
            RelaunchError::OriginCheckFailure => String::from_str(
                "Program must be executed from PATH, not from a full or relative path.",
            ),
            RelaunchError::RegistryFetchFailure(_) => String::from_str(
                "Failed to get latest version",
            ),
            RelaunchError::InstallFailure => String::from_str("Failed to run cargo install"),
            RelaunchError::RelaunchSpawnFailure => String::from_str(
                "Failed to relaunch the program",
            ),
        }
    }
}

} // verus!
