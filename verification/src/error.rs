//! Why a launch did not produce a running backend.

use vstd::prelude::*;

verus! {

/// The part of the log setup that a launch could not create.
#[derive(Clone, Copy, Debug, PartialEq, Eq, Structural)]
pub enum LogTarget {
    /// The `logs` directory under the data root.
    Directory,
    /// The file that receives the backend's standard output.
    Stdout,
    /// The file that receives the backend's standard error.
    Stderr,
}

/// A failed launch. None of these stops the shell: it goes on without a
/// backend.
#[derive(Clone, Copy, Debug, PartialEq, Eq, Structural)]
pub enum LaunchError {
    /// No executable at the resolved place, or no place could be resolved.
    BinaryNotFound,
    /// The log directory or one of the two log files could not be created.
    LogFileError(LogTarget),
    /// The operating system refused to create the process.
    SpawnError,
}

impl LaunchError {
    /// The line that describes this error in the shell's log.
    pub open spec fn message_text(self) -> Seq<char> {
        match self {
            LaunchError::BinaryNotFound => "backend binary not found"@,
            LaunchError::LogFileError(LogTarget::Directory) => "failed to create log directory"@,
            LaunchError::LogFileError(LogTarget::Stdout) => "failed to create stdout log"@,
            LaunchError::LogFileError(LogTarget::Stderr) => "failed to create stderr log"@,
            LaunchError::SpawnError => "failed to spawn backend process"@,
        }
    }

    /// The line that describes this error in the shell's log.
    pub fn message(self) -> (text: &'static str)
        ensures
            text@ == self.message_text(),
    {
        match self {
            LaunchError::BinaryNotFound => "backend binary not found",
            LaunchError::LogFileError(LogTarget::Directory) => "failed to create log directory",
            LaunchError::LogFileError(LogTarget::Stdout) => "failed to create stdout log",
            LaunchError::LogFileError(LogTarget::Stderr) => "failed to create stderr log",
            LaunchError::SpawnError => "failed to spawn backend process",
        }
    }
}

} // verus!
