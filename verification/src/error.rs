//! Exit statuses and the error type shared by every layer.

use vstd::prelude::*;

verus! {

/// The operating system's I/O error, carried through without being inspected.
#[verifier::external_type_specification]
#[verifier::external_body]
pub struct ExIoError(std::io::Error);

/// How a process ended: by leaving with a code, or through a signal.
#[derive(Debug, Clone, Copy, PartialEq, Eq, Structural)]
pub enum ExitStatus {
    /// The process returned this code.
    Exited(i32),
    /// The process was terminated by this signal.
    Signaled(i32),
}

impl ExitStatus {
    /// Whether the process left with code zero.
    pub open spec fn is_success(self) -> bool {
        self == ExitStatus::Exited(0)
    }

    /// Whether the process left with code zero.
    pub fn success(&self) -> (r: bool)
        ensures
            r == self.is_success(),
    {
        match self {
            ExitStatus::Exited(code) => *code == 0,
            ExitStatus::Signaled(_) => false,
        }
    }

    /// The exit code, absent when a signal ended the process.
    pub fn code(&self) -> (r: Option<i32>)
        ensures
            r == (match *self {
                ExitStatus::Exited(code) => Some(code),
                ExitStatus::Signaled(_) => None,
            }),
    {
        match self {
            ExitStatus::Exited(code) => Some(*code),
            ExitStatus::Signaled(_) => None,
        }
    }

    /// The terminating signal, absent when the process left by itself.
    pub fn signal(&self) -> (r: Option<i32>)
        ensures
            r == (match *self {
                ExitStatus::Exited(_) => None,
                ExitStatus::Signaled(signal) => Some(signal),
            }),
    {
        match self {
            ExitStatus::Exited(_) => None,
            ExitStatus::Signaled(signal) => Some(*signal),
        }
    }
}

/// Everything that can go wrong between a lifecycle request and its result.
#[derive(Debug)]
pub enum Error {
    /// The runtime binary could not be started.
    ProcessSpawnError(std::io::Error),
    /// Waiting for, or talking to, the started binary failed.
    CommandError(std::io::Error),
    /// The binary ran and returned a non-zero status.
    CommandFaliedError { status: ExitStatus, stdout: String, stderr: String },
    /// The binary did not finish within the configured time.
    CommandTimeoutError,
    /// Captured output was not the structured data that was expected; the
    /// decoder's message says why.
    JsonDeserializationError(String),
    /// The auxiliary document for an invocation could not be written.
    SpecFileCreationError(std::io::Error),
    /// A statistics query answered without statistics.
    MissingContainerStatsError,
    /// No process is registered under the requested id.
    NotFound,
    /// The targeted process is in a state in which the request is not valid.
    InvalidState,
    /// The named lifecycle verb is not provided at this layer.
    UnimplementedError(String),
}

} // verus!
