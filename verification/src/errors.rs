//! The errors a supervision operation can report to a client.

use vstd::prelude::*;

verus! {

/// Everything that can go wrong with a client-visible operation.
///
/// State-invariant violations (`AlreadyDead`, `StillActive`,
/// `CannotRestartRunning`) and `NotFound` are detected synchronously and
/// returned verbatim; retrying them would not change the outcome.
/// `SpawnError` covers invalid command text as well as a launch the OS
/// refused; `ProcessLookupFailed` means the stored pid is no longer in the
/// OS process table; `StorageError` is a registry I/O failure or an
/// unreadable stored record.
#[derive(Clone, Copy, Debug, PartialEq, Eq, Structural)]
pub enum ProcessError {
    NotFound,
    AlreadyExists,
    AlreadyDead,
    StillActive,
    CannotRestartRunning,
    SpawnError,
    ProcessLookupFailed,
    StorageError,
}

impl ProcessError {
    /// The short human-readable reason for this error, for the caller to
    /// echo next to the offending process name.
    pub fn message(&self) -> (m: &'static str)
        ensures
            *self is NotFound ==> m@ == "Process not found"@,
            *self is AlreadyExists ==> m@ == "Process with the same name already exists"@,
            *self is AlreadyDead ==> m@ == "Can't kill dead process"@,
            *self is StillActive ==> m@ == "Cannot delete active process"@,
            *self is CannotRestartRunning ==> m@ == "Cannot restart running process"@,
            *self is SpawnError ==> m@ == "Invalid or unlaunchable command"@,
            *self is ProcessLookupFailed ==> m@ == "Couldn't find process"@,
            *self is StorageError ==> m@ == "Process storage failure"@,
    {
        match self {
            ProcessError::NotFound => "Process not found",
            ProcessError::AlreadyExists => "Process with the same name already exists",
            ProcessError::AlreadyDead => "Can't kill dead process",
            ProcessError::StillActive => "Cannot delete active process",
            ProcessError::CannotRestartRunning => "Cannot restart running process",
            ProcessError::SpawnError => "Invalid or unlaunchable command",
            ProcessError::ProcessLookupFailed => "Couldn't find process",
            ProcessError::StorageError => "Process storage failure",
        }
    }
}

} // verus!
