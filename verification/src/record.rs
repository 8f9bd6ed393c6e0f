//! The persisted description of one managed process.

use vstd::prelude::*;

verus! {

/// The supervision state of a managed process.
#[derive(Clone, Copy, Debug, PartialEq, Eq, Structural)]
pub enum Status {
    Active,
    Dead,
}

impl Status {
    /// True exactly on the `Active` variant.
    pub fn is_active(&self) -> (r: bool)
        ensures
            r == (*self is Active),
    {
        match self {
            Status::Active => true,
            Status::Dead => false,
        }
    }
}

/// One registry record: everything the supervisor remembers about a named
/// process. The name itself is the registry key and is not repeated here.
///
/// `pid` is the OS process id of the most recent launch and is meaningful
/// only while `status` is `Active`. `command` is the full shell-style
/// command line, kept so a restart can reproduce the launch without client
/// input. `restart` is the auto-restart policy flag fixed at creation.
#[derive(Clone, Debug, PartialEq)]
pub struct Process {
    pub pid: u32,
    pub status: Status,
    pub command: String,
    pub restart: bool,
}

/// The mathematical shadow of a `Process`: the same four facts with the
/// command as a character sequence and the status as a plain boolean.
pub ghost struct ProcessModel {
    pub pid: u32,
    pub active: bool,
    pub command: Seq<char>,
    pub restart: bool,
}

impl View for Process {
    type V = ProcessModel;

    open spec fn view(&self) -> ProcessModel {
        ProcessModel {
            pid: self.pid,
            active: self.status is Active,
            command: self.command@,
            restart: self.restart,
        }
    }
}

impl Process {
    /// True exactly when the record's status is `Active`.
    pub fn is_active(&self) -> (r: bool)
        ensures
            r == self@.active,
    {
        self.status.is_active()
    }
}

} // verus!
