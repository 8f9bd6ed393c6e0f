//! The orchestration service: the state-transition rules behind the
//! client-facing start, kill, delete, restart and list operations, and the
//! bookkeeping the watch and restart tasks run when a child exits.
//!
//! Every operation that touches the OS is split at that edge: the caller
//! spawns or signals the actual process and hands this service the plain
//! outcome (a pid, an exit code), and the service performs and checks the
//! registry transition. What each operation does to the registry is stated
//! over the transition functions of `crate::model`.

use vstd::prelude::*;

use crate::errors::ProcessError;
use crate::model::{
    after_mark_dead, after_relaunch, after_start, delete_allowed, has_name, name_key, rec_at,
    spec_should_relaunch, start_allowed,
};
use crate::record::{Process, Status};
use crate::registry::Registry;

verus! {

/// What a restart has to do before it can relaunch: the record whose
/// stored command is to be launched again, and the pid the caller must
/// first kill, where the process is still running (a forced restart).
#[derive(Debug)]
pub struct RestartPlan {
    pub kill_first: Option<u32>,
    pub record: Process,
}

/// The decision the restart task takes once an exit code is known:
/// relaunch exactly when the child reported a non-zero code. An exit
/// without a code (the child was ended by a signal) does not relaunch.
pub fn should_relaunch(exit_code: Option<i32>) -> (r: bool)
    ensures
        r == spec_should_relaunch(exit_code),
{
    match exit_code {
        Some(c) => c != 0,
        None => false,
    }
}

/// The service that enforces the supervision state invariants over the
/// registry: no duplicate names, no killing a dead process, no deleting an
/// active one, no restart of a running one without force.
pub struct ProcessManager {
    registry: Registry,
}

impl View for ProcessManager {
    type V = Map<Seq<u8>, Seq<u8>>;

    closed spec fn view(&self) -> Map<Seq<u8>, Seq<u8>> {
        self.registry@
    }
}

impl ProcessManager {
    /// Put the service over an opened registry.
    pub fn new(registry: Registry) -> (r: ProcessManager)
        ensures
            r@ == registry@,
    {
        ProcessManager { registry }
    }

    /// Record a fresh launch of `command` under `name`, already spawned by
    /// the caller as OS process `pid`. Succeeds only where the name is
    /// still free; the check and the insertion are one atomic step, so of
    /// two racing starts for one name at most one is told `Ok`.
    pub fn start(&mut self, name: &str, auto_restart: bool, command: &str, pid: u32) -> (r: Result<
        (),
        ProcessError,
    >)
        ensures
            r is Ok ==> start_allowed(old(self)@, name@) && final(self)@ == after_start(
                old(self)@,
                name@,
                pid,
                auto_restart,
                command@,
            ),
            r matches Err(e) ==> e is AlreadyExists || e is StorageError,
            r matches Err(e) && e is AlreadyExists ==> !start_allowed(old(self)@, name@)
                && final(self)@ == old(self)@,
    {
        let record = Process {
            pid,
            status: Status::Active,
            command: command.to_owned(),
            restart: auto_restart,
        };
        self.registry.insert_if_absent(name, &record)
    }

    /// Check that `name` may be killed and say which pid to signal. The
    /// caller delivers the signal to the returned pid and reports
    /// `ProcessLookupFailed` where the OS no longer knows it; the record
    /// itself is left to the watch bookkeeping, which turns it dead when
    /// the exit is observed.
    pub fn kill(&mut self, name: &str) -> (r: Result<u32, ProcessError>)
        ensures
            final(self)@ == old(self)@,
            r matches Ok(pid) ==> (rec_at(final(self)@, name@) matches Some(m) && m.active
                && pid == m.pid),
            r matches Err(e) ==> e is NotFound || e is AlreadyDead || e is StorageError,
            r matches Err(e) && e is AlreadyDead ==> (rec_at(final(self)@, name@) matches Some(
                m,
            ) && !m.active),
            r matches Err(e) && e is NotFound ==> !has_name(final(self)@, name@),
    {
        let record = match self.registry.get(name) {
            Ok(record) => record,
            Err(e) => {
                return Err(e);
            },
        };
        if record.is_active() {
            Ok(record.pid)
        } else {
            Err(ProcessError::AlreadyDead)
        }
    }

    /// Remove the record of `name` permanently. Allowed only once its last
    /// recorded status is dead.
    pub fn delete(&mut self, name: &str) -> (r: Result<(), ProcessError>)
        ensures
            r is Ok ==> delete_allowed(old(self)@, name@) && final(self)@ == old(self)@.remove(
                name_key(name@),
            ),
            r matches Err(e) ==> e is NotFound || e is StillActive || e is StorageError,
            r matches Err(e) && e is StillActive ==> (rec_at(old(self)@, name@) matches Some(m)
                && m.active && final(self)@ == old(self)@),
            r matches Err(e) && e is NotFound ==> !has_name(old(self)@, name@) && final(self)@
                == old(self)@,
    {
        let record = match self.registry.get(name) {
            Ok(record) => record,
            Err(e) => {
                return Err(e);
            },
        };
        if record.is_active() {
            return Err(ProcessError::StillActive);
        }
        self.registry.remove(name)
    }

    /// Check that `name` may be restarted and say what has to happen:
    /// which pid to kill first (only a forced restart of a running process
    /// has one) and which record's command to launch again. A running
    /// process is not restarted unless `force` is set.
    pub fn restart_plan(&mut self, name: &str, force: bool) -> (r: Result<
        RestartPlan,
        ProcessError,
    >)
        ensures
            final(self)@ == old(self)@,
            r matches Ok(plan) ==> {
                &&& rec_at(final(self)@, name@) == Some(plan.record@)
                &&& plan.record@.active ==> force
                &&& plan.kill_first == (if plan.record@.active {
                    Some(plan.record@.pid)
                } else {
                    None::<u32>
                })
            },
            r matches Err(e) ==> e is NotFound || e is CannotRestartRunning || e is StorageError,
            r matches Err(e) && e is CannotRestartRunning ==> (rec_at(final(self)@, name@)
                matches Some(m) && m.active && !force),
            r matches Err(e) && e is NotFound ==> !has_name(final(self)@, name@),
    {
        let record = match self.registry.get(name) {
            Ok(record) => record,
            Err(e) => {
                return Err(e);
            },
        };
        if record.is_active() {
            if !force {
                return Err(ProcessError::CannotRestartRunning);
            }
            let pid = record.pid;
            Ok(RestartPlan { kill_first: Some(pid), record })
        } else {
            Ok(RestartPlan { kill_first: None, record })
        }
    }

    /// Record that `name` came up again under `new_pid`: the stored record
    /// turns active with the new pid, its command and restart policy kept.
    /// Both a client-driven restart and the automatic relaunch of the
    /// restart chain commit through here.
    pub fn restart_commit(&mut self, name: &str, new_pid: u32) -> (r: Result<(), ProcessError>)
        ensures
            r is Ok ==> rec_at(old(self)@, name@) is Some && final(self)@ == after_relaunch(
                old(self)@,
                name@,
                new_pid,
            ),
            r matches Err(e) ==> e is NotFound || e is StorageError,
            r matches Err(e) && e is NotFound ==> !has_name(old(self)@, name@) && final(self)@
                == old(self)@,
    {
        let mut record = match self.registry.get(name) {
            Ok(record) => record,
            Err(e) => {
                return Err(e);
            },
        };
        record.pid = new_pid;
        record.status = Status::Active;
        self.registry.update(name, &record)
    }

    /// The watch bookkeeping: record that the process of `name` has
    /// exited. The record turns dead; its last-known pid, command and
    /// restart policy are preserved.
    pub fn mark_dead(&mut self, name: &str) -> (r: Result<(), ProcessError>)
        ensures
            r is Ok ==> rec_at(old(self)@, name@) is Some && final(self)@ == after_mark_dead(
                old(self)@,
                name@,
            ),
            r matches Err(e) ==> e is NotFound || e is StorageError,
            r matches Err(e) && e is NotFound ==> !has_name(old(self)@, name@) && final(self)@
                == old(self)@,
    {
        let mut record = match self.registry.get(name) {
            Ok(record) => record,
            Err(e) => {
                return Err(e);
            },
        };
        record.status = Status::Dead;
        self.registry.update(name, &record)
    }

    /// Every readable record in the registry, each name once, in no
    /// significant order: what a list request reads before the caller
    /// cross-references the live ones with the OS probe.
    pub fn records(&mut self) -> (r: Result<Vec<(String, Process)>, ProcessError>)
        ensures
            final(self)@ == old(self)@,
            r matches Ok(v) ==> {
                &&& forall|i: int|
                    0 <= i < v@.len() ==> rec_at(final(self)@, (#[trigger] v@[i]).0@) == Some(
                        v@[i].1@,
                    )
                &&& forall|k: Seq<u8>|
                    #[trigger] final(self)@.contains_key(k) && vstd::utf8::valid_utf8(k)
                        && crate::codec::spec_decode(final(self)@[k]) is Some ==> exists|i: int|
                        0 <= i < v@.len() && name_key((#[trigger] v@[i]).0@) == k
                &&& forall|i: int, j: int|
                    0 <= i < j < v@.len() ==> (#[trigger] v@[i]).0@ != (#[trigger] v@[j]).0@
            },
            r matches Err(e) ==> e is StorageError,
    {
        self.registry.list_all()
    }
}

} // verus!
