//! The supervision laws: what holds of every store the operations can
//! produce, proved once and for all over the transition model. Each law is
//! stated over the same spec functions the executable operations'
//! contracts use, so it applies to every run of the service.

use vstd::prelude::*;

use crate::codec::lemma_record_round_trip;
use crate::listing::{spec_row, ProcessStats};
use crate::model::{
    after_mark_dead, after_relaunch, after_start, dead_version, delete_allowed, rec_at,
    relaunched, spec_should_relaunch, start_allowed,
};

verus! {

/// Uniqueness law: `start` succeeds only from a store where the name is
/// still free, and a successful start occupies the name. The registry's
/// insert-if-absent serialises two racing starts for one name into some
/// order, so at most one of them can succeed; the other finds the name
/// taken and is told the name already exists.
pub proof fn lemma_start_unique(
    store: Map<Seq<u8>, Seq<u8>>,
    name: Seq<char>,
    pid: u32,
    auto_restart: bool,
    command: Seq<char>,
)
    requires
        start_allowed(store, name),
    ensures
        !start_allowed(after_start(store, name, pid, auto_restart, command), name),
{
}

/// State-gating law for delete: a record whose last recorded status is
/// active is never deletable, and a record recorded dead always is.
pub proof fn lemma_delete_gating(store: Map<Seq<u8>, Seq<u8>>, name: Seq<char>)
    ensures
        (rec_at(store, name) matches Some(m) && m.active) ==> !delete_allowed(store, name),
        (rec_at(store, name) matches Some(m) && !m.active) ==> delete_allowed(store, name),
{
}

/// Kill-gating law, second half: once the watch bookkeeping has recorded
/// the exit a successful kill provokes, the process is listed inactive,
/// its last pid, command and restart policy preserved.
pub proof fn lemma_killed_listed_inactive(
    store: Map<Seq<u8>, Seq<u8>>,
    name: Seq<char>,
    stats: Option<ProcessStats>,
)
    requires
        rec_at(store, name) is Some,
    ensures
        ({
            let before = rec_at(store, name)->0;
            let after = rec_at(after_mark_dead(store, name), name);
            &&& after == Some(dead_version(before))
            &&& !after->0.active
            &&& after->0.pid == before.pid
            &&& after->0.command == before.command
            &&& after->0.restart == before.restart
            &&& !spec_row(name, after->0, stats).active
        }),
{
    lemma_record_round_trip(dead_version(rec_at(store, name)->0));
}

/// Restart law: committing a relaunch stores exactly the fresh pid, with
/// the record active again and its command and restart policy unchanged.
/// A forced restart of a running process that came up under a new pid is
/// therefore afterwards recorded under that new pid, not the old one.
pub proof fn lemma_relaunch_updates_record(
    store: Map<Seq<u8>, Seq<u8>>,
    name: Seq<char>,
    new_pid: u32,
)
    requires
        rec_at(store, name) is Some,
    ensures
        ({
            let before = rec_at(store, name)->0;
            let after = rec_at(after_relaunch(store, name, new_pid), name);
            &&& after == Some(relaunched(before, new_pid))
            &&& after->0.pid == new_pid
            &&& after->0.active
            &&& after->0.command == before.command
            &&& after->0.restart == before.restart
        }),
{
    lemma_record_round_trip(relaunched(rec_at(store, name)->0, new_pid));
}

/// Auto-restart law: an exit that reported a non-zero code relaunches,
/// and the relaunch commits the same stored command under the fresh pid
/// with no client call in between; a zero exit code does not relaunch,
/// nor does an exit that reported no code at all.
pub proof fn lemma_auto_restart(
    store: Map<Seq<u8>, Seq<u8>>,
    name: Seq<char>,
    code: i32,
    new_pid: u32,
)
    requires
        rec_at(store, name) is Some,
    ensures
        spec_should_relaunch(Some(code)) == (code != 0),
        !spec_should_relaunch(None::<i32>),
        ({
            let before = rec_at(store, name)->0;
            let after = rec_at(after_relaunch(store, name, new_pid), name);
            &&& after matches Some(m)
            &&& m.command == before.command
            &&& m.restart == before.restart
            &&& m.pid == new_pid
            &&& m.active
        }),
{
    lemma_relaunch_updates_record(store, name, new_pid);
}

} // verus!
