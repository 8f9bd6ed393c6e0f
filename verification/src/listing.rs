//! One row of a list request: a stored record cross-referenced with the
//! live OS statistics of its process.
//!
//! The OS probe is an external read-only sensor; the caller queries it for
//! each active record and hands its numbers in as plain values. A dead
//! record gets zeroed statistics, as does an active one whose pid the
//! probe no longer finds.

use vstd::prelude::*;

use crate::record::{Process, ProcessModel};

verus! {

/// What the OS probe reports about one live process: resident memory in
/// bytes, CPU load in hundredths of a percent, and uptime in seconds.
#[derive(Clone, Copy, Debug, PartialEq, Eq, Structural)]
pub struct ProcessStats {
    pub memory_bytes: u64,
    pub cpu_centi_percent: u32,
    pub uptime_seconds: u64,
}

/// One row of a list reply.
#[derive(Clone, Debug, PartialEq)]
pub struct ListRow {
    pub pid: u32,
    pub name: String,
    pub memory_mb: u32,
    pub cpu_centi_percent: u32,
    pub uptime_seconds: u64,
    pub auto_restart: bool,
    pub active: bool,
}

/// The mathematical shadow of a `ListRow`.
pub ghost struct RowModel {
    pub pid: u32,
    pub name: Seq<char>,
    pub memory_mb: u32,
    pub cpu_centi_percent: u32,
    pub uptime_seconds: u64,
    pub auto_restart: bool,
    pub active: bool,
}

impl View for ListRow {
    type V = RowModel;

    open spec fn view(&self) -> RowModel {
        RowModel {
            pid: self.pid,
            name: self.name@,
            memory_mb: self.memory_mb,
            cpu_centi_percent: self.cpu_centi_percent,
            uptime_seconds: self.uptime_seconds,
            auto_restart: self.auto_restart,
            active: self.active,
        }
    }
}

/// Memory in whole mebibytes, reduced to the 32 bits a row carries.
pub open spec fn spec_memory_mb(memory_bytes: u64) -> u32 {
    (((memory_bytes / 1048576) as int) % 0x100000000) as u32
}

/// The row a record and its probe reading produce: an active record shows
/// its process's statistics, a dead one shows zeros, and an active record
/// whose pid the probe did not find shows zeros too.
pub open spec fn spec_row(name: Seq<char>, m: ProcessModel, stats: Option<ProcessStats>) -> RowModel {
    if m.active && stats is Some {
        RowModel {
            pid: m.pid,
            name,
            memory_mb: spec_memory_mb(stats->0.memory_bytes),
            cpu_centi_percent: stats->0.cpu_centi_percent,
            uptime_seconds: stats->0.uptime_seconds,
            auto_restart: m.restart,
            active: true,
        }
    } else {
        RowModel {
            pid: m.pid,
            name,
            memory_mb: 0,
            cpu_centi_percent: 0,
            uptime_seconds: 0,
            auto_restart: m.restart,
            active: m.active,
        }
    }
}

/// Build the list row for one record. `stats` is the probe's reading for
/// the record's pid, and is consulted only for an active record.
pub fn build_row(name: String, record: &Process, stats: Option<ProcessStats>) -> (r: ListRow)
    ensures
        r@ == spec_row(name@, record@, stats),
{
    let active = record.is_active();
    match stats {
        Some(s) if active => ListRow {
            pid: record.pid,
            name,
            memory_mb: ((s.memory_bytes / 1048576) % 0x100000000) as u32,
            cpu_centi_percent: s.cpu_centi_percent,
            uptime_seconds: s.uptime_seconds,
            auto_restart: record.restart,
            active: true,
        },
        _ => ListRow {
            pid: record.pid,
            name,
            memory_mb: 0,
            cpu_centi_percent: 0,
            uptime_seconds: 0,
            auto_restart: record.restart,
            active,
        },
    }
}

impl ListRow {
    /// The status cell of a rendered listing.
    pub fn status_label(&self) -> (r: &'static str)
        ensures
            self@.active ==> r@ == "online"@,
            !self@.active ==> r@ == "offline"@,
    {
        if self.active {
            "online"
        } else {
            "offline"
        }
    }

    /// The auto-restart cell of a rendered listing.
    pub fn restart_label(&self) -> (r: &'static str)
        ensures
            self@.auto_restart ==> r@ == "enabled"@,
            !self@.auto_restart ==> r@ == "disabled"@,
    {
        if self.auto_restart {
            "enabled"
        } else {
            "disabled"
        }
    }
}

} // verus!
