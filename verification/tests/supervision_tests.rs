//! End-to-end supervision scenarios with real child processes. The test
//! itself plays the part of the daemon shell: it spawns and waits on the
//! OS processes and drives the library's bookkeeping with the outcomes,
//! exactly as the watch and restart tasks do.

use async_std::process::Command;
use async_std::task::block_on;
use sysinfo::{ProcessExt, System, SystemExt};
use laccaria::{
    build_row, parse_command, should_relaunch, Process, ProcessError, ProcessManager,
    ProcessStats, Registry, Status,
};

fn fresh_manager() -> ProcessManager {
    let db = sled::Config::new().temporary(true).open().expect("temporary store");
    ProcessManager::new(Registry::new(db))
}

fn spawn(argv: &[String]) -> async_std::process::Child {
    Command::new(&argv[0]).args(&argv[1..]).spawn().expect("spawn")
}

fn record_of(pm: &mut ProcessManager, name: &str) -> Process {
    let rows = pm.records().unwrap();
    rows.into_iter().find(|(n, _)| n == name).map(|(_, p)| p).expect("record present")
}

#[test]
fn web_scenario_start_list_exit_delete() {
    let mut pm = fresh_manager();
    let argv = parse_command("sleep 1").unwrap();
    let mut child = spawn(&argv);
    let pid = child.id();
    pm.start("web", false, "sleep 1", pid).unwrap();

    // an immediate list shows one row, active, without auto-restart
    let recs = pm.records().unwrap();
    assert_eq!(recs.len(), 1);
    let (name, p) = &recs[0];
    assert_eq!(name, "web");
    let stats = ProcessStats { memory_bytes: 2 * 1048576, cpu_centi_percent: 10, uptime_seconds: 1 };
    let row = build_row(name.clone(), p, Some(stats));
    assert!(row.active);
    assert!(!row.auto_restart);
    assert_eq!(row.pid, pid);

    // the watch task's turn: wait out the exit, then record it
    let status = block_on(child.status()).expect("status");
    assert!(!should_relaunch(status.code()));
    pm.mark_dead("web").unwrap();

    let p = record_of(&mut pm, "web");
    let row = build_row("web".to_string(), &p, None);
    assert!(!row.active);
    assert_eq!(row.pid, pid);
    assert_eq!(row.memory_mb, 0);

    pm.delete("web").unwrap();
    assert_eq!(pm.delete("web").unwrap_err(), ProcessError::NotFound);
}

#[test]
fn failing_service_relaunches_under_fresh_pids() {
    let mut pm = fresh_manager();
    let argv = parse_command("false").unwrap();
    let mut child = spawn(&argv);
    let mut pids = vec![child.id()];
    pm.start("svc", true, "false", child.id()).unwrap();

    // the restart chain: each non-zero exit relaunches the stored command
    for _ in 0..2 {
        let status = block_on(child.status()).expect("status");
        pm.mark_dead("svc").unwrap();
        assert!(should_relaunch(status.code()));

        let stored = record_of(&mut pm, "svc");
        assert!(stored.restart);
        assert_eq!(stored.command, "false");
        let argv = parse_command(&stored.command).unwrap();
        child = spawn(&argv);
        pm.restart_commit("svc", child.id()).unwrap();
        pids.push(child.id());

        let p = record_of(&mut pm, "svc");
        assert!(matches!(p.status, Status::Active));
        assert_eq!(p.pid, child.id());
    }
    // the pid changed across every sample: the loop is live
    assert_ne!(pids[0], pids[1]);
    assert_ne!(pids[1], pids[2]);
    let _ = block_on(child.status());
}

#[test]
fn clean_exit_ends_the_chain() {
    let mut pm = fresh_manager();
    let argv = parse_command("true").unwrap();
    let mut child = spawn(&argv);
    pm.start("oneshot", true, "true", child.id()).unwrap();

    let status = block_on(child.status()).expect("status");
    pm.mark_dead("oneshot").unwrap();
    // a zero exit code is an intentional stop: no relaunch
    assert!(!should_relaunch(status.code()));
    let p = record_of(&mut pm, "oneshot");
    assert!(matches!(p.status, Status::Dead));
}

#[test]
fn kill_scenario_signal_then_watch_records_dead() {
    let mut pm = fresh_manager();
    let argv = parse_command("sleep 30").unwrap();
    let mut child = spawn(&argv);
    pm.start("long", false, "sleep 30", child.id()).unwrap();

    // the daemon's kill path: the service names the pid, the probe signals it
    let pid = pm.kill("long").unwrap();
    assert_eq!(pid, child.id());
    let mut sys = System::new();
    let spid = sysinfo::Pid::from(pid as usize);
    sys.refresh_process(spid);
    sys.process(spid).expect("process is live").kill_with(sysinfo::Signal::Kill);

    // the watch task finds the process gone and records the exit
    let status = block_on(child.status()).expect("status");
    // ended by a signal: no exit code, so no relaunch either way
    assert!(!should_relaunch(status.code()));
    pm.mark_dead("long").unwrap();

    let p = record_of(&mut pm, "long");
    assert!(matches!(p.status, Status::Dead));
    assert_eq!(p.pid, pid);
    // and now the record is deletable
    pm.delete("long").unwrap();
}
