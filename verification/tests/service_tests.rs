use laccaria::{
    build_row, should_relaunch, Process, ProcessError, ProcessManager, ProcessStats, Registry,
    Status,
};

fn fresh_manager() -> ProcessManager {
    let db = sled::Config::new().temporary(true).open().expect("temporary store");
    ProcessManager::new(Registry::new(db))
}

fn record_of(pm: &mut ProcessManager, name: &str) -> Process {
    let rows = pm.records().unwrap();
    rows.into_iter().find(|(n, _)| n == name).map(|(_, p)| p).expect("record present")
}

#[test]
fn start_records_active_process() {
    let mut pm = fresh_manager();
    pm.start("web", false, "sleep 9", 4321).unwrap();
    let p = record_of(&mut pm, "web");
    assert_eq!(p.pid, 4321);
    assert!(matches!(p.status, Status::Active));
    assert_eq!(p.command, "sleep 9");
    assert!(!p.restart);
}

#[test]
fn second_start_same_name_already_exists() {
    let mut pm = fresh_manager();
    assert!(pm.start("svc", true, "run", 1).is_ok());
    assert_eq!(pm.start("svc", true, "run", 2).unwrap_err(), ProcessError::AlreadyExists);
    assert_eq!(record_of(&mut pm, "svc").pid, 1);
}

#[test]
fn kill_reports_stored_pid() {
    let mut pm = fresh_manager();
    pm.start("job", false, "x", 555).unwrap();
    assert_eq!(pm.kill("job").unwrap(), 555);
}

#[test]
fn kill_missing_is_not_found() {
    let mut pm = fresh_manager();
    assert_eq!(pm.kill("ghost").unwrap_err(), ProcessError::NotFound);
}

#[test]
fn kill_dead_process_already_dead() {
    let mut pm = fresh_manager();
    pm.start("job", false, "x", 1).unwrap();
    pm.mark_dead("job").unwrap();
    assert_eq!(pm.kill("job").unwrap_err(), ProcessError::AlreadyDead);
}

#[test]
fn delete_active_still_active() {
    let mut pm = fresh_manager();
    pm.start("job", false, "x", 1).unwrap();
    assert_eq!(pm.delete("job").unwrap_err(), ProcessError::StillActive);
    // the record is untouched
    assert!(matches!(record_of(&mut pm, "job").status, Status::Active));
}

#[test]
fn delete_dead_removes_record() {
    let mut pm = fresh_manager();
    pm.start("job", false, "x", 1).unwrap();
    pm.mark_dead("job").unwrap();
    assert!(pm.delete("job").is_ok());
    assert_eq!(pm.kill("job").unwrap_err(), ProcessError::NotFound);
}

#[test]
fn delete_missing_is_not_found() {
    let mut pm = fresh_manager();
    assert_eq!(pm.delete("ghost").unwrap_err(), ProcessError::NotFound);
}

#[test]
fn restart_running_without_force_refused() {
    let mut pm = fresh_manager();
    pm.start("job", false, "x", 1).unwrap();
    assert_eq!(pm.restart_plan("job", false).unwrap_err(), ProcessError::CannotRestartRunning);
}

#[test]
fn restart_running_with_force_kills_first() {
    let mut pm = fresh_manager();
    pm.start("job", false, "loop", 10).unwrap();
    let plan = pm.restart_plan("job", true).unwrap();
    assert_eq!(plan.kill_first, Some(10));
    assert_eq!(plan.record.command, "loop");
    pm.restart_commit("job", 11).unwrap();
    let p = record_of(&mut pm, "job");
    assert_eq!(p.pid, 11);
    assert!(matches!(p.status, Status::Active));
    assert_eq!(p.command, "loop");
}

#[test]
fn restart_dead_needs_no_kill() {
    let mut pm = fresh_manager();
    pm.start("job", true, "work", 20).unwrap();
    pm.mark_dead("job").unwrap();
    let plan = pm.restart_plan("job", false).unwrap();
    assert_eq!(plan.kill_first, None);
    assert_eq!(plan.record.command, "work");
    pm.restart_commit("job", 21).unwrap();
    let p = record_of(&mut pm, "job");
    assert_eq!(p.pid, 21);
    assert!(matches!(p.status, Status::Active));
    assert!(p.restart);
}

#[test]
fn restart_missing_is_not_found() {
    let mut pm = fresh_manager();
    assert_eq!(pm.restart_plan("ghost", true).unwrap_err(), ProcessError::NotFound);
    assert_eq!(pm.restart_commit("ghost", 1).unwrap_err(), ProcessError::NotFound);
}

#[test]
fn mark_dead_preserves_everything_else() {
    let mut pm = fresh_manager();
    pm.start("job", true, "serve --port 80", 99).unwrap();
    pm.mark_dead("job").unwrap();
    let p = record_of(&mut pm, "job");
    assert!(matches!(p.status, Status::Dead));
    assert_eq!(p.pid, 99);
    assert_eq!(p.command, "serve --port 80");
    assert!(p.restart);
}

#[test]
fn should_relaunch_exactly_on_nonzero_code() {
    assert!(should_relaunch(Some(1)));
    assert!(should_relaunch(Some(-9)));
    assert!(!should_relaunch(Some(0)));
    assert!(!should_relaunch(None));
}

#[test]
fn build_row_active_uses_probe_stats() {
    let p = Process { pid: 3, status: Status::Active, command: "x".to_string(), restart: true };
    let stats = ProcessStats {
        memory_bytes: 5 * 1048576 + 123,
        cpu_centi_percent: 250,
        uptime_seconds: 600,
    };
    let row = build_row("x-proc".to_string(), &p, Some(stats));
    assert_eq!(row.pid, 3);
    assert_eq!(row.name, "x-proc");
    assert_eq!(row.memory_mb, 5);
    assert_eq!(row.cpu_centi_percent, 250);
    assert_eq!(row.uptime_seconds, 600);
    assert!(row.auto_restart);
    assert!(row.active);
}

#[test]
fn build_row_dead_shows_zeroed_stats() {
    let p = Process { pid: 8, status: Status::Dead, command: "x".to_string(), restart: false };
    let stats = ProcessStats { memory_bytes: 1048576, cpu_centi_percent: 100, uptime_seconds: 5 };
    let row = build_row("gone".to_string(), &p, Some(stats));
    assert_eq!(row.pid, 8);
    assert_eq!(row.memory_mb, 0);
    assert_eq!(row.cpu_centi_percent, 0);
    assert_eq!(row.uptime_seconds, 0);
    assert!(!row.active);
}

#[test]
fn build_row_active_without_probe_shows_zeros() {
    let p = Process { pid: 4, status: Status::Active, command: "x".to_string(), restart: false };
    let row = build_row("blind".to_string(), &p, None);
    assert!(row.active);
    assert_eq!(row.memory_mb, 0);
}

#[test]
fn records_empty_manager() {
    let mut pm = fresh_manager();
    assert!(pm.records().unwrap().is_empty());
}
