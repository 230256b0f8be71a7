use sidecar_supervisor::lifecycle::{
    ConsoleDecision, RestartPlan, ServerStatus, StartDecision, Supervisor, RESTART_DELAY_MS,
};
use sidecar_supervisor::process::{Liveness, ProcessRecord, SupervisionMode};

fn child(pid: u32) -> ProcessRecord {
    ProcessRecord { pid, job: None, mode: SupervisionMode::Pipes }
}

fn started(pid: u32) -> Supervisor {
    let mut s = Supervisor::new();
    assert_eq!(s.start(Liveness::Unknown), StartDecision::Spawn);
    assert_eq!(s.finish_start::<String>(Ok(child(pid))), Ok(()));
    s
}

#[test]
fn new_supervisor_has_no_child() {
    let s = Supervisor::new();
    assert_eq!(s.status(), ServerStatus::Absent);
    assert_eq!(s.record(), None);
}

#[test]
fn start_without_child_spawns_and_records() {
    let mut s = Supervisor::new();
    assert_eq!(s.start(Liveness::Running), StartDecision::Spawn);
    assert_eq!(s.status(), ServerStatus::Absent);
    assert_eq!(s.finish_start::<String>(Ok(child(41))), Ok(()));
    assert_eq!(s.status(), ServerStatus::Running);
    assert_eq!(s.record(), Some(child(41)));
}

#[test]
fn start_while_child_is_alive_does_nothing() {
    let mut s = started(41);
    for _ in 0..100 {
        assert_eq!(s.start(Liveness::Running), StartDecision::AlreadyRunning);
        assert_eq!(s.record(), Some(child(41)));
    }
}

#[test]
fn start_forgets_a_child_that_has_exited() {
    let mut s = started(41);
    assert_eq!(s.start(Liveness::Exited), StartDecision::Spawn);
    assert_eq!(s.record(), None);
    assert_eq!(s.finish_start::<String>(Ok(child(42))), Ok(()));
    assert_eq!(s.record(), Some(child(42)));
}

#[test]
fn start_forgets_a_child_that_cannot_be_queried() {
    let mut s = started(41);
    assert_eq!(s.start(Liveness::Unknown), StartDecision::Spawn);
    assert_eq!(s.status(), ServerStatus::Absent);
}

#[test]
fn spawn_failure_is_handed_on_and_leaves_no_child() {
    let mut s = Supervisor::new();
    assert_eq!(s.start(Liveness::Unknown), StartDecision::Spawn);
    assert_eq!(
        s.finish_start(Err("No such file or directory".to_string())),
        Err("No such file or directory".to_string())
    );
    assert_eq!(s.status(), ServerStatus::Absent);
    assert_eq!(s.record(), None);
}

#[test]
fn serialized_racing_starts_spawn_one_child() {
    let mut s = Supervisor::new();
    let mut spawned = 0;
    for caller in 0..2u32 {
        let liveness = if s.record().is_some() { Liveness::Running } else { Liveness::Unknown };
        if s.start(liveness) == StartDecision::Spawn {
            spawned += 1;
            assert_eq!(s.finish_start::<String>(Ok(child(100 + caller))), Ok(()));
        }
    }
    assert_eq!(spawned, 1);
    assert_eq!(s.record(), Some(child(100)));
}

#[test]
fn stop_takes_the_record() {
    let mut s = started(41);
    assert_eq!(s.stop(), Some(child(41)));
    assert_eq!(s.status(), ServerStatus::Absent);
}

#[test]
fn stop_without_child_is_a_no_op() {
    let mut s = Supervisor::new();
    assert_eq!(s.stop(), None);
    assert_eq!(s.status(), ServerStatus::Absent);
}

#[test]
fn second_stop_finds_nothing_to_kill() {
    let mut s = started(41);
    assert_eq!(s.stop(), Some(child(41)));
    assert_eq!(s.stop(), None);
    assert_eq!(s.status(), ServerStatus::Absent);
}

#[test]
fn restart_stops_pauses_and_leaves_the_slot_free() {
    assert_eq!(RESTART_DELAY_MS, 200);
    let mut s = started(41);
    assert_eq!(s.restart(), RestartPlan { terminate: Some(child(41)), delay_ms: 200 });
    assert_eq!(s.status(), ServerStatus::Absent);
    assert_eq!(s.start(Liveness::Unknown), StartDecision::Spawn);
}

#[test]
fn restart_without_child_is_a_start() {
    let mut restarted = Supervisor::new();
    assert_eq!(restarted.restart(), RestartPlan { terminate: None, delay_ms: 200 });
    let mut plain = Supervisor::new();
    assert_eq!(restarted.start(Liveness::Unknown), plain.start(Liveness::Unknown));
    assert_eq!(restarted.finish_start::<String>(Ok(child(7))), Ok(()));
    assert_eq!(plain.finish_start::<String>(Ok(child(7))), Ok(()));
    assert_eq!(restarted.record(), plain.record());
}

#[test]
fn status_does_not_change_the_slot() {
    let s = started(41);
    assert_eq!(s.status(), ServerStatus::Running);
    assert_eq!(s.status(), ServerStatus::Running);
    assert_eq!(s.record(), Some(child(41)));
}

#[test]
fn second_console_window_attaches_to_the_session() {
    let mut s = Supervisor::new();
    assert_eq!(s.open_console(), ConsoleDecision::StartSession);
    assert_eq!(s.start(Liveness::Unknown), StartDecision::Spawn);
    let console = ProcessRecord { pid: 9, job: None, mode: SupervisionMode::Console };
    assert_eq!(s.finish_start::<String>(Ok(console)), Ok(()));
    assert_eq!(s.open_console(), ConsoleDecision::Attach);
    assert_eq!(s.open_console(), ConsoleDecision::Attach);
    assert_eq!(s.record(), Some(console));
}

#[test]
fn console_request_with_a_piped_child_spawns_no_second_child() {
    let mut s = started(41);
    assert_eq!(s.open_console(), ConsoleDecision::StartSession);
    assert_eq!(s.start(Liveness::Running), StartDecision::AlreadyRunning);
    assert_eq!(s.record(), Some(child(41)));
}
