use backend_supervisor::probe::Liveness;
use backend_supervisor::registry::ProcessDescriptor;
use backend_supervisor::supervisor::{
    init_server, Action, BackendHandle, Event, StartStep, StopStep, Supervisor, SupervisorError,
    SupervisorState,
};
use backend_supervisor::termination::{FailReason, TerminationOutcome};

fn handle(pid: u32) -> BackendHandle {
    BackendHandle { pid, start_time: 1000 + pid as u64 }
}

fn stale(pid: u32) -> ProcessDescriptor {
    ProcessDescriptor { pid, start_time: 7 }
}

#[test]
fn start_with_no_matching_process_spawns_once() {
    let (mut s, a) = init_server();
    assert_eq!(a, Action::Probe);
    assert_eq!(s.state(), SupervisorState::Stopped);
    assert!(s.probing());
    assert_eq!(s.step(Event::Probed(Liveness::Unreachable)), Action::Scan);
    assert_eq!(s.state(), SupervisorState::Starting(StartStep::AwaitScan));
    assert_eq!(s.step(Event::Scanned(vec![])), Action::Spawn);
    assert_eq!(s.state(), SupervisorState::Starting(StartStep::AwaitSpawn));
    assert_eq!(s.step(Event::Spawned(handle(42))), Action::Idle);
    assert_eq!(s.state(), SupervisorState::Running(Some(handle(42))));
    assert_eq!(s.handle(), Some(handle(42)));
}

#[test]
fn live_instance_is_adopted_without_spawn_or_termination() {
    let mut s = Supervisor::new();
    assert_eq!(s.ensure_running(), Action::Probe);
    // Still stopped while the probe is out: no passage through Starting.
    assert_eq!(s.state(), SupervisorState::Stopped);
    assert_eq!(s.step(Event::Probed(Liveness::Alive)), Action::Idle);
    assert_eq!(s.state(), SupervisorState::Running(None));
    assert_eq!(s.handle(), None);
}

#[test]
fn two_stale_instances_are_stopped_before_one_spawn() {
    let mut s = Supervisor::new();
    let mut actions = vec![s.ensure_running()];
    actions.push(s.step(Event::Probed(Liveness::Unreachable)));
    actions.push(s.step(Event::Scanned(vec![stale(10), stale(11)])));
    actions.push(s.step(Event::TerminationDone(TerminationOutcome::Terminated)));
    actions.push(s.step(Event::TerminationDone(TerminationOutcome::Terminated)));
    actions.push(s.step(Event::Spawned(handle(12))));
    assert_eq!(
        actions,
        vec![
            Action::Probe,
            Action::Scan,
            Action::Terminate(stale(11)),
            Action::Terminate(stale(10)),
            Action::Spawn,
            Action::Idle,
        ]
    );
    assert_eq!(s.state(), SupervisorState::Running(Some(handle(12))));
}

#[test]
fn shutdown_when_stopped_is_a_no_op() {
    let mut s = Supervisor::new();
    assert_eq!(s.shutdown(), Action::Idle);
    assert_eq!(s.state(), SupervisorState::Stopped);
}

#[test]
fn repeated_ensure_running_spawns_once() {
    let mut s = Supervisor::new();
    let mut spawns = 0;
    let events = vec![
        Event::EnsureRunning,
        Event::EnsureRunning,
        Event::Probed(Liveness::Unreachable),
        Event::EnsureRunning,
        Event::Scanned(vec![]),
        Event::EnsureRunning,
        Event::Spawned(handle(5)),
        Event::EnsureRunning,
        Event::Probed(Liveness::Unreachable),
        Event::Scanned(vec![]),
        Event::Spawned(handle(6)),
        Event::EnsureRunning,
    ];
    for e in events {
        if s.step(e) == Action::Spawn {
            spawns += 1;
        }
    }
    assert_eq!(spawns, 1);
    assert_eq!(s.state(), SupervisorState::Running(Some(handle(5))));
}

#[test]
fn shutdown_then_start_does_not_adopt_the_old_instance() {
    let mut s = Supervisor::new();
    s.ensure_running();
    s.step(Event::Probed(Liveness::Unreachable));
    s.step(Event::Scanned(vec![]));
    s.step(Event::Spawned(handle(8)));
    assert_eq!(s.shutdown(), Action::Terminate(handle(8).descriptor()));
    assert_eq!(s.state(), SupervisorState::Stopping(StopStep::Terminating));
    let failed = TerminationOutcome::Failed(FailReason::NotConfirmed);
    assert_eq!(s.step(Event::TerminationDone(failed)), Action::Idle);
    assert_eq!(s.state(), SupervisorState::Stopped);
    assert_eq!(s.ensure_running(), Action::Probe);
    // The old instance still answers: it is stopped again, not adopted.
    assert_eq!(s.step(Event::Probed(Liveness::Alive)), Action::Scan);
    assert_eq!(s.step(Event::Scanned(vec![stale(8)])), Action::Terminate(stale(8)));
    assert_eq!(s.step(Event::TerminationDone(TerminationOutcome::Terminated)), Action::Spawn);
    s.step(Event::Spawned(handle(9)));
    assert_eq!(s.state(), SupervisorState::Running(Some(handle(9))));
}

#[test]
fn shutdown_of_adopted_instance_scans_for_it() {
    let mut s = Supervisor::new();
    s.ensure_running();
    s.step(Event::Probed(Liveness::Alive));
    assert_eq!(s.shutdown(), Action::Scan);
    assert_eq!(s.state(), SupervisorState::Stopping(StopStep::AwaitScan));
    assert_eq!(s.step(Event::Scanned(vec![stale(3)])), Action::Terminate(stale(3)));
    assert_eq!(s.step(Event::TerminationDone(TerminationOutcome::NotFound)), Action::Idle);
    assert_eq!(s.state(), SupervisorState::Stopped);
}

#[test]
fn shutdown_with_nothing_found_stops() {
    let mut s = Supervisor::new();
    s.ensure_running();
    s.step(Event::Probed(Liveness::Alive));
    s.shutdown();
    assert_eq!(s.step(Event::Scanned(vec![])), Action::Idle);
    assert_eq!(s.state(), SupervisorState::Stopped);
}

#[test]
fn spawn_failure_is_reported_once() {
    let mut s = Supervisor::new();
    s.ensure_running();
    s.step(Event::Probed(Liveness::Unreachable));
    s.step(Event::Scanned(vec![]));
    assert_eq!(s.step(Event::SpawnFailed), Action::Fail(SupervisorError::SpawnFailure));
    assert_eq!(s.state(), SupervisorState::Stopped);
    assert_eq!(s.step(Event::SpawnFailed), Action::Idle);
}

#[test]
fn failed_stale_termination_blocks_the_start() {
    let mut s = Supervisor::new();
    s.ensure_running();
    s.step(Event::Probed(Liveness::Unreachable));
    s.step(Event::Scanned(vec![stale(1), stale(2)]));
    let failed = TerminationOutcome::Failed(FailReason::ToolError(1));
    assert_eq!(
        s.step(Event::TerminationDone(failed)),
        Action::Fail(SupervisorError::TerminationFailed)
    );
    assert_eq!(s.state(), SupervisorState::Stopped);
}

#[test]
fn shutdown_while_probing_abandons_the_probe() {
    let mut s = Supervisor::new();
    s.ensure_running();
    assert_eq!(s.shutdown(), Action::Idle);
    assert_eq!(s.state(), SupervisorState::Stopped);
    assert!(!s.probing());
    assert_eq!(s.step(Event::Probed(Liveness::Alive)), Action::Idle);
    assert_eq!(s.state(), SupervisorState::Stopped);
}

#[test]
fn shutdown_before_spawn_cancels_the_spawn() {
    let mut s = Supervisor::new();
    s.ensure_running();
    s.step(Event::Probed(Liveness::Unreachable));
    assert_eq!(s.shutdown(), Action::Idle);
    assert!(s.stop_requested());
    assert_eq!(s.step(Event::Scanned(vec![stale(2)])), Action::Terminate(stale(2)));
    assert_eq!(s.step(Event::TerminationDone(TerminationOutcome::Terminated)), Action::Idle);
    assert_eq!(s.state(), SupervisorState::Stopped);
    assert!(!s.stop_requested());
}

#[test]
fn shutdown_during_spawn_stops_the_new_instance() {
    let mut s = Supervisor::new();
    s.ensure_running();
    s.step(Event::Probed(Liveness::Unreachable));
    assert_eq!(s.step(Event::Scanned(vec![])), Action::Spawn);
    assert_eq!(s.shutdown(), Action::Idle);
    assert_eq!(s.state(), SupervisorState::Starting(StartStep::AwaitSpawn));
    assert_eq!(s.step(Event::Spawned(handle(30))), Action::Terminate(handle(30).descriptor()));
    assert_eq!(s.state(), SupervisorState::Stopping(StopStep::Terminating));
    assert_eq!(s.step(Event::TerminationDone(TerminationOutcome::Terminated)), Action::Idle);
    assert_eq!(s.state(), SupervisorState::Stopped);
    assert_eq!(s.handle(), None);
}

#[test]
fn stray_reports_change_nothing() {
    let mut s = Supervisor::new();
    assert_eq!(s.step(Event::Probed(Liveness::Alive)), Action::Idle);
    assert_eq!(s.step(Event::Spawned(handle(4))), Action::Idle);
    assert_eq!(s.step(Event::TerminationDone(TerminationOutcome::Terminated)), Action::Idle);
    assert_eq!(s.step(Event::Scanned(vec![stale(4)])), Action::Idle);
    assert_eq!(s.state(), SupervisorState::Stopped);
}
