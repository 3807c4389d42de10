use rtt_analyzer::error::LaunchError;
use rtt_analyzer::layout::BuildMode;
use rtt_analyzer::reaper::{kill_by_pid_command, shutdown_commands, Platform};
use rtt_analyzer::supervisor::{Action, Event, Phase, StartStage, Supervisor, RETRY_DELAY_MS};

fn app_dir() -> Option<Vec<String>> {
    Some(vec!["C:".to_string(), "rtt".to_string()])
}

fn start(s: &mut Supervisor) -> Action {
    s.step(Event::AppStarting { app_dir: app_dir(), mode: BuildMode::Production })
}

fn refused(message: &str) -> Event {
    Event::SpawnRefused { message: message.to_string() }
}

/// Drives a supervisor to the point where it waits for a spawn outcome.
fn awaiting_spawn() -> Supervisor {
    let mut s = Supervisor::new();
    assert!(matches!(start(&mut s), Action::CheckExecutable(_)));
    assert!(matches!(s.step(Event::ExecutableChecked { present: true }), Action::Spawn(_)));
    s
}

#[test]
fn new_supervisor_is_idle_without_pid() {
    let s = Supervisor::new();
    assert_eq!(s.phase(), Phase::Idle);
    assert_eq!(s.current_pid(), None);
}

#[test]
fn startup_checks_then_spawns_the_resolved_worker() {
    let mut s = Supervisor::new();
    match start(&mut s) {
        Action::CheckExecutable(loc) => {
            assert_eq!(loc.exe.len(), 5);
            assert_eq!(loc.exe[2], "bin");
        },
        other => panic!("unexpected action {:?}", other),
    }
    match s.step(Event::ExecutableChecked { present: true }) {
        Action::Spawn(loc) => {
            assert_eq!(loc.dir[..2], ["C:".to_string(), "rtt".to_string()]);
            assert_eq!(loc.dir[3], "rtt_analyzer_backend-x86_64-pc-windows-msvc");
        },
        other => panic!("unexpected action {:?}", other),
    }
}

#[test]
fn missing_executable_fails_without_spawn() {
    let mut s = Supervisor::new();
    start(&mut s);
    let a = s.step(Event::ExecutableChecked { present: false });
    assert!(matches!(a, Action::GiveUp(LaunchError::ExecutableMissing)));
    assert_eq!(s.phase(), Phase::Failed);
    assert_eq!(s.current_pid(), None);
}

#[test]
fn unknown_application_dir_fails_startup() {
    let mut s = Supervisor::new();
    let a = s.step(Event::AppStarting { app_dir: None, mode: BuildMode::Development });
    assert!(matches!(a, Action::GiveUp(LaunchError::PathNotFound)));
    assert_eq!(s.phase(), Phase::Failed);
}

#[test]
fn refused_spawn_is_retried_exactly_once() {
    let mut s = awaiting_spawn();
    assert!(matches!(s.step(refused("Address already in use")), Action::Sweep));
    assert_eq!(s.phase(), Phase::Starting { stage: StartStage::Sweep, retried: true });
    assert!(matches!(s.step(Event::SweepFinished), Action::Wait { millis } if millis == RETRY_DELAY_MS));
    assert_eq!(RETRY_DELAY_MS, 500);
    assert!(matches!(s.step(Event::DelayElapsed), Action::CheckExecutable(_)));
    assert!(matches!(s.step(Event::ExecutableChecked { present: true }), Action::Spawn(_)));
    let a = s.step(refused("Address already in use"));
    assert!(matches!(a, Action::GiveUp(LaunchError::SpawnFailed(ref m)) if m == "Address already in use"));
    assert_eq!(s.phase(), Phase::Failed);
}

#[test]
fn retry_can_succeed() {
    let mut s = awaiting_spawn();
    s.step(refused("permission denied"));
    s.step(Event::SweepFinished);
    s.step(Event::DelayElapsed);
    s.step(Event::ExecutableChecked { present: true });
    assert!(matches!(s.step(Event::Spawned { pid: 88 }), Action::Nothing));
    assert_eq!(s.phase(), Phase::Running);
    assert_eq!(s.current_pid(), Some(88));
}

#[test]
fn missing_executable_in_retry_gives_up() {
    let mut s = awaiting_spawn();
    s.step(refused("x"));
    s.step(Event::SweepFinished);
    s.step(Event::DelayElapsed);
    let a = s.step(Event::ExecutableChecked { present: false });
    assert!(matches!(a, Action::GiveUp(LaunchError::ExecutableMissing)));
}

#[test]
fn spawn_records_pid_and_it_is_never_cleared() {
    let mut s = awaiting_spawn();
    s.step(Event::Spawned { pid: 4242 });
    assert_eq!(s.current_pid(), Some(4242));
    s.step(Event::Spawned { pid: 1 });
    s.step(Event::SweepFinished);
    assert_eq!(s.current_pid(), Some(4242));
    s.step(Event::ShutdownRequested);
    s.step(Event::CleanupFinished { kill_succeeded: true });
    assert_eq!(s.current_pid(), Some(4242));
}

#[test]
fn second_shutdown_after_stop_is_a_noop() {
    let mut s = awaiting_spawn();
    s.step(Event::Spawned { pid: 7 });
    assert!(matches!(s.step(Event::ShutdownRequested), Action::Shutdown { pid: Some(7) }));
    assert_eq!(s.phase(), Phase::Stopping);
    s.step(Event::CleanupFinished { kill_succeeded: true });
    assert_eq!(s.phase(), Phase::Stopped);
    let a = s.step(Event::ShutdownRequested);
    assert!(matches!(a, Action::Shutdown { pid: Some(7) }));
    assert_eq!(s.phase(), Phase::Stopped);
    assert_eq!(s.current_pid(), Some(7));
}

#[test]
fn failed_kill_is_not_reported() {
    let mut a = awaiting_spawn();
    let mut b = awaiting_spawn();
    for s in [&mut a, &mut b] {
        s.step(Event::Spawned { pid: 31 });
        s.step(Event::ShutdownRequested);
    }
    let ra = a.step(Event::CleanupFinished { kill_succeeded: true });
    let rb = b.step(Event::CleanupFinished { kill_succeeded: false });
    assert!(matches!(ra, Action::Nothing));
    assert!(matches!(rb, Action::Nothing));
    assert_eq!(a.phase(), b.phase());
    assert_eq!(a.current_pid(), b.current_pid());
}

#[test]
fn shutdown_without_worker_only_sweeps() {
    let mut s = Supervisor::new();
    start(&mut s);
    s.step(Event::ExecutableChecked { present: false });
    assert!(matches!(s.step(Event::ShutdownRequested), Action::Shutdown { pid: None }));
}

#[test]
fn late_spawn_after_shutdown_is_killed() {
    let mut s = awaiting_spawn();
    s.step(Event::ShutdownRequested);
    assert!(matches!(s.step(Event::Spawned { pid: 55 }), Action::Shutdown { pid: Some(55) }));
    assert_eq!(s.current_pid(), None);
}

#[test]
fn end_to_end_start_then_close() {
    let mut s = awaiting_spawn();
    s.step(Event::Spawned { pid: 1234 });
    assert_eq!(s.current_pid(), Some(1234));
    let pid = match s.step(Event::ShutdownRequested) {
        Action::Shutdown { pid } => pid,
        other => panic!("unexpected action {:?}", other),
    };
    assert_eq!(pid, Some(1234));
    let cmds = shutdown_commands(Platform::Windows, pid);
    assert_eq!(cmds.len(), 3);
    let kill = kill_by_pid_command(Platform::Windows, 1234);
    assert_eq!(cmds[0].program, kill.program);
    assert_eq!(cmds[0].args, kill.args);
    assert_eq!(cmds.iter().filter(|c| c.args.contains(&"/PID".to_string())).count(), 1);
    assert!(cmds[1..].iter().all(|c| c.args[1] == "/IM"));
}

#[test]
fn events_out_of_order_change_nothing() {
    let mut s = Supervisor::new();
    assert!(matches!(s.step(Event::Spawned { pid: 3 }), Action::Nothing));
    assert!(matches!(s.step(Event::DelayElapsed), Action::Nothing));
    assert_eq!(s.phase(), Phase::Idle);
    assert_eq!(s.current_pid(), None);
}

#[test]
fn no_second_spawn_while_a_worker_runs() {
    let mut s = awaiting_spawn();
    s.step(Event::Spawned { pid: 12 });
    assert!(matches!(s.step(Event::ExecutableChecked { present: true }), Action::Nothing));
    assert!(matches!(s.step(Event::DelayElapsed), Action::Nothing));
    assert!(matches!(s.step(refused("x")), Action::Nothing));
    assert_eq!(s.phase(), Phase::Running);
    assert_eq!(s.current_pid(), Some(12));
}
