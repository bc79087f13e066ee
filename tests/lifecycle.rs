use voicebox::error::WorkerError;
use voicebox::lifecycle::{start_result, Coordinator, Lifecycle, StartPlan};
use voicebox::probe::ProbeOutcome;

fn launch_args(plan: StartPlan) -> Vec<String> {
    match plan {
        StartPlan::Launch(args) => args,
        StartPlan::AlreadyRunning(msg) => panic!("unexpected: {}", msg),
    }
}

#[test]
fn second_start_while_ready_launches_nothing() {
    let mut c: Coordinator<u32> = Coordinator::new();
    let mut spawns = 0;
    for _ in 0..2 {
        match c.plan_start("/data", false) {
            StartPlan::Launch(_) => {
                spawns += 1;
                c.launched(7);
                assert!(c.finish_start(ProbeOutcome::Ready).is_none());
            }
            StartPlan::AlreadyRunning(msg) => {
                assert_eq!(msg, "Server already running on http://localhost:8000");
            }
        }
    }
    assert_eq!(spawns, 1);
    assert_eq!(c.state(), Lifecycle::Ready);
    assert!(c.is_running());
}

#[test]
fn start_while_starting_is_already_running() {
    let mut c: Coordinator<u32> = Coordinator::new();
    c.launched(1);
    assert_eq!(c.state(), Lifecycle::Starting);
    assert!(matches!(c.plan_start("/data", true), StartPlan::AlreadyRunning(_)));
}

#[test]
fn launch_args_local_and_remote() {
    let c: Coordinator<u32> = Coordinator::new();
    assert_eq!(c.state(), Lifecycle::NotStarted);
    assert_eq!(launch_args(c.plan_start("/home/u/data", false)), vec!["--data-dir", "/home/u/data"]);
    assert_eq!(
        launch_args(c.plan_start("/home/u/data", true)),
        vec!["--data-dir", "/home/u/data", "--host", "0.0.0.0"]
    );
}

#[test]
fn failed_probe_gives_the_worker_back() {
    let mut c: Coordinator<u32> = Coordinator::new();
    c.launched(5);
    assert_eq!(c.finish_start(ProbeOutcome::TimedOutStarting), Some(5));
    assert_eq!(c.state(), Lifecycle::TimedOutStarting);
    assert!(!c.is_running());
    c.launched(6);
    assert_eq!(c.finish_start(ProbeOutcome::ExitedUnexpectedly), Some(6));
    assert_eq!(c.state(), Lifecycle::ExitedUnexpectedly);
    assert!(matches!(c.plan_start("/d", false), StartPlan::Launch(_)));
}

#[test]
fn launch_failure_holds_nothing() {
    let mut c: Coordinator<u32> = Coordinator::new();
    c.launch_failed();
    assert_eq!(c.state(), Lifecycle::FailedToStart);
    assert!(!c.is_running());
}

#[test]
fn stop_without_worker_is_a_no_op() {
    let mut c: Coordinator<u32> = Coordinator::new();
    assert_eq!(c.stop(), None);
    assert_eq!(c.state(), Lifecycle::NotStarted);
}

#[test]
fn stop_hands_back_the_worker_once() {
    let mut c: Coordinator<u32> = Coordinator::new();
    c.launched(9);
    c.finish_start(ProbeOutcome::Ready);
    assert_eq!(c.stop(), Some(9));
    assert_eq!(c.state(), Lifecycle::Stopped);
    assert_eq!(c.stop(), None);
    assert!(matches!(c.plan_start("/d", false), StartPlan::Launch(_)));
}

#[test]
fn start_results_per_outcome() {
    assert_eq!(start_result(ProbeOutcome::Ready).ok(), Some("Server started on http://localhost:8000".to_string()));
    assert!(matches!(start_result(ProbeOutcome::TimedOutStarting), Err(WorkerError::TimedOutStarting)));
    assert!(matches!(start_result(ProbeOutcome::ExitedUnexpectedly), Err(WorkerError::ExitedUnexpectedly)));
}

#[test]
fn error_messages() {
    assert_eq!(WorkerError::DirectoryCreationFailed("denied".to_string()).message(), "Failed to create data dir: denied");
    assert_eq!(WorkerError::SpawnFailed("not found".to_string()).message(), "Failed to spawn: not found");
    assert_eq!(WorkerError::TimedOutStarting.message(), "Server startup timeout");
    assert_eq!(WorkerError::ExitedUnexpectedly.message(), "Server process ended unexpectedly");
    assert_eq!(WorkerError::TerminationFailed("gone".to_string()).message(), "Failed to kill: gone");
    assert_eq!(
        WorkerError::NotificationEmitFailed("no bus".to_string()).message(),
        "Failed to emit window-close-requested event: no bus"
    );
}
