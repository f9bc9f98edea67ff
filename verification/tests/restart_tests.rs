use server_supervisor::restart::{
    restart_begin, restart_step, setup_outcome, RestartAction, RestartEvent, RestartPhase,
    RestartStep, RELEASE_GRACE_SECS, STARTUP_GRACE_SECS,
};
use server_supervisor::supervisor::{StartDecision, Supervisor};

fn run_restart(supervisor: &mut Supervisor<u32>, launch: Result<u32, String>) -> (Vec<RestartAction>, Vec<u32>) {
    let mut launch = Some(launch);
    let mut terminated = Vec::new();
    let mut seen = Vec::new();
    let mut step = restart_begin();
    loop {
        let event = match &step.action {
            RestartAction::StopServer => {
                if let Some(handle) = supervisor.stop() {
                    terminated.push(handle);
                }
                RestartEvent::Stopped
            }
            RestartAction::Wait { .. } => RestartEvent::Waited,
            RestartAction::StartServer => {
                let result = match supervisor.start_decision() {
                    StartDecision::AlreadyRunning => Ok(()),
                    StartDecision::Launch => supervisor.record_launch(launch.take().unwrap()),
                };
                RestartEvent::Started(result)
            }
            RestartAction::Return(_) => {
                seen.push(step.action);
                return (seen, terminated);
            }
        };
        let next = restart_step(step.phase, event).unwrap();
        seen.push(step.action);
        step = next;
    }
}

#[test]
fn grace_periods() {
    assert_eq!(RELEASE_GRACE_SECS, 2);
    assert_eq!(STARTUP_GRACE_SECS, 3);
}

#[test]
fn restart_begins_with_stop() {
    assert_eq!(
        restart_begin(),
        RestartStep { phase: RestartPhase::AwaitingStop, action: RestartAction::StopServer }
    );
}

#[test]
fn restart_of_running_server_follows_the_sequence() {
    let mut supervisor: Supervisor<u32> = Supervisor::new();
    assert!(supervisor.record_launch(Ok(100)).is_ok());
    let (actions, terminated) = run_restart(&mut supervisor, Ok(200));
    assert_eq!(
        actions,
        vec![
            RestartAction::StopServer,
            RestartAction::Wait { seconds: 2 },
            RestartAction::StartServer,
            RestartAction::Wait { seconds: 3 },
            RestartAction::Return(Ok(())),
        ]
    );
    assert_eq!(terminated, vec![100]);
    assert_eq!(supervisor.stop(), Some(200));
}

#[test]
fn restart_of_stopped_server_starts_it() {
    let mut supervisor: Supervisor<u32> = Supervisor::new();
    let (actions, terminated) = run_restart(&mut supervisor, Ok(7));
    assert_eq!(actions.len(), 5);
    assert_eq!(actions[4], RestartAction::Return(Ok(())));
    assert!(terminated.is_empty());
    assert_eq!(supervisor.stop(), Some(7));
}

#[test]
fn restart_with_failed_launch_returns_error_and_leaves_empty() {
    let mut supervisor: Supervisor<u32> = Supervisor::new();
    assert!(supervisor.record_launch(Ok(100)).is_ok());
    let (actions, terminated) = run_restart(&mut supervisor, Err(String::from("program not found")));
    assert_eq!(
        actions,
        vec![
            RestartAction::StopServer,
            RestartAction::Wait { seconds: 2 },
            RestartAction::StartServer,
            RestartAction::Return(Err(String::from(
                "Failed to start Node.js server: program not found"
            ))),
        ]
    );
    assert_eq!(terminated, vec![100]);
    assert!(!supervisor.is_running());
}

#[test]
fn each_phase_accepts_only_its_event() {
    let phases = [
        RestartPhase::AwaitingStop,
        RestartPhase::AwaitingRelease,
        RestartPhase::AwaitingStart,
        RestartPhase::AwaitingSettle,
        RestartPhase::Finished,
    ];
    for phase in phases {
        let stopped = restart_step(phase, RestartEvent::Stopped);
        let waited = restart_step(phase, RestartEvent::Waited);
        let started = restart_step(phase, RestartEvent::Started(Ok(())));
        let failed = restart_step(phase, RestartEvent::Started(Err(String::from("x"))));
        assert_eq!(stopped.is_some(), phase == RestartPhase::AwaitingStop);
        assert_eq!(
            waited.is_some(),
            phase == RestartPhase::AwaitingRelease || phase == RestartPhase::AwaitingSettle
        );
        assert_eq!(started.is_some(), phase == RestartPhase::AwaitingStart);
        assert_eq!(failed.is_some(), phase == RestartPhase::AwaitingStart);
    }
}

#[test]
fn single_steps() {
    assert_eq!(
        restart_step(RestartPhase::AwaitingStop, RestartEvent::Stopped),
        Some(RestartStep {
            phase: RestartPhase::AwaitingRelease,
            action: RestartAction::Wait { seconds: 2 }
        })
    );
    assert_eq!(
        restart_step(RestartPhase::AwaitingRelease, RestartEvent::Waited),
        Some(RestartStep { phase: RestartPhase::AwaitingStart, action: RestartAction::StartServer })
    );
    assert_eq!(
        restart_step(RestartPhase::AwaitingStart, RestartEvent::Started(Ok(()))),
        Some(RestartStep {
            phase: RestartPhase::AwaitingSettle,
            action: RestartAction::Wait { seconds: 3 }
        })
    );
    assert_eq!(
        restart_step(RestartPhase::AwaitingStart, RestartEvent::Started(Err(String::from("e")))),
        Some(RestartStep {
            phase: RestartPhase::Finished,
            action: RestartAction::Return(Err(String::from("e")))
        })
    );
    assert_eq!(
        restart_step(RestartPhase::AwaitingSettle, RestartEvent::Waited),
        Some(RestartStep { phase: RestartPhase::Finished, action: RestartAction::Return(Ok(())) })
    );
    assert_eq!(restart_step(RestartPhase::Finished, RestartEvent::Waited), None);
}

#[test]
fn setup_waits_after_successful_start() {
    assert_eq!(setup_outcome(Ok(())), Ok(3));
}

#[test]
fn setup_fails_with_prefixed_cause() {
    assert_eq!(
        setup_outcome(Err(String::from("Failed to start Node.js server: denied"))),
        Err(String::from(
            "Failed to start Node.js server: Failed to start Node.js server: denied"
        ))
    );
}
