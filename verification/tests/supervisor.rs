use watchit::{
    flush, process_change_cycle, run_on_change, RunAction, RunError, RunEvent, RunPhase,
    Supervisor, WatcherEvent,
};

const QUIET: u64 = 500_000_000;

fn with_command(command: &str, interrupt: bool) -> Supervisor {
    Supervisor::new(Some(command.to_string()), interrupt, QUIET)
}

fn change() -> RunEvent {
    RunEvent::Received(WatcherEvent::ChangeDetected)
}

fn error(cause: &str) -> RunEvent {
    RunEvent::Received(WatcherEvent::Error(cause.to_string()))
}

/// A supervisor whose command has just been launched.
fn running(command: &str, interrupt: bool) -> Supervisor {
    let mut supervisor = with_command(command, interrupt);
    assert!(matches!(
        run_on_change(&mut supervisor, RunEvent::Received(WatcherEvent::Ready)),
        RunAction::Sleep { nanos: QUIET }
    ));
    assert_eq!(supervisor.phase(), RunPhase::Sleeping);
    assert!(matches!(run_on_change(&mut supervisor, RunEvent::Slept), RunAction::Poll));
    assert_eq!(supervisor.phase(), RunPhase::Draining);
    match run_on_change(&mut supervisor, RunEvent::QueueEmpty) {
        RunAction::Launch(launched) => assert_eq!(launched, command),
        other => panic!("{:?}", other),
    }
    assert_eq!(supervisor.phase(), RunPhase::Launching);
    assert!(matches!(run_on_change(&mut supervisor, RunEvent::Launched), RunAction::Select));
    assert_eq!(supervisor.phase(), RunPhase::Running);
    supervisor
}

#[test]
fn without_command_ready_ends_in_success() {
    let mut supervisor = Supervisor::new(None, false, QUIET);
    assert_eq!(supervisor.phase(), RunPhase::Waiting);
    assert!(matches!(
        run_on_change(&mut supervisor, RunEvent::Received(WatcherEvent::Ready)),
        RunAction::Exit(Ok(()))
    ));
    assert_eq!(supervisor.phase(), RunPhase::Finished);
    assert!(matches!(run_on_change(&mut supervisor, change()), RunAction::Exit(Ok(()))));
}

#[test]
fn without_command_first_change_ends_in_success() {
    let mut supervisor = Supervisor::new(None, true, QUIET);
    assert!(matches!(run_on_change(&mut supervisor, change()), RunAction::Exit(Ok(()))));
    assert_eq!(supervisor.phase(), RunPhase::Finished);
}

#[test]
fn closed_channel_while_waiting_ends_in_success() {
    let mut supervisor = with_command("true", false);
    assert!(matches!(run_on_change(&mut supervisor, RunEvent::Disconnected), RunAction::Exit(Ok(()))));
}

#[test]
fn error_while_waiting_is_the_outcome() {
    let mut supervisor = with_command("true", false);
    match run_on_change(&mut supervisor, error("watch broke")) {
        RunAction::Exit(Err(RunError::Watch(cause))) => assert_eq!(cause, "watch broke"),
        other => panic!("{:?}", other),
    }
    match run_on_change(&mut supervisor, change()) {
        RunAction::Exit(Err(RunError::Watch(cause))) => assert_eq!(cause, "watch broke"),
        other => panic!("{:?}", other),
    }
    assert_eq!(supervisor.phase(), RunPhase::Finished);
}

#[test]
fn error_without_command_is_the_outcome() {
    let mut supervisor = Supervisor::new(None, false, QUIET);
    match run_on_change(&mut supervisor, error("no inotify")) {
        RunAction::Exit(Err(RunError::Watch(cause))) => assert_eq!(cause, "no inotify"),
        other => panic!("{:?}", other),
    }
}

#[test]
fn burst_during_quiet_period_gives_one_launch() {
    let mut supervisor = with_command("make", false);
    let mut launches = 0;
    let events = vec![change(), RunEvent::Slept, change(), change(), change(), RunEvent::QueueEmpty];
    for event in events {
        if let RunAction::Launch(command) = run_on_change(&mut supervisor, event) {
            assert_eq!(command, "make");
            launches += 1;
        }
    }
    assert_eq!(launches, 1);
    assert_eq!(supervisor.phase(), RunPhase::Launching);
}

#[test]
fn separate_changes_give_separate_launches() {
    let mut supervisor = with_command("make", false);
    let mut launches = 0;
    for _ in 0..3 {
        let events = vec![
            change(),
            RunEvent::Slept,
            RunEvent::QueueEmpty,
            RunEvent::Launched,
            RunEvent::ChildExited { code: Some(0) },
        ];
        for event in events {
            if let RunAction::Launch(_) = run_on_change(&mut supervisor, event) {
                launches += 1;
            }
        }
        assert_eq!(supervisor.phase(), RunPhase::Waiting);
    }
    assert_eq!(launches, 3);
}

#[test]
fn error_in_the_queue_ends_the_flush() {
    let mut supervisor = with_command("make", false);
    run_on_change(&mut supervisor, change());
    assert!(matches!(flush(&mut supervisor, RunEvent::Slept), RunAction::Poll));
    assert!(matches!(flush(&mut supervisor, change()), RunAction::Poll));
    match flush(&mut supervisor, error("read failed")) {
        RunAction::Exit(Err(RunError::Watch(cause))) => assert_eq!(cause, "read failed"),
        other => panic!("{:?}", other),
    }
}

#[test]
fn closed_channel_ends_the_drain_and_launches() {
    let mut supervisor = with_command("make", false);
    run_on_change(&mut supervisor, change());
    run_on_change(&mut supervisor, RunEvent::Slept);
    assert!(matches!(run_on_change(&mut supervisor, RunEvent::Disconnected), RunAction::Launch(_)));
}

#[test]
fn launch_failure_is_the_outcome() {
    let mut supervisor = with_command("make", false);
    run_on_change(&mut supervisor, change());
    run_on_change(&mut supervisor, RunEvent::Slept);
    run_on_change(&mut supervisor, RunEvent::QueueEmpty);
    match run_on_change(&mut supervisor, RunEvent::LaunchFailed("Could not spawn shell".to_string())) {
        RunAction::Exit(Err(RunError::Spawn(cause))) => assert_eq!(cause, "Could not spawn shell"),
        other => panic!("{:?}", other),
    }
}

#[test]
fn quiet_run_returns_to_waiting() {
    let mut supervisor = running("true", true);
    assert!(matches!(
        run_on_change(&mut supervisor, RunEvent::ChildExited { code: Some(0) }),
        RunAction::Receive
    ));
    assert_eq!(supervisor.phase(), RunPhase::Waiting);
}

#[test]
fn failing_command_restarts_after_change_without_interrupt() {
    let mut supervisor = running("exit 1", false);
    assert!(matches!(run_on_change(&mut supervisor, change()), RunAction::Select));
    assert_eq!(supervisor.phase(), RunPhase::Running);
    assert!(matches!(
        run_on_change(&mut supervisor, RunEvent::ChildExited { code: Some(1) }),
        RunAction::Sleep { nanos: QUIET }
    ));
    assert!(matches!(run_on_change(&mut supervisor, RunEvent::Slept), RunAction::Poll));
    match run_on_change(&mut supervisor, RunEvent::QueueEmpty) {
        RunAction::Launch(command) => assert_eq!(command, "exit 1"),
        other => panic!("{:?}", other),
    }
    assert!(matches!(run_on_change(&mut supervisor, RunEvent::Launched), RunAction::Select));
    assert!(matches!(
        run_on_change(&mut supervisor, RunEvent::ChildExited { code: Some(1) }),
        RunAction::Receive
    ));
    assert_eq!(supervisor.phase(), RunPhase::Waiting);
}

#[test]
fn changes_never_signal_without_interrupt_mode() {
    let mut supervisor = running("sleep 5", false);
    for _ in 0..4 {
        assert!(matches!(run_on_change(&mut supervisor, change()), RunAction::Select));
    }
    assert!(matches!(
        run_on_change(&mut supervisor, RunEvent::ChildExited { code: None }),
        RunAction::Sleep { nanos: QUIET }
    ));
}

#[test]
fn interrupt_mode_signals_once_per_run() {
    let mut supervisor = running("sleep 5", true);
    assert!(matches!(process_change_cycle(&mut supervisor, change()), RunAction::Interrupt));
    assert_eq!(supervisor.phase(), RunPhase::Signalling);
    assert!(matches!(process_change_cycle(&mut supervisor, RunEvent::Signalled), RunAction::Select));
    assert_eq!(supervisor.phase(), RunPhase::Running);
    assert!(matches!(process_change_cycle(&mut supervisor, change()), RunAction::Select));
    assert!(matches!(process_change_cycle(&mut supervisor, change()), RunAction::Select));
    assert!(matches!(
        process_change_cycle(&mut supervisor, RunEvent::ChildExited { code: None }),
        RunAction::Sleep { nanos: QUIET }
    ));
    assert_eq!(supervisor.phase(), RunPhase::Sleeping);
}

#[test]
fn next_run_can_be_interrupted_again() {
    let mut supervisor = running("sleep 5", true);
    assert!(matches!(run_on_change(&mut supervisor, change()), RunAction::Interrupt));
    run_on_change(&mut supervisor, RunEvent::Signalled);
    run_on_change(&mut supervisor, RunEvent::ChildExited { code: None });
    run_on_change(&mut supervisor, RunEvent::Slept);
    run_on_change(&mut supervisor, RunEvent::QueueEmpty);
    assert!(matches!(run_on_change(&mut supervisor, RunEvent::Launched), RunAction::Select));
    assert!(matches!(run_on_change(&mut supervisor, change()), RunAction::Interrupt));
}

#[test]
fn error_during_run_is_the_outcome_and_sends_no_signal() {
    let mut supervisor = running("sleep 5", true);
    match run_on_change(&mut supervisor, error("engine died")) {
        RunAction::Exit(Err(RunError::Watch(cause))) => assert_eq!(cause, "engine died"),
        other => panic!("{:?}", other),
    }
    assert!(matches!(
        run_on_change(&mut supervisor, RunEvent::ChildExited { code: Some(0) }),
        RunAction::Exit(Err(RunError::Watch(_)))
    ));
}

#[test]
fn signal_failure_is_the_outcome() {
    let mut supervisor = running("sleep 5", true);
    run_on_change(&mut supervisor, change());
    match run_on_change(&mut supervisor, RunEvent::SignalFailed("ESRCH".to_string())) {
        RunAction::Exit(Err(RunError::Signal(cause))) => assert_eq!(cause, "ESRCH"),
        other => panic!("{:?}", other),
    }
}

#[test]
fn wait_failure_is_the_outcome() {
    let mut supervisor = running("sleep 5", false);
    match run_on_change(&mut supervisor, RunEvent::WaitFailed("Child thread communication error".to_string())) {
        RunAction::Exit(Err(RunError::Wait(cause))) => assert_eq!(cause, "Child thread communication error"),
        other => panic!("{:?}", other),
    }
}

#[test]
fn closed_channel_during_run_is_a_failure() {
    let mut supervisor = running("sleep 5", false);
    assert!(matches!(
        run_on_change(&mut supervisor, RunEvent::Disconnected),
        RunAction::Exit(Err(RunError::Disconnected))
    ));
}

#[test]
fn event_out_of_turn_is_a_failure() {
    let mut supervisor = with_command("make", false);
    assert!(matches!(
        run_on_change(&mut supervisor, RunEvent::Launched),
        RunAction::Exit(Err(RunError::Unexpected))
    ));
    let mut supervisor = running("make", true);
    run_on_change(&mut supervisor, change());
    assert!(matches!(
        run_on_change(&mut supervisor, change()),
        RunAction::Exit(Err(RunError::Unexpected))
    ));
    let mut supervisor = with_command("make", false);
    run_on_change(&mut supervisor, change());
    assert!(matches!(
        flush(&mut supervisor, RunEvent::QueueEmpty),
        RunAction::Exit(Err(RunError::Unexpected))
    ));
}
