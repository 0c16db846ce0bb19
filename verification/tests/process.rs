use rdbg::{Error, Process, ProcessState, StopReason};

#[test]
fn process_attach_invalid_pid() {
    let proc = Process::attach(0);
    assert_eq!(proc.is_err(), true);
}

#[test]
fn attach_rejects_negative_pid() {
    let proc = Process::attach(-7);
    assert!(matches!(proc, Err(Error::Attach(-7))));
}

#[test]
fn attach_constructs_stopped_controller() {
    let proc = Process::attach(42).unwrap();
    assert_eq!(proc.pid(), 42);
    assert_eq!(proc.state(), ProcessState::Stopped);
}

#[test]
fn launch_succeeds_on_silent_channel() {
    let report = [0u8; 1024];
    let proc = Process::launch(100, true, &report, 0).unwrap();
    assert_eq!(proc.pid(), 100);
    assert_eq!(proc.state(), ProcessState::Stopped);
}

#[test]
fn launch_fails_on_reported_message() {
    let mut report = [0u8; 1024];
    let message = b"exec failed";
    report[..message.len()].copy_from_slice(message);
    let proc = Process::launch(100, true, &report, message.len());
    match proc {
        Err(Error::Spawn(m)) => assert_eq!(m, message.to_vec()),
        other => panic!("expected a spawn failure, got {:?}", other.map(|p| p.pid())),
    }
}

#[test]
fn resume_only_from_stopped() {
    let mut proc = Process::attach(42).unwrap();
    let target = proc.resume().unwrap();
    assert_eq!(target, 42);
    proc.set_running();
    assert_eq!(proc.state(), ProcessState::Running);
    assert!(matches!(proc.resume(), Err(Error::Resume)));
}

#[test]
fn resume_fails_in_terminal_states() {
    // Exited: a wait that reports a normal exit moves the controller to a
    // terminal state, and resume must fail from it.
    let mut proc = Process::attach(42).unwrap();
    proc.wait_on_signal(7 << 8);
    assert_eq!(proc.state(), ProcessState::Exited);
    assert!(matches!(proc.resume(), Err(Error::Resume)));

    // Terminated by a signal, likewise.
    let mut proc = Process::attach(42).unwrap();
    proc.wait_on_signal(9);
    assert_eq!(proc.state(), ProcessState::Terminated);
    assert!(matches!(proc.resume(), Err(Error::Resume)));
}

#[test]
fn exit_code_round_trip() {
    // A process that exits normally with code 5: resume, then a wait that
    // reports the exit, then no further resume.
    let report = [0u8; 1024];
    let mut proc = Process::launch(100, true, &report, 0).unwrap();
    assert!(proc.resume().is_ok());
    proc.set_running();
    let reason = proc.wait_on_signal(5 << 8);
    assert_eq!(reason.reason, ProcessState::Exited);
    assert_eq!(reason.info, 5);
    assert_eq!(proc.state(), ProcessState::Exited);
    assert!(proc.resume().is_err());
}

#[test]
fn wait_updates_state_to_decoded_reason() {
    let mut proc = Process::attach(42).unwrap();
    let reason = proc.wait_on_signal((19 << 8) | 0x7f);
    assert_eq!(reason.reason, ProcessState::Stopped);
    assert_eq!(reason.info, 19);
    assert_eq!(proc.state(), ProcessState::Stopped);
}

#[test]
fn decode_exited() {
    let reason = StopReason::new(42 << 8);
    assert_eq!(reason.reason, ProcessState::Exited);
    assert_eq!(reason.info, 42);
    assert!(!reason.is_anomaly());
}

#[test]
fn decode_terminated() {
    let reason = StopReason::new(9);
    assert_eq!(reason.reason, ProcessState::Terminated);
    assert_eq!(reason.info, 9);
}

#[test]
fn decode_stopped() {
    let reason = StopReason::new((19 << 8) | 0x7f);
    assert_eq!(reason.reason, ProcessState::Stopped);
    assert_eq!(reason.info, 19);
    assert!(!reason.is_anomaly());
}

#[test]
fn decode_unrecognized_falls_back_to_sentinel() {
    // Low byte 0xff: not an exit, not a termination (low seven bits all
    // set), not a stop (low byte is not the stop marker).
    let reason = StopReason::new(0xff);
    assert_eq!(reason.reason, ProcessState::Stopped);
    assert_eq!(reason.info, -1);
    assert!(reason.is_anomaly());
}

#[test]
fn teardown_plan_for_running_traced_launch() {
    let report = [0u8; 1024];
    let mut proc = Process::launch(100, true, &report, 0).unwrap();
    proc.resume().unwrap();
    proc.set_running();
    let plan = proc.teardown_plan();
    assert_eq!(plan.pid, 100);
    assert!(plan.halt_before_detach);
    assert!(plan.detach);
    assert!(plan.kill_and_reap);
}

#[test]
fn teardown_plan_for_stopped_attach() {
    let proc = Process::attach(42).unwrap();
    let plan = proc.teardown_plan();
    assert_eq!(plan.pid, 42);
    assert!(!plan.halt_before_detach);
    assert!(plan.detach);
    assert!(!plan.kill_and_reap);
}

#[test]
fn teardown_plan_for_untraced_launch() {
    let report = [0u8; 1024];
    let proc = Process::launch(100, false, &report, 0).unwrap();
    let plan = proc.teardown_plan();
    assert_eq!(plan.pid, 100);
    assert!(!plan.halt_before_detach);
    assert!(!plan.detach);
    assert!(plan.kill_and_reap);
}
