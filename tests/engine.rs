use axon_engine::actions::{Action, ValidationError};
use axon_engine::engine::{
    plan_calls, send_key_down, send_key_tap, send_key_up, send_panic, send_sequence, EngineError,
    PlatformCall, ReleaseSweep, SequenceRun,
};
use axon_engine::keys::Key;

/// Drives a run to its end, performing each call with `platform` and logging it.
fn drive(mut run: SequenceRun, platform: &mut dyn FnMut(PlatformCall) -> Result<(), String>, log: &mut Vec<PlatformCall>) -> Result<(), EngineError> {
    while let Some(call) = run.next_call() {
        log.push(call);
        let outcome = platform(call);
        run.record(outcome);
    }
    run.outcome().expect("a run with no call left has ended")
}

fn drive_sweep(mut sweep: ReleaseSweep, platform: &mut dyn FnMut(PlatformCall) -> Result<(), String>, log: &mut Vec<PlatformCall>) -> Result<(), EngineError> {
    while let Some(call) = sweep.next_call() {
        log.push(call);
        let outcome = platform(call);
        sweep.record(outcome);
    }
    sweep.outcome().expect("a sweep with no release left has ended")
}

fn always_ok(_: PlatformCall) -> Result<(), String> {
    Ok(())
}

#[test]
fn calls_follow_list_order() {
    let mut actions = vec![Action::KeyDown(Key::VkA), Action::KeyUp(Key::VkA)];
    actions.extend(vec![Action::Wait(50)]);
    let run = send_sequence(true, actions).unwrap();
    let mut log = Vec::new();
    assert!(drive(run, &mut always_ok, &mut log).is_ok());
    assert_eq!(log, vec![PlatformCall::Press(0x41), PlatformCall::Release(0x41), PlatformCall::Sleep(50)]);
}

#[test]
fn empty_sequence_makes_no_call() {
    let run = send_sequence(true, Vec::new()).unwrap();
    assert_eq!(run.next_call(), None);
    let mut log = Vec::new();
    let mut count = 0;
    let mut platform = |_: PlatformCall| {
        count += 1;
        Ok(())
    };
    assert!(drive(run, &mut platform, &mut log).is_ok());
    assert_eq!(count, 0);
    assert!(log.is_empty());
}

#[test]
fn tap_is_press_then_release() {
    let run = send_key_tap(true, Key::VkSpace).unwrap();
    let mut log = Vec::new();
    assert!(drive(run, &mut always_ok, &mut log).is_ok());
    assert_eq!(log, vec![PlatformCall::Press(0x20), PlatformCall::Release(0x20)]);
}

#[test]
fn single_key_calls() {
    let mut log = Vec::new();
    assert!(drive(send_key_down(true, Key::VkLshift).unwrap(), &mut always_ok, &mut log).is_ok());
    assert!(drive(send_key_up(true, Key::VkLshift).unwrap(), &mut always_ok, &mut log).is_ok());
    assert_eq!(log, vec![PlatformCall::Press(0xA0), PlatformCall::Release(0xA0)]);
}

#[test]
fn unavailable_platform_attempts_nothing() {
    assert!(matches!(send_key_down(false, Key::VkA), Err(EngineError::Unavailable)));
    assert!(matches!(send_key_up(false, Key::VkA), Err(EngineError::Unavailable)));
    assert!(matches!(send_key_tap(false, Key::VkA), Err(EngineError::Unavailable)));
    assert!(matches!(send_sequence(false, vec![Action::Wait(1)]), Err(EngineError::Unavailable)));
    assert!(matches!(send_sequence(false, vec![Action::Wait(99_999)]), Err(EngineError::Unavailable)));
    assert!(matches!(send_panic(false), Err(EngineError::Unavailable)));
    assert_eq!(EngineError::Unavailable.message(), "Engine unavailable on this platform");
}

#[test]
fn invalid_sequence_performs_nothing() {
    let actions = vec![Action::KeyDown(Key::VkA), Action::Wait(10_001), Action::KeyUp(Key::VkA)];
    match send_sequence(true, actions) {
        Err(EngineError::Validation(e)) => {
            assert_eq!(e, ValidationError::WaitTooLong { ms: 10_001, limit: 10_000 });
        },
        _ => panic!("an over-long wait must be rejected before any call"),
    }
    let err = send_sequence(true, vec![Action::Wait(10_000); 4]).err().unwrap();
    assert_eq!(err.message(), "Total wait too long: 40000ms (max 30000ms)");
}

#[test]
fn run_stops_at_first_failure() {
    let actions = vec![
        Action::KeyDown(Key::VkA),
        Action::KeyTap(Key::VkB),
        Action::Wait(5),
        Action::KeyUp(Key::VkA),
    ];
    let run = send_sequence(true, actions).unwrap();
    let mut log = Vec::new();
    let mut platform = |call: PlatformCall| match call {
        PlatformCall::Release(0x42) => Err("SendInput failed: denied".to_string()),
        _ => Ok(()),
    };
    let result = drive(run, &mut platform, &mut log);
    assert_eq!(log, vec![PlatformCall::Press(0x41), PlatformCall::Press(0x42), PlatformCall::Release(0x42)]);
    match result {
        Err(EngineError::Injection(detail)) => assert_eq!(detail, "SendInput failed: denied"),
        _ => panic!("the failing call must end the run"),
    }
}

#[test]
fn recording_after_the_end_changes_nothing() {
    let mut run = send_key_down(true, Key::VkC).unwrap();
    run.record(Err("first".to_string()));
    assert_eq!(run.next_call(), None);
    run.record(Err("second".to_string()));
    match run.outcome() {
        Some(Err(EngineError::Injection(detail))) => assert_eq!(detail, "first"),
        _ => panic!("the first failure stays"),
    }
}

#[test]
fn panic_sweep_succeeds_when_every_release_fails() {
    let sweep = send_panic(true).unwrap();
    let mut log = Vec::new();
    let mut faulty = |_: PlatformCall| Err("stuck".to_string());
    assert!(drive_sweep(sweep, &mut faulty, &mut log).is_ok());
    assert_eq!(log.len(), 41);
    assert!(log.iter().all(|c| matches!(c, PlatformCall::Release(_))));
    assert_eq!(log[0], PlatformCall::Release(0x41));
    assert_eq!(log[26], PlatformCall::Release(0xA0));
    assert_eq!(log[40], PlatformCall::Release(0x27));
}

#[test]
fn panic_sweep_is_not_over_before_the_last_key() {
    let mut sweep = send_panic(true).unwrap();
    for _ in 0..40 {
        sweep.record(Ok(()));
    }
    assert!(sweep.outcome().is_none());
    assert_eq!(sweep.next_call(), Some(PlatformCall::Release(0x27)));
    sweep.record(Err("stuck".to_string()));
    assert!(matches!(sweep.outcome(), Some(Ok(()))));
    assert_eq!(sweep.next_call(), None);
}

#[test]
fn plan_translates_each_action() {
    let plan = plan_calls(&[Action::KeyTap(Key::VkReturn), Action::Wait(7)]);
    assert_eq!(plan, vec![PlatformCall::Press(0x0D), PlatformCall::Release(0x0D), PlatformCall::Sleep(7)]);
}
