use axon_engine::actions::{Action, SequenceValidator, ValidationError};
use axon_engine::keys::Key;

#[test]
fn test_validate_ok() {
    let actions = vec![
        Action::KeyDown(Key::VkA),
        Action::Wait(100),
        Action::KeyUp(Key::VkA),
    ];
    assert!(SequenceValidator::validate(&actions).is_ok());
}

#[test]
fn test_validate_too_many_actions() {
    let actions = vec![Action::Wait(1); 257];
    let result = SequenceValidator::validate(&actions);
    assert!(result.is_err());
    assert!(result.unwrap_err().message().contains("Too many actions"));
}

#[test]
fn test_validate_wait_too_long() {
    let actions = vec![Action::Wait(10_001)];
    let result = SequenceValidator::validate(&actions);
    assert!(result.is_err());
    assert!(result.unwrap_err().message().contains("Wait too long"));
}

#[test]
fn test_validate_total_wait_too_long() {
    let actions = vec![
        Action::Wait(10_000),
        Action::Wait(10_000),
        Action::Wait(10_000),
        Action::Wait(1),
    ];
    let result = SequenceValidator::validate(&actions);
    assert!(result.is_err());
    assert!(result.unwrap_err().message().contains("Total wait too long"));
}

#[test]
fn empty_sequence_is_valid() {
    assert_eq!(SequenceValidator::validate(&[]), Ok(()));
}

#[test]
fn sequence_at_every_bound_is_valid() {
    let mut actions = vec![Action::KeyTap(Key::VkSpace); 253];
    actions.push(Action::Wait(10_000));
    actions.push(Action::Wait(10_000));
    actions.push(Action::Wait(10_000));
    assert_eq!(actions.len(), 256);
    assert_eq!(SequenceValidator::validate(&actions), Ok(()));
}

#[test]
fn too_many_actions_reports_exact_length() {
    let actions = vec![Action::KeyTap(Key::VkB); 300];
    let err = SequenceValidator::validate(&actions).unwrap_err();
    assert_eq!(err, ValidationError::TooManyActions { count: 300, limit: 256 });
    assert_eq!(err.message(), "Too many actions: 300 (max 256)");
}

#[test]
fn too_many_actions_wins_over_long_waits() {
    let actions = vec![Action::Wait(50_000); 257];
    assert_eq!(
        SequenceValidator::validate(&actions),
        Err(ValidationError::TooManyActions { count: 257, limit: 256 })
    );
}

#[test]
fn wait_of_10001_is_rejected_among_other_actions() {
    let actions = vec![
        Action::KeyDown(Key::VkLshift),
        Action::Wait(500),
        Action::KeyTap(Key::VkQ),
        Action::Wait(10_001),
        Action::KeyUp(Key::VkLshift),
        Action::Wait(20_000),
    ];
    let err = SequenceValidator::validate(&actions).unwrap_err();
    assert_eq!(err, ValidationError::WaitTooLong { ms: 10_001, limit: 10_000 });
    assert_eq!(err.message(), "Wait too long: 10001ms (max 10000ms)");
}

#[test]
fn first_long_wait_is_the_one_reported() {
    let actions = vec![Action::Wait(12_345), Action::Wait(10_001)];
    assert_eq!(
        SequenceValidator::validate(&actions),
        Err(ValidationError::WaitTooLong { ms: 12_345, limit: 10_000 })
    );
}

#[test]
fn total_wait_of_30001_is_rejected() {
    let actions = vec![
        Action::Wait(10_000),
        Action::Wait(10_000),
        Action::Wait(10_000),
        Action::Wait(1),
    ];
    let err = SequenceValidator::validate(&actions).unwrap_err();
    assert_eq!(err, ValidationError::TotalWaitTooLong { total: 30_001, limit: 30_000 });
    assert_eq!(err.message(), "Total wait too long: 30001ms (max 30000ms)");
}

#[test]
fn validator_limits() {
    assert_eq!(SequenceValidator::MAX_ACTIONS, 256);
    assert_eq!(SequenceValidator::MAX_WAIT_MS, 10_000);
    assert_eq!(SequenceValidator::MAX_TOTAL_WAIT_MS, 30_000);
}
