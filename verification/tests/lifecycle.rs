use unleash_openfeature::lifecycle::{
    InitializeAction, PollLifecycle, RegisteredAction, ShutdownAction,
};

#[test]
fn initialize_is_idempotent() {
    let mut lifecycle = PollLifecycle::new();
    assert!(!lifecycle.polling());
    assert_eq!(lifecycle.initialize(), InitializeAction::Register);
    assert_eq!(lifecycle.registered(true), RegisteredAction::StartPolling);
    assert!(lifecycle.polling());
    assert_eq!(lifecycle.initialize(), InitializeAction::Done);
    assert!(lifecycle.polling());
}

#[test]
fn failed_registration_can_be_tried_again() {
    let mut lifecycle = PollLifecycle::new();
    assert_eq!(lifecycle.initialize(), InitializeAction::Register);
    assert_eq!(lifecycle.registered(false), RegisteredAction::Fail);
    assert!(!lifecycle.polling());
    assert_eq!(lifecycle.initialize(), InitializeAction::Register);
}

#[test]
fn shutdown_is_idempotent() {
    let mut lifecycle = PollLifecycle::new();
    assert_eq!(lifecycle.shutdown(), ShutdownAction::Done);
    assert_eq!(lifecycle.registered(true), RegisteredAction::StartPolling);
    assert_eq!(lifecycle.shutdown(), ShutdownAction::StopPolling);
    assert!(!lifecycle.polling());
    assert_eq!(lifecycle.shutdown(), ShutdownAction::Done);
}

#[test]
fn each_poll_is_stopped_before_the_next_starts() {
    let mut lifecycle = PollLifecycle::new();
    let mut running: i32 = 0;
    for round in 0..6 {
        if lifecycle.initialize() == InitializeAction::Register
            && lifecycle.registered(round % 3 != 0) == RegisteredAction::StartPolling
        {
            running += 1;
        }
        assert_eq!(running, i32::from(lifecycle.polling()));
        if round % 2 == 1 && lifecycle.shutdown() == ShutdownAction::StopPolling {
            running -= 1;
        }
        assert_eq!(running, i32::from(lifecycle.polling()));
    }
}
