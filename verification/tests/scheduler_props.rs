use windscribe_ephemeral_port::errors::{ErrorKind, PortError};
use windscribe_ephemeral_port::reconcile::ReconciliationOutcome;
use windscribe_ephemeral_port::scheduler::{
    conclude_cycle, next_cycle_delay, CycleResult, LoopState, SchedulerLoop,
};

#[test]
fn downstream_failures_never_fail_the_cycle() {
    let outcome = ReconciliationOutcome { port: 7000, delay_secs: 500 };
    let mixed: Vec<Result<bool, PortError>> = vec![
        Err(PortError::new(ErrorKind::Downstream, "unreachable")),
        Ok(true),
    ];
    assert_eq!(
        conclude_cycle(&outcome, &mixed),
        CycleResult::Success { delay_secs: 500 }
    );
    let none: Vec<Result<bool, PortError>> = Vec::new();
    assert_eq!(
        conclude_cycle(&outcome, &none),
        CycleResult::Success { delay_secs: 500 }
    );
}

#[test]
fn uncapped_success_uses_the_computed_delay() {
    let result = CycleResult::Success { delay_secs: 12345 };
    assert_eq!(next_cycle_delay(&result, None, 60), 12345);
}

#[test]
fn a_fixed_interval_caps_the_computed_delay() {
    let long = CycleResult::Success { delay_secs: 7200 };
    assert_eq!(next_cycle_delay(&long, Some(3600), 60), 3600);
    let short = CycleResult::Success { delay_secs: 100 };
    assert_eq!(next_cycle_delay(&short, Some(3600), 60), 100);
    let equal = CycleResult::Success { delay_secs: 3600 };
    assert_eq!(next_cycle_delay(&equal, Some(3600), 60), 3600);
}

#[test]
fn a_failed_cycle_retries_after_the_fixed_delay() {
    assert_eq!(next_cycle_delay(&CycleResult::Failure, None, 60), 60);
    assert_eq!(next_cycle_delay(&CycleResult::Failure, Some(3600), 60), 60);
}

#[test]
fn the_loop_arms_exactly_one_cycle_per_completion() {
    let mut sched = SchedulerLoop::new(None, 60);
    assert_eq!(sched.state, LoopState::Armed { delay_secs: 0 });
    sched.fire();
    assert_eq!(sched.state, LoopState::Running { stop_requested: false });
    // a successful cycle with no fixed interval: armed after exactly
    // the computed delay
    let armed = sched.complete(&CycleResult::Success { delay_secs: 500 });
    assert_eq!(armed, Some(500));
    assert_eq!(sched.state, LoopState::Armed { delay_secs: 500 });
    // the next completion fully replaces the previous delay
    sched.fire();
    let armed = sched.complete(&CycleResult::Failure);
    assert_eq!(armed, Some(60));
    assert_eq!(sched.state, LoopState::Armed { delay_secs: 60 });
}

#[test]
fn stop_while_armed_exits_at_once() {
    let mut sched = SchedulerLoop::new(Some(3600), 60);
    sched.stop();
    assert_eq!(sched.state, LoopState::Stopped);
    sched.stop();
    assert_eq!(sched.state, LoopState::Stopped);
}

#[test]
fn stop_while_running_lets_the_cycle_finish_then_exits() {
    let mut sched = SchedulerLoop::new(None, 60);
    sched.fire();
    sched.stop();
    assert_eq!(sched.state, LoopState::Running { stop_requested: true });
    // the in-flight cycle's results are applied, but nothing is armed
    let armed = sched.complete(&CycleResult::Success { delay_secs: 500 });
    assert_eq!(armed, None);
    assert_eq!(sched.state, LoopState::Stopped);
}
