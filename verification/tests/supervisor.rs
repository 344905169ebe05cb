//! Restart policy, backoff, and the supervision state machine.

use immortal_core::config::{
    ConditionBackoffConfig, RestartBurstLimit, RestartConfig, RestartPolicy, StartConditionConfig,
};
use immortal_core::supervisor::restart::backoff_delay;
use immortal_core::supervisor::{
    ChildResult, ConditionTracker, DesiredState, FailureReason, Generation, RestartDecision,
    RestartTracker, StateMachine, SupervisorState, TransitionError,
};

fn policy(policy: RestartPolicy) -> RestartConfig {
    let mut restart = RestartConfig::default();
    restart.policy = policy;
    restart.backoff.jitter_percent = 0;
    restart
}

#[test]
fn failures_are_retried_and_success_ends_them() {
    let restart = policy(RestartPolicy::OnFailure);
    let mut tracker = RestartTracker::default();
    tracker.record_start(0);
    assert_eq!(
        tracker.decide(ChildResult::Exited(1), 0, 1, DesiredState::Up, &restart),
        RestartDecision::Restart {
            base_delay_seconds: 1,
            jitter_percent: 0
        }
    );
    assert_eq!(
        tracker.decide(ChildResult::Signaled(9), 0, 2, DesiredState::Up, &restart),
        RestartDecision::Restart {
            base_delay_seconds: 2,
            jitter_percent: 0
        }
    );
    assert_eq!(
        tracker.decide(ChildResult::Exited(0), 0, 3, DesiredState::Up, &restart),
        RestartDecision::StayDown
    );
    assert_eq!(
        tracker.decide(ChildResult::Exited(1), 60, 70, DesiredState::Up, &restart),
        RestartDecision::Restart {
            base_delay_seconds: 1,
            jitter_percent: 0
        },
        "a long run ends the failure streak"
    );
}

#[test]
fn policies_and_intent_decide_whether_to_restart() {
    let mut tracker = RestartTracker::default();
    let never = policy(RestartPolicy::Never);
    assert_eq!(
        tracker.decide(ChildResult::Exited(1), 0, 0, DesiredState::Up, &never),
        RestartDecision::StayDown
    );
    let mut done = policy(RestartPolicy::Never);
    done.exit_when_done = true;
    assert_eq!(
        tracker.decide(ChildResult::Exited(0), 0, 0, DesiredState::Up, &done),
        RestartDecision::ExitSupervisor
    );
    let always = policy(RestartPolicy::Always);
    for (desired, decision) in [
        (DesiredState::Down, RestartDecision::StayDown),
        (DesiredState::Once, RestartDecision::StayDown),
        (DesiredState::Halt, RestartDecision::ExitSupervisor),
        (DesiredState::Exit, RestartDecision::ExitSupervisor),
    ] {
        assert_eq!(
            tracker.decide(ChildResult::Exited(0), 0, 0, desired, &always),
            decision
        );
    }
}

#[test]
fn every_limit_ends_restarting() {
    let mut restart = policy(RestartPolicy::Always);
    restart.limits.max_retries = Some(1);
    let mut tracker = RestartTracker::default();
    tracker.record_start(0);
    assert!(matches!(
        tracker.decide(ChildResult::Exited(1), 0, 0, DesiredState::Up, &restart),
        RestartDecision::Restart { .. }
    ));
    tracker.record_start(1);
    assert_eq!(
        tracker.decide(ChildResult::Exited(1), 0, 1, DesiredState::Up, &restart),
        RestartDecision::Fail(FailureReason::RetryLimit)
    );
    restart.exit_when_done = true;
    assert_eq!(
        tracker.decide(ChildResult::Exited(1), 0, 1, DesiredState::Up, &restart),
        RestartDecision::ExitFailure(FailureReason::RetryLimit)
    );
    assert_eq!(tracker.total_starts(), 2);

    let mut restart = policy(RestartPolicy::Always);
    restart.limits.max_elapsed_seconds = Some(300);
    assert_eq!(
        tracker.decide(ChildResult::Exited(1), 0, 300, DesiredState::Up, &restart),
        RestartDecision::Fail(FailureReason::ElapsedLimit)
    );

    let mut restart = policy(RestartPolicy::Always);
    restart.limits.burst = Some(RestartBurstLimit {
        starts: 2,
        window_seconds: 10,
    });
    let mut tracker = RestartTracker::default();
    tracker.record_start(0);
    tracker.record_start(9);
    assert_eq!(
        tracker.decide(ChildResult::Exited(1), 0, 9, DesiredState::Up, &restart),
        RestartDecision::Fail(FailureReason::BurstLimit)
    );
    assert!(matches!(
        tracker.decide(ChildResult::Exited(1), 0, 10, DesiredState::Up, &restart),
        RestartDecision::Restart { .. }
    ));
}

#[test]
fn delays_grow_up_to_their_maximum() {
    assert_eq!(backoff_delay(2, 3, 0, 100), 2);
    assert_eq!(backoff_delay(2, 3, 2, 100), 18);
    assert_eq!(backoff_delay(2, 3, 9, 100), 100);
    assert_eq!(backoff_delay(u64::MAX, u32::MAX, u32::MAX, 7), 7);
    let condition = StartConditionConfig {
        command: vec!["true".to_owned()],
        timeout_seconds: 1,
        backoff: ConditionBackoffConfig {
            initial_seconds: 2,
            max_seconds: 5,
            multiplier: 2,
            jitter_percent: 0,
        },
    };
    let mut tracker = ConditionTracker::default();
    assert_eq!(tracker.failed(&condition).base_delay_seconds, 2);
    assert_eq!(tracker.failed(&condition).base_delay_seconds, 4);
    assert_eq!(tracker.failed(&condition).base_delay_seconds, 5);
    tracker.passed();
    assert_eq!(tracker.failed(&condition).base_delay_seconds, 2);
}

#[test]
fn only_declared_transitions_are_accepted() -> Result<(), TransitionError> {
    let mut machine = StateMachine::default();
    assert_eq!(machine.state(), SupervisorState::Down);
    assert!(machine.preconditions_ready().is_err());
    machine.begin_start()?;
    assert!(machine.begin_start().is_err());
    let first = machine.preconditions_ready()?;
    assert_eq!(first, Generation::new(1).expect("positive generation"));
    assert_eq!(machine.state(), SupervisorState::Starting(first));
    machine.child_started(first)?;
    machine.child_ready(first)?;
    machine.begin_stop(first)?;
    machine.child_reaped(
        first,
        RestartDecision::Restart {
            base_delay_seconds: 3,
            jitter_percent: 0,
        },
    )?;
    assert_eq!(
        machine.state(),
        SupervisorState::Backoff {
            generation: first,
            delay_seconds: 3
        }
    );
    machine.backoff_elapsed(first)?;
    assert_eq!(machine.state(), SupervisorState::Down);
    machine.begin_start()?;
    let second = machine.preconditions_ready()?;
    assert_ne!(second, first);
    assert!(machine.child_started(first).is_err());
    Ok(())
}
