//! Supervision state, logger phases, and broker event handling.

use immortal_core::config::{
    BackoffConfig, LoggerRestartConfig, ProcessMode, ServiceConfig, MAX_SCHEDULE_SECONDS,
};
use immortal_core::control::{GenerationMatch, Operation, Request, ResponseCode, Signal, SignalScope};
use immortal_core::executor::broker::{reap_step, shutdown_progress, ReapStep};
use immortal_core::executor::clock::{jittered_backoff_seed, Moment};
use immortal_core::executor::completion::post_exit_environment;
use immortal_core::executor::context::{
    logger_status, BrokerAction, CommandToken, ExecutorAction, LoggerExecution,
    LoggerExecutionState, LoggerShutdownTier, PostExitContext, PreparedCommands, Surroundings,
};
use immortal_core::executor::events::{handle_broker_event, handle_generation_ready, owns_generation};
use immortal_core::executor::logger::{next_logger_shutdown_tier, schedule_logger_restart};
use immortal_core::executor::prepare::{
    broker_lifetime_plan, logger_adapter_program, needs_executable_directory, prepare_execution,
    prepare_file_adapter, prepare_logging, service_name_of, validate_supported,
};
use immortal_core::executor::runtime::{
    accept_ready, advance_service, handle_executor_event, supervision_finished, ExecutorEvent,
    Progress, StartupObservation,
};
use immortal_core::executor::startup::{startup_fault, StartupReporter};
use immortal_core::executor::timers::advance_childless_state;
use immortal_core::executor::{ExecutionContext, ExecutorError};
use immortal_core::path::UnixPath;
use immortal_core::process::{
    BrokerLoggerId, BrokerSignalScope, BrokerTaskId, ChildEvent, ProcessBrokerEvent, ProcessId,
    ProcessSignal,
};
use immortal_core::status::{LastResult, LoggerStatus, ServiceState};
use immortal_core::supervisor::{
    ChildResult, DesiredState, FailureReason, Generation, StateMachine, SupervisorState,
    TransitionError,
};

const NOW: Moment = Moment { nanoseconds: 100_000_000_000 };

fn refused(error: TransitionError) -> String {
    format!("{error:?}")
}

fn failed(error: ExecutorError) -> String {
    format!("{error:?}")
}

#[test]
fn logger_status_summarizes_every_runtime_phase() -> Result<(), String> {
    let task = BrokerTaskId::new(1).ok_or("invalid test task")?;
    let mut logger = LoggerExecution::new(BrokerLoggerId::new(0, 0));
    assert_eq!(logger_status(&[]), LoggerStatus::NotConfigured);
    assert_eq!(
        logger_status(std::slice::from_ref(&logger)),
        LoggerStatus::Starting
    );

    logger.state = LoggerExecutionState::Backoff { deadline: NOW };
    assert_eq!(
        logger_status(std::slice::from_ref(&logger)),
        LoggerStatus::Backoff
    );

    logger.state = LoggerExecutionState::Running {
        task,
        started_at: NOW,
    };
    assert_eq!(
        logger_status(std::slice::from_ref(&logger)),
        LoggerStatus::Ready
    );

    logger.state = LoggerExecutionState::Failed;
    assert_eq!(
        logger_status(std::slice::from_ref(&logger)),
        LoggerStatus::Failed
    );
    Ok(())
}

#[test]
fn logger_shutdown_drains_file_adapters_before_shared_logger() -> Result<(), String> {
    let shared_task = BrokerTaskId::new(1).ok_or("invalid shared logger task")?;
    let adapter_task = BrokerTaskId::new(2).ok_or("invalid file adapter task")?;
    let mut shared = LoggerExecution::new(BrokerLoggerId::shared_logger());
    shared.state = LoggerExecutionState::Running {
        task: shared_task,
        started_at: NOW,
    };
    let mut adapter = LoggerExecution::new(BrokerLoggerId::new(0, 0));
    adapter.state = LoggerExecutionState::Running {
        task: adapter_task,
        started_at: NOW,
    };
    let mut loggers = vec![shared, adapter];

    assert_eq!(
        next_logger_shutdown_tier(&loggers, LoggerShutdownTier::FileAdapters),
        Some(LoggerShutdownTier::FileAdapters)
    );
    let adapter = loggers
        .get_mut(1)
        .ok_or("file adapter logger disappeared")?;
    adapter.state = LoggerExecutionState::Down;
    assert_eq!(
        next_logger_shutdown_tier(&loggers, LoggerShutdownTier::FileAdapters),
        Some(LoggerShutdownTier::SharedLogger)
    );
    assert_eq!(
        next_logger_shutdown_tier(&loggers, LoggerShutdownTier::SharedLogger),
        Some(LoggerShutdownTier::SharedLogger)
    );
    let shared = loggers.get_mut(0).ok_or("shared logger disappeared")?;
    shared.state = LoggerExecutionState::Down;
    assert_eq!(
        next_logger_shutdown_tier(&loggers, LoggerShutdownTier::SharedLogger),
        None
    );
    Ok(())
}

#[test]
fn logger_retry_limit_and_stable_runtime_reset_are_independent() -> Result<(), String> {
    let broker = ProcessId::new(1).ok_or("invalid test process")?;
    let restart = LoggerRestartConfig {
        max_retries: Some(1),
        backoff: BackoffConfig {
            initial_seconds: 1,
            max_seconds: 1,
            multiplier: 1,
            jitter_percent: 0,
            reset_after_seconds: 10,
        },
    };
    let mut logger = LoggerExecution::new(BrokerLoggerId::new(0, 0));

    schedule_logger_restart(&mut logger, broker, &restart, NOW);
    assert!(matches!(logger.state, LoggerExecutionState::Backoff { .. }));
    logger.state = LoggerExecutionState::Down;
    schedule_logger_restart(&mut logger, broker, &restart, NOW);
    assert!(matches!(logger.state, LoggerExecutionState::Failed));

    let task = BrokerTaskId::new(1).ok_or("invalid test task")?;
    let started_at = Moment {
        nanoseconds: NOW.nanoseconds - 10_000_000_000,
    };
    logger.state = LoggerExecutionState::Running { task, started_at };
    schedule_logger_restart(&mut logger, broker, &restart, NOW);
    assert_eq!(
        logger.state,
        LoggerExecutionState::Backoff {
            deadline: NOW.plus_seconds(1)
        }
    );
    assert_eq!(logger.failure_streak, 1);
    Ok(())
}

#[test]
fn foreground_terminal_detection_distinguishes_initial_down_from_prestart_failure(
) -> Result<(), String> {
    let down = StateMachine::default();
    assert!(!supervision_finished(&down, false, true));
    assert!(supervision_finished(&down, false, false));

    let mut failed = StateMachine::default();
    failed
        .fail_without_child(FailureReason::LoggerRetryLimit)
        .map_err(refused)?;
    assert!(supervision_finished(&failed, false, true));
    assert!(!supervision_finished(&failed, true, true));
    Ok(())
}

#[test]
fn childless_start_schedules_a_bounded_start_delay() -> Result<(), String> {
    let mut machine = StateMachine::default();
    machine.set_desired(DesiredState::Up);
    let mut first_start = true;
    let mut deadline = None;

    assert!(advance_childless_state(
        &mut machine,
        &mut first_start,
        MAX_SCHEDULE_SECONDS,
        &mut deadline,
        NOW,
    )
    .map_err(failed)?);
    let scheduled = deadline.ok_or("bounded start delay did not schedule a deadline")?;
    assert!(!first_start);
    assert!(scheduled.nanoseconds >= NOW.plus_seconds(MAX_SCHEDULE_SECONDS).nanoseconds);
    Ok(())
}

#[test]
fn childless_start_refuses_an_unrepresentable_start_delay() -> Result<(), String> {
    let mut machine = StateMachine::default();
    machine.set_desired(DesiredState::Up);
    let mut first_start = true;
    let mut deadline = None;

    let error = advance_childless_state(
        &mut machine,
        &mut first_start,
        u64::MAX,
        &mut deadline,
        NOW,
    )
    .err()
    .ok_or("an unrepresentable start delay was scheduled")?;
    assert!(matches!(error, ExecutorError::OperatingSystem(_)));
    assert!(deadline.is_none());
    Ok(())
}

fn service() -> Result<ServiceConfig, String> {
    ServiceConfig::for_command(vec!["/bin/true".to_owned()]).map_err(|error| error.message())
}

/// Drive one execution context to a started, not-yet-ready generation.
fn started_execution() -> Result<(ExecutionContext, Generation), String> {
    let config = service()?;
    let mut execution = ExecutionContext::new(&config, &Vec::new(), false, NOW);
    execution.machine.set_desired(DesiredState::Up);
    execution.machine.begin_start().map_err(refused)?;
    let generation = execution.machine.preconditions_ready().map_err(refused)?;
    execution.machine.child_started(generation).map_err(refused)?;
    execution.deadline = Some(NOW.plus_seconds(30));
    Ok((execution, generation))
}

#[test]
fn readiness_publishes_only_for_a_running_generation() -> Result<(), String> {
    let (mut execution, generation) = started_execution()?;
    handle_generation_ready(generation, &mut execution).map_err(failed)?;
    assert_eq!(
        execution.machine.state(),
        SupervisorState::Ready(generation)
    );
    assert!(execution.deadline.is_none());
    Ok(())
}

#[test]
fn readiness_records_against_a_paused_generation() -> Result<(), String> {
    let (mut execution, generation) = started_execution()?;
    execution.machine.child_paused(generation).map_err(refused)?;
    handle_generation_ready(generation, &mut execution).map_err(failed)?;
    assert_eq!(
        execution.machine.state(),
        SupervisorState::Paused {
            generation,
            ready: true
        }
    );
    execution
        .machine
        .child_continued(generation)
        .map_err(refused)?;
    assert_eq!(
        execution.machine.state(),
        SupervisorState::Ready(generation)
    );
    Ok(())
}

/// The broker's readiness watcher is independent of supervisor state, so a
/// `stop` or `restart` during startup delivers readiness for a generation the
/// supervisor is no longer running.
#[test]
fn readiness_is_dropped_for_a_stopping_generation() -> Result<(), String> {
    let (mut execution, generation) = started_execution()?;
    execution.machine.begin_stop(generation).map_err(refused)?;
    let deadline = execution.deadline;

    handle_generation_ready(generation, &mut execution).map_err(failed)?;
    assert_eq!(
        execution.machine.state(),
        SupervisorState::Stopping(generation)
    );
    assert_eq!(
        execution.deadline, deadline,
        "a dropped readiness observation must not clear the stop deadline"
    );
    Ok(())
}

#[test]
fn readiness_for_an_unowned_generation_is_a_protocol_fault() -> Result<(), String> {
    let (mut execution, generation) = started_execution()?;
    let foreign =
        Generation::new(generation.get().saturating_add(1)).ok_or("invalid generation")?;
    assert!(owns_generation(&execution, generation));
    assert!(!owns_generation(&execution, foreign));

    execution.machine.begin_stop(generation).map_err(refused)?;
    assert!(owns_generation(&execution, generation));
    assert!(!owns_generation(&execution, foreign));

    let (mut execution, generation) = started_execution()?;
    execution.machine.child_paused(generation).map_err(refused)?;
    assert!(owns_generation(&execution, generation));
    assert!(!owns_generation(&execution, foreign));
    Ok(())
}

// ---------------------------------------------------------------------------
// Event handling
// ---------------------------------------------------------------------------

const COMMANDS: PreparedCommands = PreparedCommands {
    condition: false,
    descriptor_reload: false,
    descriptor_stop: false,
    post_exit: false,
};

fn surroundings(config: &ServiceConfig) -> Surroundings<'_> {
    Surroundings {
        config,
        commands: COMMANDS,
        broker: ProcessId::new(77).expect("positive process"),
        now: NOW,
    }
}

fn settle(execution: &mut ExecutionContext, env: &Surroundings<'_>, controlled: bool) -> Progress {
    loop {
        match advance_service(execution, env, controlled) {
            Ok(Progress::Again) => {}
            Ok(progress) => return progress,
            Err(error) => panic!("unexpected failure {error:?}"),
        }
    }
}

fn broker_actions(execution: &mut ExecutionContext) -> Vec<BrokerAction> {
    execution
        .take_actions()
        .into_iter()
        .map(|action| match action {
            ExecutorAction::Broker(action) => action,
            ExecutorAction::Respond { .. } => panic!("unexpected answer"),
        })
        .collect()
}

fn exited(process: i32, code: u8) -> ChildEvent {
    ChildEvent::Exited {
        pid: ProcessId::new(process).expect("positive process"),
        code,
    }
}

/// Start one service as far as its executed main process.
fn running(config: &ServiceConfig) -> (ExecutionContext, Generation) {
    let env = surroundings(config);
    let mut execution = ExecutionContext::new(config, &Vec::new(), false, NOW);
    execution.machine.set_desired(DesiredState::Up);
    assert!(matches!(
        settle(&mut execution, &env, true),
        Progress::Wait
    ));
    assert_eq!(execution.next_deadline(), Some(NOW));
    handle_executor_event(&mut execution, &env, Some("api"), 9, ExecutorEvent::Timer)
        .expect("start is due");
    let actions = broker_actions(&mut execution);
    let generation = match actions.as_slice() {
        [BrokerAction::Spawn { generation, .. }] => *generation,
        other => panic!("unexpected work {other:?}"),
    };
    let process = ProcessId::new(4242).expect("positive process");
    handle_broker_event(
        &mut execution,
        &env,
        ProcessBrokerEvent::Started {
            generation,
            process,
            group: process,
        },
    )
    .expect("started");
    (execution, generation)
}

#[test]
fn a_service_starts_reports_and_restarts() -> Result<(), String> {
    let config = service()?;
    let env = surroundings(&config);
    let (mut execution, generation) = running(&config);
    assert_eq!(
        execution.machine.state(),
        SupervisorState::Ready(generation)
    );
    let snapshot = execution.snapshot(9, NOW.plus_seconds(3));
    assert_eq!(snapshot.supervisor_pid, Some(9));
    assert_eq!(snapshot.main_pid, Some(4242));
    assert_eq!(snapshot.uptime_seconds, Some(3));
    assert_eq!(snapshot.state, ServiceState::Ready);
    assert_eq!(snapshot.starts, 1);
    broker_actions(&mut execution);

    handle_broker_event(
        &mut execution,
        &env,
        ProcessBrokerEvent::Child {
            generation,
            event: exited(4242, 3),
        },
    )
    .map_err(failed)?;
    assert_eq!(
        execution.status.last_result,
        Some(ChildResult::Exited(3))
    );
    let snapshot = execution.snapshot(9, NOW);
    assert_eq!(snapshot.main_pid, None);
    assert_eq!(snapshot.last_result, Some(LastResult::Exited(3)));
    assert_eq!(snapshot.failures, 1);
    assert!(matches!(
        execution.machine.state(),
        SupervisorState::Backoff { .. } | SupervisorState::Down
    ));
    Ok(())
}

fn request(operation: Operation, expected: GenerationMatch) -> Request {
    Request {
        operation,
        service: "api".to_owned(),
        expected_generation: expected,
        scope: SignalScope::Main,
        signal: None,
    }
}

#[test]
fn stopping_signals_the_group_and_then_kills_it() -> Result<(), String> {
    let config = service()?;
    let env = surroundings(&config);
    let (mut execution, generation) = running(&config);
    broker_actions(&mut execution);
    handle_executor_event(
        &mut execution,
        &env,
        Some("api"),
        9,
        ExecutorEvent::Control {
            command: CommandToken { number: 5 },
            request: request(Operation::Stop, GenerationMatch::Exact(generation)),
        },
    )
    .map_err(failed)?;
    let actions = execution.take_actions();
    assert!(actions.iter().any(|action| matches!(
        action,
        ExecutorAction::Broker(BrokerAction::Signal {
            scope: BrokerSignalScope::Group,
            signal: ProcessSignal::Terminate,
            ..
        })
    )));
    assert!(actions.iter().any(|action| matches!(
        action,
        ExecutorAction::Respond { command: CommandToken { number: 5 }, response }
            if response.code == ResponseCode::Success
    )));
    assert_eq!(
        execution.machine.state(),
        SupervisorState::Stopping(generation)
    );

    let late = Surroundings {
        now: NOW.plus_seconds(6),
        ..env
    };
    handle_executor_event(&mut execution, &late, Some("api"), 9, ExecutorEvent::Timer)
        .map_err(failed)?;
    assert!(broker_actions(&mut execution).iter().any(|action| matches!(
        action,
        BrokerAction::Signal {
            signal: ProcessSignal::Kill,
            ..
        }
    )));
    handle_broker_event(
        &mut execution,
        &late,
        ProcessBrokerEvent::Child {
            generation,
            event: exited(4242, 0),
        },
    )
    .map_err(failed)?;
    assert_eq!(execution.machine.state(), SupervisorState::Down);
    assert_eq!(execution.machine.desired(), DesiredState::Down);
    Ok(())
}

#[test]
fn status_requests_are_answered_with_a_snapshot() -> Result<(), String> {
    let config = service()?;
    let env = surroundings(&config);
    let (mut execution, generation) = running(&config);
    broker_actions(&mut execution);
    handle_executor_event(
        &mut execution,
        &env,
        Some("api"),
        9,
        ExecutorEvent::Control {
            command: CommandToken { number: 1 },
            request: request(Operation::Status, GenerationMatch::Any),
        },
    )
    .map_err(failed)?;
    match execution.take_actions().as_slice() {
        [ExecutorAction::Respond { command, response }] => {
            assert_eq!(command.number, 1);
            assert_eq!(response.generation, Some(generation));
            let status = response.status.as_ref().ok_or("status is missing")?;
            assert_eq!(status.command, ["/bin/true"]);
        }
        other => panic!("unexpected work {other:?}"),
    }
    Ok(())
}

#[test]
fn delivered_signals_answer_their_client() -> Result<(), String> {
    let config = service()?;
    let env = surroundings(&config);
    let (mut execution, generation) = running(&config);
    broker_actions(&mut execution);
    let mut hangup = request(Operation::Signal, GenerationMatch::Exact(generation));
    hangup.signal = Some(Signal::Hangup);
    handle_executor_event(
        &mut execution,
        &env,
        Some("api"),
        9,
        ExecutorEvent::Control {
            command: CommandToken { number: 8 },
            request: hangup,
        },
    )
    .map_err(failed)?;
    assert_eq!(
        broker_actions(&mut execution),
        [BrokerAction::Signal {
            generation,
            scope: BrokerSignalScope::Process,
            signal: ProcessSignal::Hangup,
        }]
    );
    handle_broker_event(
        &mut execution,
        &env,
        ProcessBrokerEvent::SignalDelivered { generation },
    )
    .map_err(failed)?;
    assert!(matches!(
        execution.take_actions().as_slice(),
        [ExecutorAction::Respond { command: CommandToken { number: 8 }, .. }]
    ));
    Ok(())
}

#[test]
fn foreign_events_are_protocol_faults() -> Result<(), String> {
    let config = service()?;
    let env = surroundings(&config);
    let (mut execution, generation) = running(&config);
    let foreign = Generation::new(generation.get() + 1).ok_or("invalid generation")?;
    let event = ProcessBrokerEvent::GenerationReady {
        generation: foreign,
    };
    match handle_broker_event(&mut execution, &env, event) {
        Err(ExecutorError::UnexpectedBrokerEvent(found)) => assert_eq!(found, event),
        other => panic!("unexpected result {other:?}"),
    }
    assert!(matches!(
        handle_executor_event(&mut execution, &env, None, 9, ExecutorEvent::ControlClosed),
        Err(ExecutorError::ControlServerStopped)
    ));
    Ok(())
}

#[test]
fn finished_services_report_their_outcome() -> Result<(), String> {
    let config = service()?;
    let env = surroundings(&config);
    let (mut execution, _) = running(&config);
    handle_executor_event(&mut execution, &env, None, 9, ExecutorEvent::Shutdown)
        .map_err(failed)?;
    let generation = execution
        .machine
        .state()
        .live_generation()
        .ok_or("no live generation")?;
    handle_broker_event(
        &mut execution,
        &env,
        ProcessBrokerEvent::Child {
            generation,
            event: exited(4242, 0),
        },
    )
    .map_err(failed)?;
    match settle(&mut execution, &env, false) {
        Progress::Finished(outcome) => {
            assert_eq!(outcome.starts, 1);
            assert_eq!(outcome.last_result, Some(ChildResult::Exited(0)));
        }
        other => panic!("unexpected progress {other:?}"),
    }
    Ok(())
}

/// Hand one broker event in.
fn observe(
    execution: &mut ExecutionContext,
    env: &Surroundings<'_>,
    event: ProcessBrokerEvent,
) -> Result<(), String> {
    handle_broker_event(execution, env, event).map_err(failed)
}

/// Send one request as client 5.
fn ask(
    execution: &mut ExecutionContext,
    env: &Surroundings<'_>,
    request: Request,
) -> Result<(), String> {
    let event = ExecutorEvent::Control {
        command: CommandToken { number: 5 },
        request,
    };
    handle_executor_event(execution, env, Some("api"), 9, event).map_err(failed)
}

fn answers(execution: &mut ExecutionContext) -> Vec<(u64, ResponseCode, String)> {
    execution
        .take_actions()
        .into_iter()
        .filter_map(|action| match action {
            ExecutorAction::Respond { command, response } => {
                Some((command.number, response.code, response.message))
            }
            ExecutorAction::Broker(_) => None,
        })
        .collect()
}

#[test]
fn detaching_answers_its_client_once_the_broker_agrees() -> Result<(), String> {
    let config = service()?;
    let env = surroundings(&config);
    let (mut execution, generation) = running(&config);
    broker_actions(&mut execution);
    ask(
        &mut execution,
        &env,
        request(Operation::Exit, GenerationMatch::Exact(generation)),
    )?;
    assert_eq!(
        broker_actions(&mut execution),
        [BrokerAction::Detach { generation }]
    );
    ask(
        &mut execution,
        &env,
        request(Operation::Stop, GenerationMatch::Exact(generation)),
    )?;
    assert_eq!(
        answers(&mut execution),
        [(
            5,
            ResponseCode::Conflict,
            "a live-child detach operation is already pending".to_owned()
        )]
    );
    observe(
        &mut execution,
        &env,
        ProcessBrokerEvent::DetachFailed { generation },
    )?;
    assert_eq!(
        answers(&mut execution),
        [(
            5,
            ResponseCode::Internal,
            "broker could not detach the requested live generation".to_owned()
        )]
    );
    assert_eq!(execution.machine.desired(), DesiredState::Up);

    ask(
        &mut execution,
        &env,
        request(Operation::Exit, GenerationMatch::Exact(generation)),
    )?;
    execution.take_actions();
    observe(
        &mut execution,
        &env,
        ProcessBrokerEvent::Detached { generation },
    )?;
    assert_eq!(
        answers(&mut execution)
            .iter()
            .map(|(client, code, _)| (*client, *code))
            .collect::<Vec<_>>(),
        [(5, ResponseCode::Success)]
    );
    assert_eq!(execution.machine.state(), SupervisorState::Exited);
    assert!(matches!(
        settle(&mut execution, &env, true),
        Progress::Finished(_)
    ));
    Ok(())
}

#[test]
fn failed_signals_tell_their_client() -> Result<(), String> {
    let config = service()?;
    let env = surroundings(&config);
    let (mut execution, generation) = running(&config);
    broker_actions(&mut execution);
    let mut hangup = request(Operation::Signal, GenerationMatch::Exact(generation));
    hangup.signal = Some(Signal::Hangup);
    ask(&mut execution, &env, hangup)?;
    execution.take_actions();
    observe(
        &mut execution,
        &env,
        ProcessBrokerEvent::SignalFailed {
            generation,
            os_error: Some(3),
        },
    )?;
    assert_eq!(
        answers(&mut execution),
        [(
            5,
            ResponseCode::Internal,
            "signal delivery failed with operating-system error 3".to_owned()
        )]
    );
    Ok(())
}

#[test]
fn conditions_gate_the_start() -> Result<(), String> {
    let mut config = service()?;
    config.start_condition = Some(immortal_core::config::StartConditionConfig {
        command: vec!["/bin/test".to_owned()],
        timeout_seconds: 5,
        backoff: immortal_core::config::ConditionBackoffConfig {
            initial_seconds: 2,
            max_seconds: 4,
            multiplier: 2,
            jitter_percent: 0,
        },
    });
    let mut env = surroundings(&config);
    env.commands = prepare_execution(&config, false).map_err(failed)?;
    assert!(env.commands.condition);
    assert!(!env.commands.post_exit);
    let mut execution = ExecutionContext::new(&config, &Vec::new(), false, NOW);
    execution.machine.set_desired(DesiredState::Up);
    settle(&mut execution, &env, true);
    handle_executor_event(&mut execution, &env, Some("api"), 9, ExecutorEvent::Timer)
        .map_err(failed)?;
    let task = match broker_actions(&mut execution).as_slice() {
        [BrokerAction::SpawnTask { task, .. }] => *task,
        other => panic!("unexpected work {other:?}"),
    };
    observe(&mut execution, &env, ProcessBrokerEvent::TaskStarted { task })?;
    observe(
        &mut execution,
        &env,
        ProcessBrokerEvent::TaskChild {
            task,
            event: exited(9, 1),
        },
    )?;
    assert_eq!(execution.next_deadline(), Some(NOW.plus_seconds(2)));

    env.now = NOW.plus_seconds(2);
    handle_executor_event(&mut execution, &env, Some("api"), 9, ExecutorEvent::Timer)
        .map_err(failed)?;
    let task = match broker_actions(&mut execution).as_slice() {
        [BrokerAction::SpawnTask { task: again, .. }] => {
            assert_ne!(*again, task);
            *again
        }
        other => panic!("unexpected work {other:?}"),
    };
    observe(&mut execution, &env, ProcessBrokerEvent::TaskStarted { task })?;
    observe(
        &mut execution,
        &env,
        ProcessBrokerEvent::TaskChild {
            task,
            event: exited(9, 0),
        },
    )?;
    handle_executor_event(&mut execution, &env, Some("api"), 9, ExecutorEvent::Timer)
        .map_err(failed)?;
    assert!(matches!(
        broker_actions(&mut execution).as_slice(),
        [BrokerAction::Spawn { .. }]
    ));
    Ok(())
}

#[test]
fn loggers_run_before_the_service_starts() -> Result<(), String> {
    let config = service()?;
    let env = surroundings(&config);
    let loggers = vec![BrokerLoggerId::shared_logger()];
    let mut execution = ExecutionContext::new(&config, &loggers, false, NOW);
    execution.machine.set_desired(DesiredState::Up);
    immortal_core::executor::logger::start_down_loggers(&mut execution, NOW).map_err(failed)?;
    let task = match broker_actions(&mut execution).as_slice() {
        [BrokerAction::SpawnLogger { task, logger, .. }] => {
            assert_eq!(*logger, BrokerLoggerId::shared_logger());
            *task
        }
        other => panic!("unexpected work {other:?}"),
    };
    assert!(matches!(
        settle(&mut execution, &env, true),
        Progress::Wait
    ));
    assert_eq!(execution.machine.state(), SupervisorState::Down);
    observe(&mut execution, &env, ProcessBrokerEvent::TaskStarted { task })?;
    settle(&mut execution, &env, true);
    assert_eq!(execution.machine.state(), SupervisorState::WaitingCondition);
    Ok(())
}

#[test]
fn tracked_services_stop_through_their_hook() -> Result<(), String> {
    let hook = |command: &str| immortal_core::config::CommandHook {
        command: vec![command.to_owned()],
        timeout_seconds: 3,
    };
    let mut config = service()?;
    config.process_mode = ProcessMode::DescriptorTracking;
    config.descriptor_tracking = Some(immortal_core::config::DescriptorTrackingConfig {
        stop: hook("/bin/stop"),
        reload: hook("/bin/reload"),
        lifetime_timeout_seconds: 4,
    });
    let mut env = surroundings(&config);
    env.commands = prepare_execution(&config, false).map_err(failed)?;
    assert_eq!(
        broker_lifetime_plan(&config, env.commands)
            .map_err(failed)?
            .map(|plan| (plan.stop_seconds, plan.lifetime_seconds)),
        Some((3, 4))
    );
    assert!(broker_lifetime_plan(&config, COMMANDS).is_err());

    let mut execution = ExecutionContext::new(&config, &Vec::new(), false, NOW);
    execution.machine.set_desired(DesiredState::Up);
    settle(&mut execution, &env, true);
    handle_executor_event(&mut execution, &env, Some("api"), 9, ExecutorEvent::Timer)
        .map_err(failed)?;
    let generation = match broker_actions(&mut execution).as_slice() {
        [BrokerAction::SpawnWithLifetime { generation, .. }] => *generation,
        other => panic!("unexpected work {other:?}"),
    };
    let process = ProcessId::new(4242).ok_or("invalid process")?;
    observe(
        &mut execution,
        &env,
        ProcessBrokerEvent::Started {
            generation,
            process,
            group: process,
        },
    )?;
    observe(
        &mut execution,
        &env,
        ProcessBrokerEvent::Child {
            generation,
            event: exited(4242, 0),
        },
    )?;
    assert_eq!(
        execution.machine.state(),
        SupervisorState::Ready(generation),
        "the launcher may end while the lifetime descriptor is open"
    );
    execution.take_actions();

    ask(
        &mut execution,
        &env,
        request(Operation::Stop, GenerationMatch::Exact(generation)),
    )?;
    let task = match broker_actions(&mut execution).as_slice() {
        [BrokerAction::SpawnTask { task, .. }] => *task,
        other => panic!("unexpected work {other:?}"),
    };
    observe(&mut execution, &env, ProcessBrokerEvent::TaskStarted { task })?;
    observe(
        &mut execution,
        &env,
        ProcessBrokerEvent::TaskChild {
            task,
            event: exited(77, 0),
        },
    )?;
    assert!(answers(&mut execution).is_empty());
    observe(
        &mut execution,
        &env,
        ProcessBrokerEvent::LifetimeClosed { generation },
    )?;
    assert_eq!(
        answers(&mut execution)
            .iter()
            .map(|(client, code, _)| (*client, *code))
            .collect::<Vec<_>>(),
        [(5, ResponseCode::Success)]
    );
    assert_eq!(execution.machine.state(), SupervisorState::Down);
    Ok(())
}

#[test]
fn startup_is_reported_once() -> Result<(), String> {
    let mut foreground = StartupReporter::Foreground;
    assert!(!foreground.notify_ready().map_err(failed)?);
    assert!(!foreground.fail_if_pending());
    let mut daemon = StartupReporter::Daemon { pending: true };
    assert!(daemon.notify_ready().map_err(failed)?);
    assert!(daemon.notify_ready().is_err());
    assert!(!daemon.fail_if_pending());
    let mut failing = StartupReporter::Daemon { pending: true };
    assert!(failing.fail_if_pending());
    assert!(!failing.fail_if_pending());

    let told = startup_fault(ExecutorError::ControlServerStopped, "rendered");
    assert_eq!(told.text, "rendered");
    let inner = immortal_core::fault::Fault {
        kind: immortal_core::fault::FaultKind::PermissionDenied,
        os_error: Some(13),
        text: "denied".to_owned(),
    };
    assert_eq!(
        startup_fault(ExecutorError::Daemon(inner.clone()), "rendered"),
        inner
    );
    Ok(())
}

// ---------------------------------------------------------------------------
// Preparation and teardown
// ---------------------------------------------------------------------------

#[test]
fn jitter_is_bounded_and_deterministic() {
    let broker = ProcessId::new(1).expect("positive process");
    assert_eq!(jittered_backoff_seed(100, 0, 7, broker), 100);
    let first = jittered_backoff_seed(100, 20, 7, broker);
    assert_eq!(first, jittered_backoff_seed(100, 20, 7, broker));
    for seed in 0..64 {
        let delay = jittered_backoff_seed(100, 20, seed, broker);
        assert!((80..=120).contains(&delay), "{delay}");
    }
}

#[test]
fn post_exit_hooks_learn_how_the_generation_ended() -> Result<(), String> {
    let generation = Generation::new(12).ok_or("invalid generation")?;
    let variables = post_exit_environment(PostExitContext {
        generation,
        result: ChildResult::Signaled(9),
        start_failed: false,
        readiness_failed: true,
    });
    let expected = [
        ("IMMORTAL_EXIT_KIND", "signal"),
        ("IMMORTAL_EXIT_STATUS", "9"),
        ("IMMORTAL_GENERATION", "12"),
        ("IMMORTAL_START_FAILED", "0"),
        ("IMMORTAL_READINESS_FAILED", "1"),
    ];
    assert_eq!(variables.len(), expected.len());
    for (found, wanted) in variables.iter().zip(expected) {
        assert_eq!((found.0.as_str(), found.1.as_str()), wanted);
    }
    Ok(())
}

#[test]
fn broker_startup_and_shutdown_are_checked() -> Result<(), String> {
    assert!(accept_ready(StartupObservation::Event(ProcessBrokerEvent::Ready)).is_ok());
    assert!(matches!(
        accept_ready(StartupObservation::TimedOut),
        Err(ExecutorError::BrokerTimedOut("startup"))
    ));
    assert!(matches!(
        accept_ready(StartupObservation::Event(ProcessBrokerEvent::ShutdownComplete)),
        Err(ExecutorError::UnexpectedBrokerEvent(_))
    ));
    assert!(shutdown_progress(Some(ProcessBrokerEvent::ShutdownComplete)).map_err(failed)?);
    assert!(matches!(
        shutdown_progress(Some(ProcessBrokerEvent::ShutdownFailed)),
        Err(ExecutorError::BrokerTimedOut("shutdown cleanup"))
    ));
    assert!(matches!(
        shutdown_progress(None),
        Err(ExecutorError::BrokerTimedOut("shutdown"))
    ));

    let broker = ProcessId::new(5).ok_or("invalid process")?;
    assert!(matches!(
        reap_step(Some(exited(5, 0)), broker, false),
        ReapStep::Ended(Ok(()))
    ));
    assert!(matches!(
        reap_step(Some(exited(5, 1)), broker, false),
        ReapStep::Ended(Err(ExecutorError::BrokerExited(_)))
    ));
    assert!(matches!(
        reap_step(Some(exited(6, 0)), broker, false),
        ReapStep::Poll
    ));
    assert!(matches!(reap_step(None, broker, true), ReapStep::Kill));
    Ok(())
}

#[test]
fn failures_are_summarized() {
    assert_eq!(
        ExecutorError::Unsupported("time travel").summary(),
        "foreground supervision does not yet support time travel"
    );
    assert_eq!(
        ExecutorError::BrokerTimedOut("startup").summary(),
        "process broker timed out during startup"
    );
    assert_eq!(
        ExecutorError::ControlServerStopped.summary(),
        "authenticated control server stopped unexpectedly"
    );
}

#[test]
fn preparation_names_adapters_and_the_service() -> Result<(), String> {
    let mut config = service()?;
    assert!(validate_supported(&config, false).is_ok());
    assert_eq!(prepare_execution(&config, false).map_err(failed)?, COMMANDS);
    assert!(broker_lifetime_plan(&config, COMMANDS)
        .map_err(failed)?
        .is_none());
    let program = logger_adapter_program(None, Some(&UnixPath::from_text("/usr/sbin")))
        .map_err(|fault| fault.text)?;
    assert_eq!(program, UnixPath::from_text("/usr/sbin/immortallog"));
    assert!(logger_adapter_program(None, None).is_err());

    config.logging.logger = Some(vec!["logger".to_owned()]);
    let prepared = prepare_logging(&config, Some(&UnixPath::from_text("/usr/sbin")))
        .map_err(failed)?;
    assert_eq!(prepared.logger, Some(vec!["logger".to_owned()]));
    assert_eq!(prepared.loggers, [BrokerLoggerId::shared_logger()]);
    assert!(prepared.adapters.is_empty());
    assert!(!needs_executable_directory(&config));
    let destination = immortal_core::config::FileLogConfig {
        file: UnixPath::from_text("/var/log/api.log"),
        max_age_seconds: None,
        keep: None,
        max_bytes: None,
        timestamp: false,
    };
    config.logging.files = Some(immortal_core::config::FileLogRoutes::Combined(destination));
    assert!(needs_executable_directory(&config));
    config.logging.file_adapter = Some(UnixPath::from_text("/opt/immortallog"));
    assert!(!needs_executable_directory(&config));
    let prepared = prepare_logging(&config, None).map_err(failed)?;
    assert_eq!(
        prepared.adapters.first().map(|adapter| adapter.program.clone()),
        Some(UnixPath::from_text("/opt/immortallog"))
    );

    assert_eq!(
        service_name_of(&UnixPath::from_text("/run/immortal/api")).map_err(failed)?,
        "api"
    );
    assert!(service_name_of(&UnixPath::from_text("/")).is_err());
    config.process_mode = ProcessMode::DescriptorTracking;
    assert!(broker_lifetime_plan(&config, COMMANDS).is_ok_and(|plan| plan.is_none()));
    Ok(())
}

#[test]
fn file_adapters_receive_their_limits() {
    let file = immortal_core::config::FileLogConfig {
        file: UnixPath::from_text("/var/log/api.log"),
        max_age_seconds: Some(60),
        keep: Some(7),
        max_bytes: None,
        timestamp: true,
    };
    let arguments: Vec<String> = prepare_file_adapter(&file, true)
        .into_iter()
        .map(|argument| String::from_utf8(argument).expect("UTF-8 argument"))
        .collect();
    assert_eq!(
        arguments,
        [
            "--max-age",
            "60",
            "--keep",
            "7",
            "--timestamp",
            "--passthrough",
            "/var/log/api.log"
        ]
    );
}
