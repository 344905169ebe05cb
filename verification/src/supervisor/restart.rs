//! Restart, crash-loop, and start-condition policy.
//!
//! Delays grow exponentially with the failure streak up to a configured bound;
//! a sufficiently long run ends the streak. Configured limits turn a further
//! restart into a failure, or into a supervisor exit when that was requested.

use vstd::arithmetic::mul::*;
use vstd::arithmetic::power::*;
use vstd::prelude::*;

use crate::config::{RestartConfig, RestartLimits, RestartPolicy, StartConditionConfig};

use super::machine::{DesiredState, FailureReason, RestartDecision};

verus! {

/// Result of one finished generation.
#[derive(Clone, Copy, Debug, PartialEq, Eq, Structural)]
pub enum ChildResult {
    /// The child exited with a status code.
    Exited(u8),
    /// The child was ended by a signal.
    Signaled(u8),
    /// A descriptor-tracked application closed its lifetime descriptor.
    LifetimeClosed,
    /// The lifetime descriptor could not be observed.
    LifetimeFailed,
}

impl ChildResult {
    /// Whether the result counts as a success under `restart`.
    pub open spec fn succeeds(self, restart: RestartConfig) -> bool {
        match self {
            ChildResult::Exited(code) => restart.success_exit_codes@.contains(code),
            ChildResult::Signaled(_) => false,
            ChildResult::LifetimeClosed => true,
            ChildResult::LifetimeFailed => false,
        }
    }

    /// Whether the result counts as a success under `restart`.
    #[must_use]
    pub fn is_success(self, restart: &RestartConfig) -> (success: bool)
        ensures
            success == self.succeeds(*restart),
    {
        broadcast use vstd::laws_cmp::group_laws_cmp;

        match self {
            ChildResult::Exited(code) => restart.success_exit_codes.contains(&code),
            ChildResult::Signaled(_) | ChildResult::LifetimeFailed => false,
            ChildResult::LifetimeClosed => true,
        }
    }
}

/// Smaller of two integers.
pub open spec fn smaller(left: int, right: int) -> int {
    if left <= right {
        left
    } else {
        right
    }
}

/// Exponential delay: `initial * multiplier ^ exponent`, never above `maximum`.
pub open spec fn exponential_delay(
    initial: u64,
    multiplier: u32,
    exponent: u32,
    maximum: u64,
) -> int {
    smaller(initial * pow(multiplier as int, exponent as nat), maximum as int)
}

/// Compute an exponential delay without overflowing.
pub fn backoff_delay(initial: u64, multiplier: u32, exponent: u32, maximum: u64) -> (delay: u64)
    ensures
        delay == exponential_delay(initial, multiplier, exponent, maximum),
{
    if exponent == 0 {
        proof {
            lemma_pow0(multiplier as int);
        }
        return if initial <= maximum {
            initial
        } else {
            maximum
        };
    }
    if multiplier == 0 {
        proof {
            lemma0_pow(exponent as nat);
        }
        return 0;
    }
    if multiplier == 1 {
        proof {
            lemma1_pow(exponent as nat);
        }
        return if initial <= maximum {
            initial
        } else {
            maximum
        };
    }
    if initial == 0 {
        return 0;
    }
    let mut delay: u64 = initial;
    let mut step: u32 = 0;
    proof {
        lemma_pow0(multiplier as int);
    }
    while step < exponent
        invariant
            step <= exponent,
            multiplier >= 2,
            delay >= 1,
            delay == initial * pow(multiplier as int, step as nat),
        decreases exponent - step,
    {
        let ghost power = pow(multiplier as int, step as nat);
        proof {
            lemma_pow_increases(multiplier as nat, step as nat, exponent as nat);
        }
        if delay >= maximum {
            assert(initial * pow(multiplier as int, exponent as nat) >= initial * power)
                by (nonlinear_arith)
                requires
                    pow(multiplier as int, exponent as nat) >= power,
                    initial >= 0,
            ;
            return maximum;
        }
        let product: u128 = mul_wide(delay, multiplier);
        proof {
            reveal(pow);
            assert(initial * pow(multiplier as int, (step + 1) as nat) == delay * multiplier) by {
                assert(pow(multiplier as int, (step + 1) as nat) == multiplier * power);
                assert(initial * (multiplier * power) == (initial * power) * multiplier)
                    by (nonlinear_arith);
            }
            lemma_pow_increases(multiplier as nat, (step + 1) as nat, exponent as nat);
            assert(initial * pow(multiplier as int, exponent as nat) >= initial * pow(
                multiplier as int,
                (step + 1) as nat,
            )) by (nonlinear_arith)
                requires
                    pow(multiplier as int, exponent as nat) >= pow(
                        multiplier as int,
                        (step + 1) as nat,
                    ),
                    initial >= 0,
            ;
        }
        if product >= maximum as u128 {
            return maximum;
        }
        assert(delay * multiplier >= 1) by (nonlinear_arith)
            requires
                delay >= 1,
                multiplier >= 2,
        ;
        delay = product as u64;
        step = step + 1;
    }
    if delay <= maximum {
        delay
    } else {
        maximum
    }
}

fn mul_wide(left: u64, right: u32) -> (product: u128)
    ensures
        product == left * right,
{
    assert(left * right <= u64::MAX * u32::MAX) by (nonlinear_arith)
        requires
            left <= u64::MAX,
            right <= u32::MAX,
    ;
    (left as u128) * (right as u128)
}

/// Whether a finished generation is restarted at all.
pub open spec fn restart_wanted(policy: RestartPolicy, success: bool) -> bool {
    match policy {
        RestartPolicy::Always => true,
        RestartPolicy::OnFailure => !success,
        RestartPolicy::Never => false,
    }
}

/// Pure view of the restart bookkeeping.
pub struct TrackerModel {
    /// Generations started so far.
    pub total_starts: u64,
    /// Restarts since the last sufficiently long run.
    pub streak: u32,
    /// Elapsed seconds of the starts still inside the rolling window.
    pub recent: Seq<u64>,
}

/// Whether a start at `started` is still inside a window ending at `elapsed`.
pub open spec fn inside_window(started: u64, elapsed: u64, window: u64) -> bool {
    started + window > elapsed
}

/// The starts which still count against a burst limit.
pub open spec fn window(recent: Seq<u64>, elapsed: u64, limits: RestartLimits) -> Seq<u64> {
    match limits.burst {
        Some(burst) => recent.filter(
            |started: u64| inside_window(started, elapsed, burst.window_seconds),
        ),
        None => Seq::empty(),
    }
}

/// The first configured limit which forbids one more restart.
pub open spec fn exhausted_limit(
    total_starts: u64,
    recent: Seq<u64>,
    elapsed: u64,
    limits: RestartLimits,
) -> Option<FailureReason> {
    if limits.max_retries matches Some(retries) && total_starts > retries {
        Some(FailureReason::RetryLimit)
    } else if limits.max_elapsed_seconds matches Some(seconds) && elapsed >= seconds {
        Some(FailureReason::ElapsedLimit)
    } else if limits.burst matches Some(burst) && recent.len() >= burst.starts {
        Some(FailureReason::BurstLimit)
    } else {
        None
    }
}

/// Streak with which a restart after `runtime` is delayed.
pub open spec fn streak_after(streak: u32, runtime: u64, reset_after: u64) -> u32 {
    if runtime >= reset_after {
        0
    } else {
        streak
    }
}

/// Saturating successor of a streak.
pub open spec fn next_streak(streak: u32) -> u32 {
    if streak == u32::MAX {
        streak
    } else {
        (streak + 1) as u32
    }
}

/// Decision and bookkeeping after one finished generation.
pub open spec fn restart_decision(
    model: TrackerModel,
    result: ChildResult,
    runtime_seconds: u64,
    elapsed_seconds: u64,
    desired: DesiredState,
    restart: RestartConfig,
) -> (RestartDecision, TrackerModel) {
    match desired {
        DesiredState::Down => (RestartDecision::StayDown, model),
        DesiredState::Once => (RestartDecision::StayDown, model),
        DesiredState::Halt => (RestartDecision::ExitSupervisor, model),
        DesiredState::Exit => (RestartDecision::ExitSupervisor, model),
        DesiredState::Up => if !restart_wanted(restart.policy, result.succeeds(restart)) {
            (
                if restart.exit_when_done {
                    RestartDecision::ExitSupervisor
                } else {
                    RestartDecision::StayDown
                },
                model,
            )
        } else {
            let recent = window(model.recent, elapsed_seconds, restart.limits);
            let streak = streak_after(
                model.streak,
                runtime_seconds,
                restart.backoff.reset_after_seconds,
            );
            match exhausted_limit(model.total_starts, recent, elapsed_seconds, restart.limits) {
                Some(reason) => (
                    if restart.exit_when_done {
                        RestartDecision::ExitFailure(reason)
                    } else {
                        RestartDecision::Fail(reason)
                    },
                    TrackerModel { recent, ..model },
                ),
                None => (
                    RestartDecision::Restart {
                        base_delay_seconds: exponential_delay(
                            restart.backoff.initial_seconds,
                            restart.backoff.multiplier,
                            streak,
                            restart.backoff.max_seconds,
                        ) as u64,
                        jitter_percent: restart.backoff.jitter_percent,
                    },
                    TrackerModel { recent, streak: next_streak(streak), ..model },
                ),
            }
        },
    }
}

/// Restart bookkeeping of one supervised service.
#[derive(Debug)]
pub struct RestartTracker {
    total_starts: u64,
    streak: u32,
    recent: Vec<u64>,
}

impl View for RestartTracker {
    type V = TrackerModel;

    closed spec fn view(&self) -> TrackerModel {
        TrackerModel {
            total_starts: self.total_starts,
            streak: self.streak,
            recent: self.recent@,
        }
    }
}

impl Default for RestartTracker {
    fn default() -> (tracker: Self)
        ensures
            tracker@ == (TrackerModel { total_starts: 0, streak: 0, recent: Seq::empty() }),
    {
        RestartTracker { total_starts: 0, streak: 0, recent: Vec::new() }
    }
}

/// Bookkeeping after one start.
pub open spec fn start_recorded(model: TrackerModel, elapsed_seconds: u64) -> TrackerModel {
    TrackerModel {
        total_starts: if model.total_starts == u64::MAX {
            model.total_starts
        } else {
            (model.total_starts + 1) as u64
        },
        recent: model.recent.push(elapsed_seconds),
        ..model
    }
}

impl RestartTracker {
    /// Number of generation attempts, including failed exec handshakes.
    #[must_use]
    pub fn total_starts(&self) -> (starts: u64)
        ensures
            starts == self@.total_starts,
    {
        self.total_starts
    }

    /// Record one generation attempt.
    pub fn record_start(&mut self, elapsed_seconds: u64)
        ensures
            final(self)@ == start_recorded(old(self)@, elapsed_seconds),
    {
        self.total_starts = self.total_starts.saturating_add(1);
        self.recent.push(elapsed_seconds);
    }

    fn prune(&mut self, elapsed_seconds: u64, limits: &RestartLimits)
        ensures
            final(self)@ == (TrackerModel {
                recent: window(old(self)@.recent, elapsed_seconds, *limits),
                ..old(self)@
            }),
    {
        let mut kept: Vec<u64> = Vec::new();
        if let Some(burst) = limits.burst {
            let mut index: usize = 0;
            let ghost keep = |started: u64|
                inside_window(started, elapsed_seconds, burst.window_seconds);
            proof {
                reveal(Seq::filter);
                assert(self.recent@.take(0) =~= Seq::empty());
            }
            while index < self.recent.len()
                invariant
                    index <= self.recent@.len(),
                    kept@ == self.recent@.take(index as int).filter(keep),
                    keep == (|started: u64|
                        inside_window(started, elapsed_seconds, burst.window_seconds)),
                    *self == *old(self),
                decreases self.recent@.len() - index,
            {
                let started: u64 = self.recent[index];
                proof {
                    reveal(Seq::filter);
                    assert(self.recent@.take(index + 1).drop_last() =~= self.recent@.take(
                        index as int,
                    ));
                }
                if (started as u128) + (burst.window_seconds as u128) > (elapsed_seconds as u128) {
                    kept.push(started);
                }
                index = index + 1;
            }
            assert(self.recent@.take(index as int) =~= self.recent@);
        }
        self.recent = kept;
    }

    fn limit_reached(&self, elapsed_seconds: u64, limits: &RestartLimits) -> (reason: Option<
        FailureReason,
    >)
        ensures
            reason == exhausted_limit(
                self@.total_starts,
                self@.recent,
                elapsed_seconds,
                *limits,
            ),
    {
        if let Some(retries) = limits.max_retries {
            if self.total_starts > retries as u64 {
                return Some(FailureReason::RetryLimit);
            }
        }
        if let Some(seconds) = limits.max_elapsed_seconds {
            if elapsed_seconds >= seconds {
                return Some(FailureReason::ElapsedLimit);
            }
        }
        if let Some(burst) = limits.burst {
            if self.recent.len() >= burst.starts as usize {
                return Some(FailureReason::BurstLimit);
            }
        }
        None
    }

    /// Decide what follows one finished generation.
    pub fn decide(
        &mut self,
        result: ChildResult,
        runtime_seconds: u64,
        elapsed_seconds: u64,
        desired: DesiredState,
        restart: &RestartConfig,
    ) -> (decision: RestartDecision)
        ensures
            (decision, final(self)@) == restart_decision(
                old(self)@,
                result,
                runtime_seconds,
                elapsed_seconds,
                desired,
                *restart,
            ),
    {
        match desired {
            DesiredState::Down | DesiredState::Once => return RestartDecision::StayDown,
            DesiredState::Halt | DesiredState::Exit => return RestartDecision::ExitSupervisor,
            DesiredState::Up => {},
        }
        let success = result.is_success(restart);
        let wanted = match restart.policy {
            RestartPolicy::Always => true,
            RestartPolicy::OnFailure => !success,
            RestartPolicy::Never => false,
        };
        if !wanted {
            return if restart.exit_when_done {
                RestartDecision::ExitSupervisor
            } else {
                RestartDecision::StayDown
            };
        }
        self.prune(elapsed_seconds, &restart.limits);
        if let Some(reason) = self.limit_reached(elapsed_seconds, &restart.limits) {
            return if restart.exit_when_done {
                RestartDecision::ExitFailure(reason)
            } else {
                RestartDecision::Fail(reason)
            };
        }
        let streak: u32 = if runtime_seconds >= restart.backoff.reset_after_seconds {
            0
        } else {
            self.streak
        };
        self.streak = streak.saturating_add(1);
        RestartDecision::Restart {
            base_delay_seconds: backoff_delay(
                restart.backoff.initial_seconds,
                restart.backoff.multiplier,
                streak,
                restart.backoff.max_seconds,
            ),
            jitter_percent: restart.backoff.jitter_percent,
        }
    }
}

/// Delay before a failed start condition is evaluated again.
#[derive(Clone, Copy, Debug, PartialEq, Eq, Structural)]
pub struct ConditionRetry {
    /// Delay before jitter is applied.
    pub base_delay_seconds: u64,
    /// Permitted variation around the delay.
    pub jitter_percent: u8,
}

/// Failure streak of the start condition, kept apart from service attempts.
#[derive(Clone, Copy, Debug, PartialEq, Eq, Structural)]
pub struct ConditionTracker {
    /// Consecutive failed evaluations.
    pub streak: u32,
}

impl Default for ConditionTracker {
    fn default() -> (tracker: Self)
        ensures
            tracker.streak == 0,
    {
        ConditionTracker { streak: 0 }
    }
}

/// Delay after one more failed evaluation.
pub open spec fn condition_retry(streak: u32, condition: StartConditionConfig) -> ConditionRetry {
    ConditionRetry {
        base_delay_seconds: exponential_delay(
            condition.backoff.initial_seconds,
            condition.backoff.multiplier,
            streak,
            condition.backoff.max_seconds,
        ) as u64,
        jitter_percent: condition.backoff.jitter_percent,
    }
}

impl ConditionTracker {
    /// A passed condition ends the streak.
    pub fn passed(&mut self)
        ensures
            final(self).streak == 0,
    {
        self.streak = 0;
    }

    /// A failed condition is retried after a growing delay.
    pub fn failed(&mut self, condition: &StartConditionConfig) -> (retry: ConditionRetry)
        ensures
            retry == condition_retry(old(self).streak, *condition),
            final(self).streak == next_streak(old(self).streak),
    {
        let base_delay_seconds: u64 = backoff_delay(
            condition.backoff.initial_seconds,
            condition.backoff.multiplier,
            self.streak,
            condition.backoff.max_seconds,
        );
        self.streak = self.streak.saturating_add(1);
        ConditionRetry { base_delay_seconds, jitter_percent: condition.backoff.jitter_percent }
    }
}

/// A restart is never delayed beyond the configured maximum.
pub proof fn restart_delay_is_bounded(
    model: TrackerModel,
    result: ChildResult,
    runtime_seconds: u64,
    elapsed_seconds: u64,
    desired: DesiredState,
    restart: RestartConfig,
)
    ensures
        restart_decision(model, result, runtime_seconds, elapsed_seconds, desired, restart).0
            matches RestartDecision::Restart { base_delay_seconds, .. } ==> base_delay_seconds
            <= restart.backoff.max_seconds,
{
    let streak = streak_after(model.streak, runtime_seconds, restart.backoff.reset_after_seconds);
    lemma_delay_is_natural(
        restart.backoff.initial_seconds,
        restart.backoff.multiplier,
        streak,
        restart.backoff.max_seconds,
    );
}

/// An exponential delay is a natural number below its bound.
pub proof fn lemma_delay_is_natural(
    initial: u64,
    multiplier: u32,
    exponent: u32,
    maximum: u64,
)
    ensures
        0 <= exponential_delay(initial, multiplier, exponent, maximum) <= maximum,
{
    if multiplier == 0 {
        if exponent == 0 {
            lemma_pow0(multiplier as int);
        } else {
            lemma0_pow(exponent as nat);
        }
    } else {
        lemma_pow_positive(multiplier as int, exponent as nat);
    }
    assert(initial * pow(multiplier as int, exponent as nat) >= 0) by (nonlinear_arith)
        requires
            pow(multiplier as int, exponent as nat) >= 0,
            initial >= 0,
    ;
}

/// Without configured limits, restarting never ends in a failure.
pub proof fn unlimited_restarts_never_fail(
    model: TrackerModel,
    result: ChildResult,
    runtime_seconds: u64,
    elapsed_seconds: u64,
    desired: DesiredState,
    restart: RestartConfig,
)
    requires
        restart.limits == RestartLimits::unbounded(),
    ensures
        ({
            let decision = restart_decision(
                model,
                result,
                runtime_seconds,
                elapsed_seconds,
                desired,
                restart,
            ).0;
            !(decision is Fail) && !(decision is ExitFailure)
        }),
{
}

/// Retry until success: under the `on-failure` policy without limits, a service
/// which should run is restarted exactly after a result which is no success.
pub proof fn failures_are_retried_until_success(
    model: TrackerModel,
    result: ChildResult,
    runtime_seconds: u64,
    elapsed_seconds: u64,
    restart: RestartConfig,
)
    requires
        restart.policy == RestartPolicy::OnFailure,
        restart.limits == RestartLimits::unbounded(),
    ensures
        restart_decision(
            model,
            result,
            runtime_seconds,
            elapsed_seconds,
            DesiredState::Up,
            restart,
        ).0 is Restart <==> !result.succeeds(restart),
{
}

// ---------------------------------------------------------------------------
// What each policy promises
// ---------------------------------------------------------------------------

/// A code listed as a success and a closed lifetime succeed; every other code,
/// every signal, and a failed lifetime do not.
pub proof fn results_are_judged_by_their_kind(result: ChildResult, restart: RestartConfig)
    ensures
        result is LifetimeClosed ==> result.succeeds(restart),
        result is LifetimeFailed ==> !result.succeeds(restart),
        result is Signaled ==> !result.succeeds(restart),
        result matches ChildResult::Exited(code) ==> (result.succeeds(restart)
            <==> restart.success_exit_codes@.contains(code)),
{
}

/// The `always` policy without limits restarts a wanted service after every
/// result, successful or not.
pub proof fn always_restarts_after_every_result(
    model: TrackerModel,
    result: ChildResult,
    runtime_seconds: u64,
    elapsed_seconds: u64,
    restart: RestartConfig,
)
    requires
        restart.policy is Always,
        restart.limits.max_retries is None,
        restart.limits.max_elapsed_seconds is None,
        restart.limits.burst is None,
    ensures
        restart_decision(
            model,
            result,
            runtime_seconds,
            elapsed_seconds,
            DesiredState::Up,
            restart,
        ).0 is Restart,
{
}

/// The `never` policy never restarts, whatever the result and the limits are, and
/// never counts as a failure: a wanted service is done.
pub proof fn never_restarts_nothing(
    model: TrackerModel,
    result: ChildResult,
    runtime_seconds: u64,
    elapsed_seconds: u64,
    desired: DesiredState,
    restart: RestartConfig,
)
    requires
        restart.policy is Never,
    ensures
        ({
            let (decision, after) = restart_decision(
                model,
                result,
                runtime_seconds,
                elapsed_seconds,
                desired,
                restart,
            );
            &&& decision is StayDown || decision is ExitSupervisor
            &&& after == model
            &&& desired is Up ==> (decision is ExitSupervisor <==> restart.exit_when_done)
        }),
{
}

/// The `on-failure` policy never restarts after a success, and otherwise treats a
/// failure exactly as the `always` policy does.
pub proof fn on_failure_restarts_exactly_failures(
    model: TrackerModel,
    result: ChildResult,
    runtime_seconds: u64,
    elapsed_seconds: u64,
    restart: RestartConfig,
    always: RestartConfig,
)
    requires
        restart.policy is OnFailure,
        always == (RestartConfig { policy: RestartPolicy::Always, ..restart }),
    ensures
        ({
            let decided = restart_decision(
                model,
                result,
                runtime_seconds,
                elapsed_seconds,
                DesiredState::Up,
                restart,
            );
            let unconditional = restart_decision(
                model,
                result,
                runtime_seconds,
                elapsed_seconds,
                DesiredState::Up,
                always,
            );
            let succeeded = match result {
                ChildResult::Exited(code) => restart.success_exit_codes@.contains(code),
                ChildResult::LifetimeClosed => true,
                _ => false,
            };
            &&& !succeeded ==> decided == unconditional
            &&& succeeded ==> decided.1 == model && decided.0 == (if restart.exit_when_done {
                RestartDecision::ExitSupervisor
            } else {
                RestartDecision::StayDown
            })
        }),
{
}

/// Operator intent outranks every policy: only a service which should be up is
/// ever restarted or failed, a service which should be down or ran once stays
/// down, and a supervisor which should end ends successfully.
pub proof fn intent_outranks_policy(
    model: TrackerModel,
    result: ChildResult,
    runtime_seconds: u64,
    elapsed_seconds: u64,
    desired: DesiredState,
    restart: RestartConfig,
)
    requires
        !(desired is Up),
    ensures
        ({
            let (decision, after) = restart_decision(
                model,
                result,
                runtime_seconds,
                elapsed_seconds,
                desired,
                restart,
            );
            &&& after == model
            &&& desired is Down || desired is Once ==> decision is StayDown
            &&& desired is Halt || desired is Exit ==> decision is ExitSupervisor
        }),
{
}

/// A restart is decided only inside every configured limit: no more starts than
/// the permitted retries and the first start, less time than permitted, and fewer
/// starts inside the rolling window than a burst permits.
pub proof fn restarts_stay_inside_every_limit(
    model: TrackerModel,
    result: ChildResult,
    runtime_seconds: u64,
    elapsed_seconds: u64,
    desired: DesiredState,
    restart: RestartConfig,
)
    requires
        restart_decision(model, result, runtime_seconds, elapsed_seconds, desired, restart).0
            is Restart,
    ensures
        restart.limits.max_retries matches Some(retries) ==> model.total_starts < 1 + retries,
        restart.limits.max_elapsed_seconds matches Some(seconds) ==> elapsed_seconds < seconds,
        restart.limits.burst matches Some(burst) ==> model.recent.filter(
            |started: u64| elapsed_seconds < started + burst.window_seconds,
        ).len() < burst.starts,
{
    if let Some(burst) = restart.limits.burst {
        lemma_window_is_its_filter(model.recent, elapsed_seconds, burst.window_seconds);
    }
}

proof fn lemma_window_is_its_filter(recent: Seq<u64>, elapsed: u64, seconds: u64)
    ensures
        recent.filter(|started: u64| inside_window(started, elapsed, seconds)) == recent.filter(
            |started: u64| elapsed < started + seconds,
        ),
    decreases recent.len(),
{
    reveal(Seq::filter);
    if recent.len() > 0 {
        lemma_window_is_its_filter(recent.drop_last(), elapsed, seconds);
    }
}

/// A limit ends supervision exactly when it is reached, and the reason names a
/// limit which really was: an `always` service which should be up is either
/// restarted or failed for that reason, never quietly left down.
pub proof fn failures_name_a_reached_limit(
    model: TrackerModel,
    result: ChildResult,
    runtime_seconds: u64,
    elapsed_seconds: u64,
    restart: RestartConfig,
)
    requires
        restart.policy is Always,
    ensures
        ({
            let decision = restart_decision(
                model,
                result,
                runtime_seconds,
                elapsed_seconds,
                DesiredState::Up,
                restart,
            ).0;
            let limits = restart.limits;
            let retried = limits.max_retries matches Some(retries) && model.total_starts >= 1
                + retries;
            let elapsed = limits.max_elapsed_seconds matches Some(seconds) && seconds
                <= elapsed_seconds;
            let burst = limits.burst matches Some(burst) && burst.starts <= model.recent.filter(
                |started: u64| elapsed_seconds < started + burst.window_seconds,
            ).len();
            let reason = match decision {
                RestartDecision::Fail(reason) => Some(reason),
                RestartDecision::ExitFailure(reason) => Some(reason),
                _ => None,
            };
            &&& decision is Restart <==> !(retried || elapsed || burst)
            &&& !(decision is Restart) ==> reason is Some
            &&& decision is ExitFailure ==> restart.exit_when_done
            &&& decision is Fail ==> !restart.exit_when_done
            &&& reason == Some(FailureReason::RetryLimit) ==> retried
            &&& reason == Some(FailureReason::ElapsedLimit) ==> elapsed
            &&& reason == Some(FailureReason::BurstLimit) ==> burst
            &&& reason != Some(FailureReason::LoggerRetryLimit)
        }),
{
    if let Some(burst) = restart.limits.burst {
        lemma_window_is_its_filter(model.recent, elapsed_seconds, burst.window_seconds);
    }
}

/// The first restart of a streak waits the initial delay, and a sufficiently long
/// run starts a new streak.
pub proof fn streaks_begin_with_the_initial_delay(
    model: TrackerModel,
    result: ChildResult,
    runtime_seconds: u64,
    elapsed_seconds: u64,
    desired: DesiredState,
    restart: RestartConfig,
)
    requires
        model.streak == 0 || restart.backoff.reset_after_seconds <= runtime_seconds,
    ensures
        ({
            let (decision, after) = restart_decision(
                model,
                result,
                runtime_seconds,
                elapsed_seconds,
                desired,
                restart,
            );
            decision matches RestartDecision::Restart { base_delay_seconds, jitter_percent } ==> {
                &&& base_delay_seconds <= restart.backoff.initial_seconds
                &&& base_delay_seconds <= restart.backoff.max_seconds
                &&& base_delay_seconds == restart.backoff.initial_seconds || base_delay_seconds
                    == restart.backoff.max_seconds
                &&& jitter_percent == restart.backoff.jitter_percent
                &&& after.streak == 1
            }
        }),
{
    lemma_pow0(restart.backoff.multiplier as int);
}

/// Inside a streak every further restart waits the multiplied delay, capped at the
/// maximum, and extends the streak by one.
pub proof fn delays_grow_by_the_multiplier(
    model: TrackerModel,
    longer: TrackerModel,
    result: ChildResult,
    runtime_seconds: u64,
    elapsed_seconds: u64,
    restart: RestartConfig,
)
    requires
        restart.policy is Always,
        restart.limits.max_retries is None,
        restart.limits.max_elapsed_seconds is None,
        restart.limits.burst is None,
        runtime_seconds < restart.backoff.reset_after_seconds,
        model.streak < u32::MAX,
        longer.streak == model.streak + 1,
    ensures
        ({
            let shorter = restart_decision(
                model,
                result,
                runtime_seconds,
                elapsed_seconds,
                DesiredState::Up,
                restart,
            );
            let further = restart_decision(
                longer,
                result,
                runtime_seconds,
                elapsed_seconds,
                DesiredState::Up,
                restart,
            );
            let delay = shorter.0->base_delay_seconds;
            let next = further.0->base_delay_seconds;
            let product = delay * restart.backoff.multiplier;
            &&& shorter.1.streak == longer.streak
            &&& next == product || next == restart.backoff.max_seconds
            &&& next <= product
            &&& next <= restart.backoff.max_seconds
        }),
{
    let initial = restart.backoff.initial_seconds;
    let multiplier = restart.backoff.multiplier as int;
    let maximum = restart.backoff.max_seconds;
    let power = pow(multiplier, model.streak as nat);
    let raised = pow(multiplier, longer.streak as nat);
    reveal(pow);
    assert(raised == multiplier * power);
    lemma_delay_is_natural(initial, restart.backoff.multiplier, model.streak, maximum);
    lemma_delay_is_natural(initial, restart.backoff.multiplier, longer.streak, maximum);
    assert(initial * raised == (initial * power) * multiplier) by (nonlinear_arith)
        requires
            raised == multiplier * power,
    ;
    if initial * power > maximum {
        if multiplier == 0 {
            assert(initial * raised == 0) by (nonlinear_arith)
                requires
                    initial * raised == (initial * power) * multiplier,
                    multiplier == 0,
            ;
            assert(maximum * multiplier == 0) by (nonlinear_arith)
                requires
                    multiplier == 0,
            ;
        } else {
            assert((initial * power) * multiplier >= initial * power) by (nonlinear_arith)
                requires
                    multiplier >= 1,
                    initial * power > maximum,
                    maximum >= 0,
            ;
            assert(maximum * multiplier >= maximum) by (nonlinear_arith)
                requires
                    multiplier >= 1,
                    maximum >= 0,
            ;
        }
    }
}

/// Every start is counted once, and remembered for the rolling window.
pub proof fn starts_are_counted(model: TrackerModel, elapsed_seconds: u64)
    requires
        model.total_starts < u64::MAX,
    ensures
        start_recorded(model, elapsed_seconds).total_starts == model.total_starts + 1,
        start_recorded(model, elapsed_seconds).recent.last() == elapsed_seconds,
        start_recorded(model, elapsed_seconds).recent.len() == model.recent.len() + 1,
        start_recorded(model, elapsed_seconds).recent.drop_last() == model.recent,
        start_recorded(model, elapsed_seconds).streak == model.streak,
{
    assert(start_recorded(model, elapsed_seconds).recent.drop_last() =~= model.recent);
}

/// Under a retry limit alone, a service which started once is restarted exactly as
/// often as the limit permits: the decision after `starts` starts is a restart
/// while no more than `retries` retries were used.
pub proof fn retries_count_restarts_only(
    starts: u64,
    model: TrackerModel,
    result: ChildResult,
    runtime_seconds: u64,
    elapsed_seconds: u64,
    restart: RestartConfig,
    retries: u32,
)
    requires
        restart.policy is Always,
        restart.limits.max_retries == Some(retries),
        restart.limits.max_elapsed_seconds is None,
        restart.limits.burst is None,
        model.total_starts == starts,
        starts >= 1,
    ensures
        restart_decision(
            model,
            result,
            runtime_seconds,
            elapsed_seconds,
            DesiredState::Up,
            restart,
        ).0 is Restart <==> starts - 1 < retries,
{
}

/// A failed condition is retried first after the initial delay, and then after the
/// multiplied delay, never beyond the maximum.
pub proof fn conditions_back_off(streak: u32, condition: StartConditionConfig)
    requires
        streak < u32::MAX,
    ensures
        condition_retry(streak, condition).base_delay_seconds <= condition.backoff.max_seconds,
        condition_retry(streak, condition).jitter_percent == condition.backoff.jitter_percent,
        condition_retry(0, condition).base_delay_seconds == (if condition.backoff.initial_seconds
            <= condition.backoff.max_seconds {
            condition.backoff.initial_seconds
        } else {
            condition.backoff.max_seconds
        }),
        ({
            let product = condition_retry(streak, condition).base_delay_seconds
                * condition.backoff.multiplier;
            let next = condition_retry((streak + 1) as u32, condition).base_delay_seconds;
            &&& next <= product
            &&& next == product || next == condition.backoff.max_seconds
        }),
{
    let initial = condition.backoff.initial_seconds;
    let multiplier = condition.backoff.multiplier as int;
    let maximum = condition.backoff.max_seconds;
    let power = pow(multiplier, streak as nat);
    let raised = pow(multiplier, (streak + 1) as nat);
    reveal(pow);
    lemma_pow0(multiplier);
    assert(raised == multiplier * power);
    lemma_delay_is_natural(initial, condition.backoff.multiplier, 0, maximum);
    lemma_delay_is_natural(initial, condition.backoff.multiplier, streak, maximum);
    lemma_delay_is_natural(initial, condition.backoff.multiplier, (streak + 1) as u32, maximum);
    assert(initial * raised == (initial * power) * multiplier) by (nonlinear_arith)
        requires
            raised == multiplier * power,
    ;
    if initial * power > maximum {
        if multiplier == 0 {
            assert(initial * raised == 0 && maximum * multiplier == 0) by (nonlinear_arith)
                requires
                    initial * raised == (initial * power) * multiplier,
                    multiplier == 0,
            ;
        } else {
            assert((initial * power) * multiplier >= initial * power && maximum * multiplier
                >= maximum) by (nonlinear_arith)
                requires
                    multiplier >= 1,
                    initial * power > maximum,
                    maximum >= 0,
            ;
        }
    }
}

} // verus!
