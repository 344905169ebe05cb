//! Lifecycle state, restart policy, and start-condition policy of one service.

pub mod machine;
pub mod restart;

pub use machine::{
    DesiredState, FailureReason, Generation, RestartDecision, StateMachine, SupervisorState,
    Transition, TransitionError,
};
pub use restart::{ChildResult, ConditionRetry, ConditionTracker, RestartTracker};
