//! Event-driven hook engine: ordered chains of user-configured commands
//! triggered by lifecycle events, with conditional gating, retries,
//! timeouts and success/failure cascades.
//!
//! The library decides; the caller runs processes. Every decision (whether
//! a hook runs, what an attempt's outcome leads to, how a chain aggregates,
//! what the registry holds) is a verified function over plain values.

pub mod chain;
pub mod condition;
pub mod event;
pub mod executor;
pub mod git_stats;
pub mod hook;
pub mod registry;
pub mod review;
mod text;

pub use chain::{chain_complete_channel, chain_result, empty_chain_result};
pub use condition::{evaluate_condition, test_hook_condition};
pub use event::{parse_event, HookEvent};
pub use executor::{
    cascade_environment, condition_gate, hook_environment, next_step, AttemptOutcome, HookError,
    HookStep,
};
pub use git_stats::{parse_numstat, GitDiffStats};
pub use hook::{
    ConditionalTrigger, EnhancedHook, HookChainResult, HookContext, HookExecutionResult,
};
pub use registry::{HookManager, TriggerPlan};
pub use review::{review_disabled_decision, CommitDecision};
