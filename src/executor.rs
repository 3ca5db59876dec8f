use crate::condition::{condition_holds, evaluate_condition};
use crate::hook::{
    copy_texts, EnhancedHook, HookContext, HookExecutionResult, HookView, ResultView,
};
use vstd::prelude::*;
use vstd::string::StringExecFns;

verus! {

/// Seconds a hook may run when it sets no timeout.
pub const DEFAULT_TIMEOUT_SECS: u64 = 30;

/// Pause before each retry, in milliseconds.
pub const RETRY_BACKOFF_MS: u64 = 1000;

/// Why a hook ended without a result.
#[derive(Clone, Debug)]
pub enum HookError {
    /// The process could not be created; carries the system's reason.
    Spawn(String),
    /// The deadline passed before the process exited.
    Timeout,
    /// Waiting for the process failed; carries the system's reason.
    Wait(String),
    /// The context could not be encoded for the process.
    ContextEncoding(String),
}

/// Text of an error, as reported in a failure result.
pub open spec fn error_message(e: HookError) -> Seq<char> {
    match e {
        HookError::Spawn(d) => "Failed to spawn hook process: "@ + d@,
        HookError::Timeout => "Hook execution timeout"@,
        HookError::Wait(d) => "Hook execution failed: "@ + d@,
        HookError::ContextEncoding(d) => d@,
    }
}

impl HookError {
    /// Text of this error.
    pub fn message(&self) -> (r: String)
        ensures
            r@ == error_message(*self),
    {
        match self {
            HookError::Spawn(d) => String::from_str("Failed to spawn hook process: ").concat(
                d.as_str(),
            ),
            HookError::Timeout => String::from_str("Hook execution timeout"),
            HookError::Wait(d) => String::from_str("Hook execution failed: ").concat(d.as_str()),
            HookError::ContextEncoding(d) => d.clone(),
        }
    }
}

/// What one attempt to run a hook's command came to.
#[derive(Debug)]
pub enum AttemptOutcome {
    /// The process exited; `success` is whether its status was zero.
    Exited { success: bool, stdout: String, stderr: String },
    /// The deadline passed first.
    TimedOut,
    /// The process could not be created.
    SpawnFailed(String),
    /// Waiting for the process failed.
    WaitFailed(String),
}

/// What the caller does after an attempt.
#[derive(Debug)]
pub enum HookStep {
    /// Pause `backoff_ms`, then run the whole command again with the given
    /// retry count.
    Retry { retry_count: u32, backoff_ms: u64 },
    /// The hook is done: run `cascades` in order, best effort, then report
    /// `result`.
    Finished { result: HookExecutionResult, cascades: Vec<String> },
    /// The hook ended in an error: no retry, no cascade.
    Aborted(HookError),
}

/// A step as plain values.
pub enum StepView {
    Retry { retry_count: nat, backoff_ms: u64 },
    Finished { result: ResultView, cascades: Seq<Seq<char>> },
    Aborted(HookError),
}

impl View for HookStep {
    type V = StepView;

    open spec fn view(&self) -> StepView {
        match self {
            HookStep::Retry { retry_count, backoff_ms } => StepView::Retry {
                retry_count: *retry_count as nat,
                backoff_ms: *backoff_ms,
            },
            HookStep::Finished { result, cascades } => StepView::Finished {
                result: result@,
                cascades: cascades.deep_view(),
            },
            HookStep::Aborted(e) => StepView::Aborted(*e),
        }
    }
}

/// Most retries a hook allows.
pub open spec fn max_retries(h: HookView) -> nat {
    match h.retry {
        Some(r) => r as nat,
        None => 0,
    }
}

/// Deadline of each attempt, in seconds.
pub open spec fn timeout_secs(h: HookView) -> u64 {
    match h.timeout {
        Some(t) => t,
        None => DEFAULT_TIMEOUT_SECS,
    }
}

/// A cascade list, absent meaning empty.
pub open spec fn cascade_list(o: Option<Seq<Seq<char>>>) -> Seq<Seq<char>> {
    match o {
        Some(v) => v,
        None => Seq::empty(),
    }
}

/// Whether a hook's condition lets it run in a context.
pub open spec fn hook_admitted(h: HookView, event: Seq<char>, session: Seq<char>) -> bool {
    match h.condition {
        Some(c) => !c.enabled || condition_holds(c.condition, event, session),
        None => true,
    }
}

/// Output of a hook that its condition skipped.
pub open spec fn skipped_output() -> Seq<char> {
    "Skipped: condition not met"@
}

/// The step that follows an attempt, `retry_count` retries having been made.
pub open spec fn expected_step(
    h: HookView,
    retry_count: nat,
    outcome: AttemptOutcome,
    elapsed_ms: u64,
) -> StepView {
    match outcome {
        AttemptOutcome::Exited { success, stdout, stderr } => {
            if success {
                StepView::Finished {
                    result: ResultView {
                        success: true,
                        output: stdout@,
                        error: None,
                        execution_time_ms: elapsed_ms,
                        hook_command: h.command,
                    },
                    cascades: cascade_list(h.on_success),
                }
            } else if retry_count < max_retries(h) {
                StepView::Retry { retry_count: retry_count + 1, backoff_ms: RETRY_BACKOFF_MS }
            } else {
                StepView::Finished {
                    result: ResultView {
                        success: false,
                        output: Seq::empty(),
                        error: Some(stderr@),
                        execution_time_ms: elapsed_ms,
                        hook_command: h.command,
                    },
                    cascades: cascade_list(h.on_failure),
                }
            }
        },
        AttemptOutcome::TimedOut => StepView::Aborted(HookError::Timeout),
        AttemptOutcome::SpawnFailed(d) => StepView::Aborted(HookError::Spawn(d)),
        AttemptOutcome::WaitFailed(d) => StepView::Aborted(HookError::Wait(d)),
    }
}

/// Every retry pauses for the fixed backoff, and a run whose attempts
/// each but the last led to a retry makes at most `retry + 1` attempts.
pub proof fn lemma_attempts_bounded(h: HookView, outcomes: Seq<AttemptOutcome>, elapsed: Seq<u64>)
    requires
        elapsed.len() == outcomes.len(),
        forall|i: int|
            0 <= i < outcomes.len() - 1 ==> #[trigger] expected_step(
                h,
                i as nat,
                outcomes[i],
                elapsed[i],
            ) is Retry,
    ensures
        outcomes.len() <= max_retries(h) + 1,
        forall|i: int|
            0 <= i < outcomes.len() && #[trigger] expected_step(
                h,
                i as nat,
                outcomes[i],
                elapsed[i],
            ) is Retry ==> expected_step(h, i as nat, outcomes[i], elapsed[i])->backoff_ms
                == RETRY_BACKOFF_MS,
{
    if outcomes.len() > max_retries(h) + 1 {
        let m = max_retries(h) as int;
        assert(expected_step(h, m as nat, outcomes[m], elapsed[m]) is Retry);
    }
}

/// A timeout ends the hook with the timeout error and no cascade, while a
/// failed exit with the retries used up runs the failure cascade.
pub proof fn lemma_timeout_runs_no_cascade(
    h: HookView,
    retry_count: nat,
    stdout: String,
    stderr: String,
    elapsed_ms: u64,
)
    requires
        retry_count >= max_retries(h),
    ensures
        expected_step(h, retry_count, AttemptOutcome::TimedOut, elapsed_ms) == StepView::Aborted(
            HookError::Timeout,
        ),
        expected_step(
            h,
            retry_count,
            AttemptOutcome::Exited { success: false, stdout, stderr },
            elapsed_ms,
        )->cascades == cascade_list(h.on_failure),
{
}

impl EnhancedHook {
    /// Most retries this hook allows.
    pub fn max_retries(&self) -> (r: u32)
        ensures
            r == max_retries(self@),
    {
        match self.retry {
            Some(r) => r,
            None => 0,
        }
    }

    /// Deadline of each attempt, in seconds.
    pub fn timeout_secs(&self) -> (r: u64)
        ensures
            r == timeout_secs(self@),
    {
        match self.timeout {
            Some(t) => t,
            None => DEFAULT_TIMEOUT_SECS,
        }
    }
}

/// The result of a hook that its condition skips, or `None` where the hook
/// is to run.
pub fn condition_gate(hook: &EnhancedHook, context: &HookContext) -> (r: Option<
    HookExecutionResult,
>)
    ensures
        r is None <==> hook_admitted(hook@, context.event@, context.session_id@),
        r is Some ==> r->Some_0@ == (ResultView {
            success: true,
            output: skipped_output(),
            error: None,
            execution_time_ms: 0,
            hook_command: hook.command@,
        }),
{
    match &hook.condition {
        Some(c) => {
            if c.enabled && !evaluate_condition(c.condition.as_str(), context) {
                Some(
                    HookExecutionResult {
                        success: true,
                        output: String::from_str("Skipped: condition not met"),
                        error: None,
                        execution_time_ms: 0,
                        hook_command: hook.command.clone(),
                    },
                )
            } else {
                None
            }
        },
        None => None,
    }
}

fn cascade_copy(o: &Option<Vec<String>>) -> (r: Vec<String>)
    ensures
        r.deep_view() == cascade_list(crate::hook::opt_texts(*o)),
{
    match o {
        Some(v) => copy_texts(v),
        None => {
            let r: Vec<String> = Vec::new();
            assert(r.deep_view() =~= Seq::<Seq<char>>::empty());
            r
        },
    }
}

/// Decides what follows an attempt of `hook`, `retry_count` retries having
/// been made and `elapsed_ms` having passed since the hook started.
pub fn next_step(hook: &EnhancedHook, retry_count: u32, outcome: AttemptOutcome, elapsed_ms: u64) -> (r:
    HookStep)
    requires
        retry_count <= max_retries(hook@),
    ensures
        r@ == expected_step(hook@, retry_count as nat, outcome, elapsed_ms),
{
    match outcome {
        AttemptOutcome::Exited { success, stdout, stderr } => {
            if success {
                HookStep::Finished {
                    result: HookExecutionResult {
                        success: true,
                        output: stdout,
                        error: None,
                        execution_time_ms: elapsed_ms,
                        hook_command: hook.command.clone(),
                    },
                    cascades: cascade_copy(&hook.on_success),
                }
            } else if retry_count < hook.max_retries() {
                HookStep::Retry { retry_count: retry_count + 1, backoff_ms: RETRY_BACKOFF_MS }
            } else {
                HookStep::Finished {
                    result: HookExecutionResult {
                        success: false,
                        output: String::new(),
                        error: Some(stderr),
                        execution_time_ms: elapsed_ms,
                        hook_command: hook.command.clone(),
                    },
                    cascades: cascade_copy(&hook.on_failure),
                }
            }
        },
        AttemptOutcome::TimedOut => HookStep::Aborted(HookError::Timeout),
        AttemptOutcome::SpawnFailed(d) => HookStep::Aborted(HookError::Spawn(d)),
        AttemptOutcome::WaitFailed(d) => HookStep::Aborted(HookError::Wait(d)),
    }
}

fn entry(name: &str, value: &str) -> (r: (String, String))
    ensures
        r.0@ == name@,
        r.1@ == value@,
{
    (String::from_str(name), String::from_str(value))
}

/// Environment of a hook's own command: the encoded context, the event
/// name, the session id and the project path.
pub fn hook_environment(context: &HookContext, context_json: &str) -> (r: Vec<(String, String)>)
    ensures
        r.deep_view() == seq![
            ("HOOK_CONTEXT"@, context_json@),
            ("HOOK_EVENT"@, context.event@),
            ("SESSION_ID"@, context.session_id@),
            ("PROJECT_PATH"@, context.project_path@),
        ],
{
    let r = vec![
        entry("HOOK_CONTEXT", context_json),
        entry("HOOK_EVENT", context.event.as_str()),
        entry("SESSION_ID", context.session_id.as_str()),
        entry("PROJECT_PATH", context.project_path.as_str()),
    ];
    assert(r.deep_view() =~= seq![
        ("HOOK_CONTEXT"@, context_json@),
        ("HOOK_EVENT"@, context.event@),
        ("SESSION_ID"@, context.session_id@),
        ("PROJECT_PATH"@, context.project_path@),
    ]);
    r
}

/// Environment of a cascade command: the session id and the project path.
pub fn cascade_environment(context: &HookContext) -> (r: Vec<(String, String)>)
    ensures
        r.deep_view() == seq![
            ("SESSION_ID"@, context.session_id@),
            ("PROJECT_PATH"@, context.project_path@),
        ],
{
    let r = vec![
        entry("SESSION_ID", context.session_id.as_str()),
        entry("PROJECT_PATH", context.project_path.as_str()),
    ];
    assert(r.deep_view() =~= seq![
        ("SESSION_ID"@, context.session_id@),
        ("PROJECT_PATH"@, context.project_path@),
    ]);
    r
}

} // verus!
