use crate::event::{event_name, is_pre_operation, HookEvent};
use crate::executor::{error_message, HookError};
use crate::hook::{EnhancedHook, HookChainResult, HookExecutionResult, HookView, ResultView};
use vstd::prelude::*;
use vstd::string::StringExecFns;

verus! {

/// The result that a chain records for a hook, given what running it came to.
pub open spec fn recorded_result(h: HookView, o: Result<HookExecutionResult, HookError>) -> ResultView {
    match o {
        Ok(r) => r@,
        Err(e) => ResultView {
            success: false,
            output: Seq::empty(),
            error: Some(error_message(e)),
            execution_time_ms: 0,
            hook_command: h.command,
        },
    }
}

/// Number of successful results.
pub open spec fn count_successes(rs: Seq<ResultView>) -> nat
    decreases rs.len(),
{
    if rs.len() == 0 {
        0
    } else {
        count_successes(rs.drop_last()) + if rs.last().success {
            1nat
        } else {
            0nat
        }
    }
}

/// Whether the operation gated by `event` may proceed after `failed`
/// failures.
pub open spec fn continues(event: HookEvent, failed: nat) -> bool {
    !(is_pre_operation(event) && failed > 0)
}

/// Name of the channel on which a chain's completion is announced.
pub open spec fn completion_channel(session_id: Seq<char>) -> Seq<char> {
    "hook-chain-complete:"@ + session_id
}

/// Name of the channel on which a chain's completion is announced for a
/// session.
pub fn chain_complete_channel(session_id: &str) -> (r: String)
    ensures
        r@ == completion_channel(session_id@),
{
    String::from_str("hook-chain-complete:").concat(session_id)
}

impl HookExecutionResult {
    /// A copy of this result.
    pub fn copy(&self) -> (r: HookExecutionResult)
        ensures
            r@ == self@,
    {
        HookExecutionResult {
            success: self.success,
            output: self.output.clone(),
            error: match &self.error {
                Some(e) => Some(e.clone()),
                None => None,
            },
            execution_time_ms: self.execution_time_ms,
            hook_command: self.hook_command.clone(),
        }
    }
}

/// The result recorded for one hook of a chain.
pub fn record_outcome(hook: &EnhancedHook, outcome: &Result<HookExecutionResult, HookError>) -> (r:
    HookExecutionResult)
    ensures
        r@ == recorded_result(hook@, *outcome),
{
    match outcome {
        Ok(res) => res.copy(),
        Err(e) => HookExecutionResult {
            success: false,
            output: String::new(),
            error: Some(e.message()),
            execution_time_ms: 0,
            hook_command: hook.command.clone(),
        },
    }
}

/// Aggregates a chain run: `outcomes[i]` is what running `hooks[i]` came
/// to. Results keep the list order; an error becomes a failure result; the
/// gated operation is blocked exactly when the event is the pre-operation
/// event and some hook failed.
pub fn chain_result(
    event: HookEvent,
    hooks: &Vec<EnhancedHook>,
    outcomes: &Vec<Result<HookExecutionResult, HookError>>,
) -> (r: HookChainResult)
    requires
        outcomes@.len() == hooks@.len(),
    ensures
        r@.event == event_name(event),
        r@.total_hooks == hooks@.len(),
        r@.results.len() == hooks@.len(),
        forall|i: int|
            0 <= i < hooks@.len() ==> #[trigger] r@.results[i] == recorded_result(
                hooks@[i]@,
                outcomes@[i],
            ),
        r@.successful == count_successes(r@.results),
        r@.successful + r@.failed == r@.total_hooks,
        r@.should_continue == continues(event, r@.failed),
        hooks@.len() == 0 ==> r@.successful == 0 && r@.failed == 0 && r@.should_continue,
{
    let n = hooks.len();
    let mut results: Vec<HookExecutionResult> = Vec::new();
    let mut successful: usize = 0;
    let mut failed: usize = 0;
    let mut should_continue = true;
    let mut i: usize = 0;
    while i < n
        invariant
            n == hooks@.len(),
            outcomes@.len() == n,
            i <= n,
            results@.len() == i,
            forall|k: int|
                0 <= k < i ==> (#[trigger] results@[k])@ == recorded_result(
                    hooks@[k]@,
                    outcomes@[k],
                ),
            successful == count_successes(results@.map_values(|x: HookExecutionResult| x@)),
            successful + failed == i,
            should_continue == continues(event, failed as nat),
        decreases n - i,
    {
        let res = record_outcome(&hooks[i], &outcomes[i]);
        let ok = res.success;
        let ghost before = results@.map_values(|x: HookExecutionResult| x@);
        results.push(res);
        proof {
            assert(results@.map_values(|x: HookExecutionResult| x@).drop_last() =~= before);
        }
        if ok {
            successful = successful + 1;
        } else {
            failed = failed + 1;
            if event.is_pre_operation() {
                should_continue = false;
            }
        }
        i = i + 1;
    }
    HookChainResult {
        event: String::from_str(event.as_str()),
        total_hooks: n,
        successful,
        failed,
        results,
        should_continue,
    }
}

/// The result of a chain with no hooks.
pub fn empty_chain_result(event: HookEvent) -> (r: HookChainResult)
    ensures
        r@.event == event_name(event),
        r@.total_hooks == 0,
        r@.successful == 0,
        r@.failed == 0,
        r@.results.len() == 0,
        r@.should_continue,
{
    let results: Vec<HookExecutionResult> = Vec::new();
    proof {
        assert(results@.map_values(|x: HookExecutionResult| x@).len() == 0);
    }
    HookChainResult {
        event: String::from_str(event.as_str()),
        total_hooks: 0,
        successful: 0,
        failed: 0,
        results,
        should_continue: true,
    }
}

} // verus!
