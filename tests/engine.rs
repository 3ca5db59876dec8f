use enhanced_hooks::{
    cascade_environment, chain_complete_channel, chain_result, condition_gate, empty_chain_result,
    evaluate_condition, hook_environment, next_step, parse_event, test_hook_condition,
    AttemptOutcome, ConditionalTrigger, EnhancedHook, HookError, HookEvent, HookExecutionResult,
    HookManager, HookStep, TriggerPlan, HookContext,
};

fn context(event: &str, session: &str) -> HookContext {
    HookContext {
        event: event.to_string(),
        session_id: session.to_string(),
        project_path: "/work/project".to_string(),
        data: serde_json::Value::Null,
    }
}

fn hook(command: &str, retry: Option<u32>) -> EnhancedHook {
    EnhancedHook {
        command: command.to_string(),
        timeout: None,
        retry,
        condition: None,
        on_success: None,
        on_failure: None,
    }
}

fn failed_exit() -> AttemptOutcome {
    AttemptOutcome::Exited { success: false, stdout: "partial".to_string(), stderr: "boom".to_string() }
}

/// Drives one hook to its end, every attempt coming to `outcome()`.
fn run_hook(h: &EnhancedHook, outcome: impl Fn() -> AttemptOutcome) -> (u32, Result<HookExecutionResult, HookError>, Vec<String>) {
    let mut retry_count = 0u32;
    let mut attempts = 0u32;
    loop {
        attempts += 1;
        match next_step(h, retry_count, outcome(), 5) {
            HookStep::Retry { retry_count: next, backoff_ms } => {
                assert_eq!(backoff_ms, 1000);
                assert_eq!(next, retry_count + 1);
                retry_count = next;
            }
            HookStep::Finished { result, cascades } => return (attempts, Ok(result), cascades),
            HookStep::Aborted(e) => return (attempts, Err(e), vec![]),
        }
    }
}

#[test]
fn event_names_round_trip() {
    let all = [
        HookEvent::PreToolUse, HookEvent::PostToolUse, HookEvent::Notification, HookEvent::Stop,
        HookEvent::SubagentStop, HookEvent::OnContextCompact, HookEvent::OnAgentSwitch,
        HookEvent::OnFileChange, HookEvent::OnSessionStart, HookEvent::OnSessionEnd,
        HookEvent::OnTabSwitch,
    ];
    for e in all {
        assert_eq!(parse_event(e.as_str()), Ok(e));
    }
    assert_eq!(HookEvent::OnContextCompact.as_str(), "OnContextCompact");
    assert_eq!(HookEvent::PreToolUse.as_str(), "PreToolUse");
}

#[test]
fn unknown_event_is_an_error() {
    assert_eq!(parse_event("OnLunch"), Err("Unknown hook event: OnLunch".to_string()));
    assert_eq!(parse_event(""), Err("Unknown hook event: ".to_string()));
    assert_eq!(parse_event("ontabswitch"), Err("Unknown hook event: ontabswitch".to_string()));
}

#[test]
fn event_condition_matches_event_field() {
    let c = context("OnContextCompact", "s1");
    assert!(evaluate_condition("event == 'OnContextCompact'", &c));
    assert!(evaluate_condition("  event==\"OnContextCompact\"  ", &c));
    assert!(evaluate_condition("event == ''OnContextCompact\"", &c));
    assert!(!evaluate_condition("event == 'OnTabSwitch'", &c));
    assert!(!evaluate_condition("event == 'OnContextCompact'", &context("OnTabSwitch", "s1")));
}

#[test]
fn session_condition_matches_session_field() {
    let c = context("Stop", "xyz");
    assert!(evaluate_condition("session_id == 'xyz'", &c));
    assert!(!evaluate_condition("session_id == 'abc'", &c));
}

#[test]
fn unknown_key_is_false() {
    let c = context("OnContextCompact", "s1");
    assert!(!evaluate_condition("project == 'OnContextCompact'", &c));
    assert!(!evaluate_condition("data.tokens == 5", &c));
}

#[test]
fn condition_without_operator_is_true() {
    let c = context("Stop", "s1");
    assert!(evaluate_condition("data.tokens > 100000", &c));
    assert!(evaluate_condition("", &c));
    assert!(evaluate_condition("event = 'Other'", &c));
}

#[test]
fn two_operators_are_false() {
    let c = context("a", "s1");
    assert!(!evaluate_condition("event == a == a", &c));
    assert!(!evaluate_condition("event ==== a", &c));
    // "===" splits into "event " and "= a", one operator
    assert!(evaluate_condition("event === a", &context("= a", "s")));
}

#[test]
fn test_hook_condition_passes_through() {
    let c = context("OnContextCompact", "s1");
    assert_eq!(test_hook_condition("event == 'OnContextCompact'", &c), Ok(true));
    assert_eq!(test_hook_condition("event == 'Stop'", &c), Ok(false));
    assert_eq!(test_hook_condition("anything", &c), Ok(true));
}

#[test]
fn gate_skips_hook_whose_condition_fails() {
    let c = context("Stop", "s1");
    let mut h = hook("echo hi", None);
    h.condition = Some(ConditionalTrigger { condition: "event == 'OnTabSwitch'".to_string(), enabled: true, priority: Some(3) });
    let r = condition_gate(&h, &c).expect("skipped");
    assert!(r.success);
    assert_eq!(r.output, "Skipped: condition not met");
    assert_eq!(r.error, None);
    assert_eq!(r.execution_time_ms, 0);
    assert_eq!(r.hook_command, "echo hi");
}

#[test]
fn gate_runs_hook_without_or_with_disabled_or_true_condition() {
    let c = context("Stop", "s1");
    let mut h = hook("echo hi", None);
    assert!(condition_gate(&h, &c).is_none());
    h.condition = Some(ConditionalTrigger { condition: "event == 'OnTabSwitch'".to_string(), enabled: false, priority: None });
    assert!(condition_gate(&h, &c).is_none());
    h.condition = Some(ConditionalTrigger { condition: "event == 'Stop'".to_string(), enabled: true, priority: None });
    assert!(condition_gate(&h, &c).is_none());
}

#[test]
fn success_keeps_stdout_and_runs_success_cascade() {
    let mut h = hook("make", Some(2));
    h.on_success = Some(vec!["notify ok".to_string(), "touch done".to_string()]);
    h.on_failure = Some(vec!["notify bad".to_string()]);
    let out = AttemptOutcome::Exited { success: true, stdout: "built\n".to_string(), stderr: "warn".to_string() };
    match next_step(&h, 0, out, 42) {
        HookStep::Finished { result, cascades } => {
            assert!(result.success);
            assert_eq!(result.output, "built\n");
            assert_eq!(result.error, None);
            assert_eq!(result.execution_time_ms, 42);
            assert_eq!(result.hook_command, "make");
            assert_eq!(cascades, vec!["notify ok".to_string(), "touch done".to_string()]);
        }
        other => panic!("unexpected step {:?}", other),
    }
}

#[test]
fn retry_bound_is_retry_plus_one_attempts() {
    for r in 0..4u32 {
        let h = hook("false", Some(r));
        let (attempts, result, _) = run_hook(&h, failed_exit);
        assert_eq!(attempts, r + 1);
        assert!(!result.unwrap().success);
    }
    let (attempts, _, _) = run_hook(&hook("false", None), failed_exit);
    assert_eq!(attempts, 1);
}

#[test]
fn exhausted_failure_reports_stderr_and_runs_failure_cascade() {
    let mut h = hook("exit 1", Some(1));
    h.on_success = Some(vec!["never".to_string()]);
    h.on_failure = Some(vec!["cleanup".to_string()]);
    let (attempts, result, cascades) = run_hook(&h, failed_exit);
    assert_eq!(attempts, 2);
    let result = result.unwrap();
    assert!(!result.success);
    assert_eq!(result.output, "");
    assert_eq!(result.error, Some("boom".to_string()));
    assert_eq!(result.hook_command, "exit 1");
    assert_eq!(cascades, vec!["cleanup".to_string()]);
}

#[test]
fn timeout_is_distinct_and_runs_no_cascade() {
    let mut h = hook("sleep 100", Some(3));
    h.on_failure = Some(vec!["cleanup".to_string()]);
    let (attempts, result, cascades) = run_hook(&h, || AttemptOutcome::TimedOut);
    assert_eq!(attempts, 1);
    assert!(matches!(result, Err(HookError::Timeout)));
    assert!(cascades.is_empty());
}

#[test]
fn spawn_and_wait_failures_abort() {
    let h = hook("x", Some(2));
    match next_step(&h, 0, AttemptOutcome::SpawnFailed("no bash".to_string()), 1) {
        HookStep::Aborted(e) => assert_eq!(e.message(), "Failed to spawn hook process: no bash"),
        other => panic!("unexpected step {:?}", other),
    }
    match next_step(&h, 1, AttemptOutcome::WaitFailed("eof".to_string()), 1) {
        HookStep::Aborted(e) => assert_eq!(e.message(), "Hook execution failed: eof"),
        other => panic!("unexpected step {:?}", other),
    }
}

#[test]
fn error_messages() {
    assert_eq!(HookError::Timeout.message(), "Hook execution timeout");
    assert_eq!(HookError::Spawn("denied".to_string()).message(), "Failed to spawn hook process: denied");
    assert_eq!(HookError::Wait("lost".to_string()).message(), "Hook execution failed: lost");
    assert_eq!(HookError::ContextEncoding("bad json".to_string()).message(), "bad json");
}

#[test]
fn defaults_of_timeout_and_retry() {
    let mut h = hook("x", None);
    assert_eq!(h.timeout_secs(), 30);
    assert_eq!(h.max_retries(), 0);
    h.timeout = Some(5);
    h.retry = Some(7);
    assert_eq!(h.timeout_secs(), 5);
    assert_eq!(h.max_retries(), 7);
}

#[test]
fn environments() {
    let c = context("OnFileChange", "s9");
    let env = hook_environment(&c, "{\"event\":\"OnFileChange\"}");
    assert_eq!(env, vec![
        ("HOOK_CONTEXT".to_string(), "{\"event\":\"OnFileChange\"}".to_string()),
        ("HOOK_EVENT".to_string(), "OnFileChange".to_string()),
        ("SESSION_ID".to_string(), "s9".to_string()),
        ("PROJECT_PATH".to_string(), "/work/project".to_string()),
    ]);
    assert_eq!(cascade_environment(&c), vec![
        ("SESSION_ID".to_string(), "s9".to_string()),
        ("PROJECT_PATH".to_string(), "/work/project".to_string()),
    ]);
    assert_eq!(chain_complete_channel("s9"), "hook-chain-complete:s9");
}

fn ok_result(command: &str, success: bool) -> Result<HookExecutionResult, HookError> {
    Ok(HookExecutionResult {
        success,
        output: String::new(),
        error: if success { None } else { Some("err".to_string()) },
        execution_time_ms: 3,
        hook_command: command.to_string(),
    })
}

#[test]
fn chain_counts_every_hook_in_order() {
    let hooks = vec![hook("a", None), hook("b", None), hook("c", None), hook("d", None)];
    let outcomes = vec![ok_result("a", true), ok_result("b", false), Err(HookError::Timeout), ok_result("d", true)];
    let r = chain_result(HookEvent::OnSessionStart, &hooks, &outcomes);
    assert_eq!(r.event, "OnSessionStart");
    assert_eq!(r.total_hooks, 4);
    assert_eq!(r.results.len(), 4);
    assert_eq!(r.successful, 2);
    assert_eq!(r.failed, 2);
    assert_eq!(r.successful + r.failed, r.total_hooks);
    assert!(r.should_continue);
    let cmds: Vec<&str> = r.results.iter().map(|x| x.hook_command.as_str()).collect();
    assert_eq!(cmds, vec!["a", "b", "c", "d"]);
    assert_eq!(r.results[2].error, Some("Hook execution timeout".to_string()));
    assert_eq!(r.results[2].execution_time_ms, 0);
    assert_eq!(r.results[2].output, "");
}

#[test]
fn pre_operation_failure_blocks() {
    let hooks = vec![hook("a", None), hook("b", None)];
    let r = chain_result(HookEvent::PreToolUse, &hooks, &vec![ok_result("a", true), ok_result("b", false)]);
    assert!(!r.should_continue);
    let r = chain_result(HookEvent::PreToolUse, &hooks, &vec![ok_result("a", true), ok_result("b", true)]);
    assert!(r.should_continue);
    let r = chain_result(HookEvent::PreToolUse, &hooks, &vec![ok_result("a", true), Err(HookError::Spawn("x".to_string()))]);
    assert!(!r.should_continue);
    let r = chain_result(HookEvent::PostToolUse, &hooks, &vec![ok_result("a", false), ok_result("b", false)]);
    assert!(r.should_continue);
}

#[test]
fn empty_chain_is_trivial() {
    for r in [chain_result(HookEvent::PreToolUse, &vec![], &vec![]), empty_chain_result(HookEvent::PreToolUse)] {
        assert_eq!(r.event, "PreToolUse");
        assert_eq!(r.total_hooks, 0);
        assert_eq!(r.successful, 0);
        assert_eq!(r.failed, 0);
        assert!(r.results.is_empty());
        assert!(r.should_continue);
    }
}

#[test]
fn exit_one_with_one_retry_scenario() {
    let h = hook("exit 1", Some(1));
    let (attempts, result, _) = run_hook(&h, failed_exit);
    assert_eq!(attempts, 2);
    let hooks = vec![h];
    let outcomes = vec![result];
    let r = chain_result(HookEvent::OnFileChange, &hooks, &outcomes);
    assert_eq!(r.results.len(), 1);
    assert!(!r.results[0].success);
    assert_eq!(r.failed, 1);
    assert!(r.should_continue);
    let r = chain_result(HookEvent::PreToolUse, &hooks, &outcomes);
    assert_eq!(r.failed, 1);
    assert!(!r.should_continue);
}

#[test]
fn manager_replaces_lists_and_snapshots() {
    let mut m = HookManager::new();
    match m.trigger(HookEvent::OnTabSwitch) {
        TriggerPlan::Done(r) => {
            assert_eq!(r.event, "OnTabSwitch");
            assert_eq!(r.total_hooks, 0);
            assert!(r.should_continue);
        }
        TriggerPlan::Run(_) => panic!("nothing registered"),
    }
    m.register_hooks(HookEvent::OnTabSwitch, vec![hook("a", None), hook("b", Some(1))]);
    m.register_hooks(HookEvent::OnTabSwitch, vec![hook("c", None)]);
    m.register_hooks(HookEvent::Stop, vec![hook("d", None)]);
    match m.trigger(HookEvent::OnTabSwitch) {
        TriggerPlan::Run(hs) => {
            assert_eq!(hs.len(), 1);
            assert_eq!(hs[0].command, "c");
        }
        TriggerPlan::Done(_) => panic!("hooks registered"),
    }
    assert_eq!(m.registered(HookEvent::Stop)[0].command, "d");
    assert!(m.registered(HookEvent::PreToolUse).is_empty());
    m.register_hooks(HookEvent::Stop, vec![]);
    assert!(matches!(m.trigger(HookEvent::Stop), TriggerPlan::Done(_)));
}
