use vstd::prelude::*;

verus! {

/// serde_json's `Value`, declared so that a context can carry its payload;
/// nothing is assumed of it and nothing here reads it.
#[verifier::external_type_specification]
#[verifier::external_body]
pub struct ExJsonValue(serde_json::Value);

/// Snapshot of one trigger occurrence, shared read-only by every hook and
/// cascade of a chain.
pub struct HookContext {
    pub event: String,
    pub session_id: String,
    pub project_path: String,
    /// Event-specific payload, carried through unread.
    pub data: serde_json::Value,
}

/// Gate deciding whether a hook runs.
#[derive(Clone, Debug)]
pub struct ConditionalTrigger {
    pub condition: String,
    pub enabled: bool,
    /// Carried along; hooks run in list order regardless.
    pub priority: Option<i32>,
}

/// One configured hook.
#[derive(Clone, Debug)]
pub struct EnhancedHook {
    pub command: String,
    /// Seconds; `None` means the default.
    pub timeout: Option<u64>,
    /// Most retries after a failed attempt; `None` means none.
    pub retry: Option<u32>,
    pub condition: Option<ConditionalTrigger>,
    pub on_success: Option<Vec<String>>,
    pub on_failure: Option<Vec<String>>,
}

/// Outcome of one hook.
#[derive(Clone, Debug)]
pub struct HookExecutionResult {
    pub success: bool,
    pub output: String,
    pub error: Option<String>,
    pub execution_time_ms: u64,
    pub hook_command: String,
}

/// Aggregate outcome of one chain run.
#[derive(Clone, Debug)]
pub struct HookChainResult {
    pub event: String,
    pub total_hooks: usize,
    pub successful: usize,
    pub failed: usize,
    pub results: Vec<HookExecutionResult>,
    /// Whether the operation gated by the event may proceed.
    pub should_continue: bool,
}

/// A trigger as plain values.
pub struct TriggerView {
    pub condition: Seq<char>,
    pub enabled: bool,
    pub priority: Option<i32>,
}

/// A hook as plain values.
pub struct HookView {
    pub command: Seq<char>,
    pub timeout: Option<u64>,
    pub retry: Option<u32>,
    pub condition: Option<TriggerView>,
    pub on_success: Option<Seq<Seq<char>>>,
    pub on_failure: Option<Seq<Seq<char>>>,
}

/// A hook's result as plain values.
pub struct ResultView {
    pub success: bool,
    pub output: Seq<char>,
    pub error: Option<Seq<char>>,
    pub execution_time_ms: u64,
    pub hook_command: Seq<char>,
}

/// A chain's result as plain values.
pub struct ChainView {
    pub event: Seq<char>,
    pub total_hooks: nat,
    pub successful: nat,
    pub failed: nat,
    pub results: Seq<ResultView>,
    pub should_continue: bool,
}

/// View of an optional string.
pub open spec fn opt_text(o: Option<String>) -> Option<Seq<char>> {
    match o {
        Some(s) => Some(s@),
        None => None,
    }
}

/// View of an optional list of strings.
pub open spec fn opt_texts(o: Option<Vec<String>>) -> Option<Seq<Seq<char>>> {
    match o {
        Some(v) => Some(v.deep_view()),
        None => None,
    }
}

impl View for ConditionalTrigger {
    type V = TriggerView;

    open spec fn view(&self) -> TriggerView {
        TriggerView { condition: self.condition@, enabled: self.enabled, priority: self.priority }
    }
}

impl View for EnhancedHook {
    type V = HookView;

    open spec fn view(&self) -> HookView {
        HookView {
            command: self.command@,
            timeout: self.timeout,
            retry: self.retry,
            condition: match self.condition {
                Some(c) => Some(c@),
                None => None,
            },
            on_success: opt_texts(self.on_success),
            on_failure: opt_texts(self.on_failure),
        }
    }
}

impl View for HookExecutionResult {
    type V = ResultView;

    open spec fn view(&self) -> ResultView {
        ResultView {
            success: self.success,
            output: self.output@,
            error: opt_text(self.error),
            execution_time_ms: self.execution_time_ms,
            hook_command: self.hook_command@,
        }
    }
}

impl View for HookChainResult {
    type V = ChainView;

    open spec fn view(&self) -> ChainView {
        ChainView {
            event: self.event@,
            total_hooks: self.total_hooks as nat,
            successful: self.successful as nat,
            failed: self.failed as nat,
            results: self.results@.map_values(|r: HookExecutionResult| r@),
            should_continue: self.should_continue,
        }
    }
}

/// The views of a list of hooks.
pub open spec fn hooks_view(hooks: Seq<EnhancedHook>) -> Seq<HookView> {
    hooks.map_values(|h: EnhancedHook| h@)
}

/// A copy of a list of command strings.
pub fn copy_texts(v: &Vec<String>) -> (r: Vec<String>)
    ensures
        r.deep_view() == v.deep_view(),
{
    let mut r: Vec<String> = Vec::new();
    let mut i: usize = 0;
    while i < v.len()
        invariant
            i <= v@.len(),
            r@.len() == i,
            forall|k: int| 0 <= k < i ==> #[trigger] r@[k] == v@[k],
        decreases v@.len() - i,
    {
        r.push(v[i].clone());
        i = i + 1;
    }
    assert(r.deep_view() =~= v.deep_view());
    r
}

fn copy_opt_texts(o: &Option<Vec<String>>) -> (r: Option<Vec<String>>)
    ensures
        opt_texts(r) == opt_texts(*o),
{
    match o {
        Some(v) => Some(copy_texts(v)),
        None => None,
    }
}

impl ConditionalTrigger {
    /// A copy of this trigger.
    pub fn copy(&self) -> (r: ConditionalTrigger)
        ensures
            r@ == self@,
    {
        ConditionalTrigger {
            condition: self.condition.clone(),
            enabled: self.enabled,
            priority: self.priority,
        }
    }
}

impl EnhancedHook {
    /// A copy of this hook.
    pub fn copy(&self) -> (r: EnhancedHook)
        ensures
            r@ == self@,
    {
        let condition = match &self.condition {
            Some(c) => Some(c.copy()),
            None => None,
        };
        EnhancedHook {
            command: self.command.clone(),
            timeout: self.timeout,
            retry: self.retry,
            condition,
            on_success: copy_opt_texts(&self.on_success),
            on_failure: copy_opt_texts(&self.on_failure),
        }
    }
}

/// A copy of a list of hooks.
pub fn copy_hooks(hooks: &Vec<EnhancedHook>) -> (r: Vec<EnhancedHook>)
    ensures
        hooks_view(r@) == hooks_view(hooks@),
{
    let mut r: Vec<EnhancedHook> = Vec::new();
    let mut i: usize = 0;
    while i < hooks.len()
        invariant
            i <= hooks@.len(),
            r@.len() == i,
            forall|k: int| 0 <= k < i ==> (#[trigger] r@[k])@ == hooks@[k]@,
        decreases hooks@.len() - i,
    {
        r.push(hooks[i].copy());
        i = i + 1;
    }
    assert(hooks_view(r@) =~= hooks_view(hooks@));
    r
}

} // verus!
