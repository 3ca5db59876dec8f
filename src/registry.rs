use crate::chain::empty_chain_result;
use crate::event::{event_index, event_name, HookEvent, EVENT_COUNT};
use crate::hook::{copy_hooks, hooks_view, EnhancedHook, HookChainResult, HookView};
use vstd::prelude::*;

verus! {

/// Hooks registered programmatically, one list per event.
///
/// Registering replaces an event's list wholesale. Callers that share a
/// manager between tasks hold it behind a lock, taken only to register or
/// to snapshot, never while hooks run.
pub struct HookManager {
    registered_hooks: Vec<Vec<EnhancedHook>>,
}

/// What triggering an event calls for.
pub enum TriggerPlan {
    /// No hooks are registered: this is the chain's result.
    Done(HookChainResult),
    /// Run this snapshot of the registered hooks as a chain.
    Run(Vec<EnhancedHook>),
}

impl HookManager {
    pub closed spec fn wf(&self) -> bool {
        self.registered_hooks@.len() == EVENT_COUNT
    }

    /// The hooks registered for an event.
    pub closed spec fn hooks_of(&self, e: HookEvent) -> Seq<HookView> {
        hooks_view(self.registered_hooks@[event_index(e)]@)
    }

    /// A manager with no hooks registered.
    pub fn new() -> (r: HookManager)
        ensures
            r.wf(),
            forall|e: HookEvent| #[trigger] r.hooks_of(e).len() == 0,
    {
        let mut registered_hooks: Vec<Vec<EnhancedHook>> = Vec::new();
        let mut i: usize = 0;
        while i < EVENT_COUNT
            invariant
                i <= EVENT_COUNT,
                registered_hooks@.len() == i,
                forall|k: int| 0 <= k < i ==> (#[trigger] registered_hooks@[k])@.len() == 0,
            decreases EVENT_COUNT - i,
        {
            registered_hooks.push(Vec::new());
            i = i + 1;
        }
        let r = HookManager { registered_hooks };
        assert forall|e: HookEvent| #[trigger] r.hooks_of(e).len() == 0 by {
            assert(0 <= event_index(e) < EVENT_COUNT);
        }
        r
    }

    /// Replaces the hooks registered for `event`.
    pub fn register_hooks(&mut self, event: HookEvent, hooks: Vec<EnhancedHook>)
        requires
            old(self).wf(),
        ensures
            final(self).wf(),
            final(self).hooks_of(event) == hooks_view(hooks@),
            forall|e: HookEvent| e != event ==> #[trigger] final(self).hooks_of(e) == old(self).hooks_of(e),
    {
        let idx = event.index();
        let ghost h = hooks@;
        self.registered_hooks.set(idx, hooks);
        proof {
            assert forall|e: HookEvent| e != event implies #[trigger] self.hooks_of(e) == old(self).hooks_of(e) by {
                assert(event_index(e) != event_index(event)) by {
                    match e {
                        HookEvent::PreToolUse => {},
                        HookEvent::PostToolUse => {},
                        HookEvent::Notification => {},
                        HookEvent::Stop => {},
                        HookEvent::SubagentStop => {},
                        HookEvent::OnContextCompact => {},
                        HookEvent::OnAgentSwitch => {},
                        HookEvent::OnFileChange => {},
                        HookEvent::OnSessionStart => {},
                        HookEvent::OnSessionEnd => {},
                        HookEvent::OnTabSwitch => {},
                    }
                }
            }
        }
    }

    /// A copy of the hooks registered for `event`.
    pub fn registered(&self, event: HookEvent) -> (r: Vec<EnhancedHook>)
        requires
            self.wf(),
        ensures
            hooks_view(r@) == self.hooks_of(event),
    {
        copy_hooks(&self.registered_hooks[event.index()])
    }

    /// Decides what triggering `event` calls for: the trivial result where
    /// no hooks are registered, else a snapshot of them to run as a chain.
    pub fn trigger(&self, event: HookEvent) -> (r: TriggerPlan)
        requires
            self.wf(),
        ensures
            self.hooks_of(event).len() == 0 <==> r is Done,
            r matches TriggerPlan::Done(c) ==> (c@.event == event_name(event) && c@.total_hooks == 0
                && c@.successful == 0 && c@.failed == 0 && c@.results.len() == 0
                && c@.should_continue),
            r matches TriggerPlan::Run(hs) ==> hooks_view(hs@) == self.hooks_of(event),
    {
        let hooks = self.registered(event);
        if hooks.len() == 0 {
            TriggerPlan::Done(empty_chain_result(event))
        } else {
            TriggerPlan::Run(hooks)
        }
    }
}

} // verus!
