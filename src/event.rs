use crate::text::text_eq;
use vstd::prelude::*;
use vstd::string::StringExecFns;

verus! {

/// The closed catalog of lifecycle events that trigger hook chains.
#[derive(Clone, Copy, Debug, PartialEq, Eq, Hash, Structural)]
pub enum HookEvent {
    PreToolUse,
    PostToolUse,
    Notification,
    Stop,
    SubagentStop,
    OnContextCompact,
    OnAgentSwitch,
    OnFileChange,
    OnSessionStart,
    OnSessionEnd,
    OnTabSwitch,
}

/// The stable identifier of an event.
pub open spec fn event_name(e: HookEvent) -> Seq<char> {
    match e {
        HookEvent::PreToolUse => "PreToolUse"@,
        HookEvent::PostToolUse => "PostToolUse"@,
        HookEvent::Notification => "Notification"@,
        HookEvent::Stop => "Stop"@,
        HookEvent::SubagentStop => "SubagentStop"@,
        HookEvent::OnContextCompact => "OnContextCompact"@,
        HookEvent::OnAgentSwitch => "OnAgentSwitch"@,
        HookEvent::OnFileChange => "OnFileChange"@,
        HookEvent::OnSessionStart => "OnSessionStart"@,
        HookEvent::OnSessionEnd => "OnSessionEnd"@,
        HookEvent::OnTabSwitch => "OnTabSwitch"@,
    }
}

/// Position of an event in the catalog.
pub open spec fn event_index(e: HookEvent) -> int {
    match e {
        HookEvent::PreToolUse => 0,
        HookEvent::PostToolUse => 1,
        HookEvent::Notification => 2,
        HookEvent::Stop => 3,
        HookEvent::SubagentStop => 4,
        HookEvent::OnContextCompact => 5,
        HookEvent::OnAgentSwitch => 6,
        HookEvent::OnFileChange => 7,
        HookEvent::OnSessionStart => 8,
        HookEvent::OnSessionEnd => 9,
        HookEvent::OnTabSwitch => 10,
    }
}

/// Number of events in the catalog.
pub const EVENT_COUNT: usize = 11;

/// The event whose chain gates the operation that follows it.
pub open spec fn is_pre_operation(e: HookEvent) -> bool {
    e == HookEvent::PreToolUse
}

/// Text of the error for an event name outside the catalog.
pub open spec fn unknown_event_message(name: Seq<char>) -> Seq<char> {
    "Unknown hook event: "@ + name
}

/// Distinct events have distinct identifiers.
pub proof fn lemma_event_names_distinct(a: HookEvent, b: HookEvent)
    ensures
        event_name(a) == event_name(b) ==> a == b,
{
    if event_name(a) == event_name(b) && a != b {
        reveal_strlit("PreToolUse");
        reveal_strlit("PostToolUse");
        reveal_strlit("Notification");
        reveal_strlit("Stop");
        reveal_strlit("SubagentStop");
        reveal_strlit("OnContextCompact");
        reveal_strlit("OnAgentSwitch");
        reveal_strlit("OnFileChange");
        reveal_strlit("OnSessionStart");
        reveal_strlit("OnSessionEnd");
        reveal_strlit("OnTabSwitch");
        assert(event_name(a).len() == event_name(b).len());
        assert(event_name(a)[0] == event_name(b)[0]);
        assert(event_name(a)[2] == event_name(b)[2]);
        assert(event_name(a)[3] == event_name(b)[3]);
    }
}

impl HookEvent {
    /// The stable identifier of this event.
    pub fn as_str(&self) -> (r: &'static str)
        ensures
            r@ == event_name(*self),
    {
        match self {
            HookEvent::PreToolUse => "PreToolUse",
            HookEvent::PostToolUse => "PostToolUse",
            HookEvent::Notification => "Notification",
            HookEvent::Stop => "Stop",
            HookEvent::SubagentStop => "SubagentStop",
            HookEvent::OnContextCompact => "OnContextCompact",
            HookEvent::OnAgentSwitch => "OnAgentSwitch",
            HookEvent::OnFileChange => "OnFileChange",
            HookEvent::OnSessionStart => "OnSessionStart",
            HookEvent::OnSessionEnd => "OnSessionEnd",
            HookEvent::OnTabSwitch => "OnTabSwitch",
        }
    }

    /// Position of this event in the catalog.
    pub fn index(&self) -> (r: usize)
        ensures
            r == event_index(*self),
            r < EVENT_COUNT,
    {
        match self {
            HookEvent::PreToolUse => 0,
            HookEvent::PostToolUse => 1,
            HookEvent::Notification => 2,
            HookEvent::Stop => 3,
            HookEvent::SubagentStop => 4,
            HookEvent::OnContextCompact => 5,
            HookEvent::OnAgentSwitch => 6,
            HookEvent::OnFileChange => 7,
            HookEvent::OnSessionStart => 8,
            HookEvent::OnSessionEnd => 9,
            HookEvent::OnTabSwitch => 10,
        }
    }

    /// Whether this is the event that gates a subsequent operation.
    pub fn is_pre_operation(&self) -> (r: bool)
        ensures
            r == is_pre_operation(*self),
    {
        match self {
            HookEvent::PreToolUse => true,
            _ => false,
        }
    }
}

/// Every event of the catalog, in catalog order.
pub fn all_events() -> (r: Vec<HookEvent>)
    ensures
        r@.len() == EVENT_COUNT,
        forall|i: int| 0 <= i < EVENT_COUNT ==> event_index(#[trigger] r@[i]) == i,
        forall|e: HookEvent| #[trigger] r@[event_index(e)] == e,
{
    let r = vec![
        HookEvent::PreToolUse,
        HookEvent::PostToolUse,
        HookEvent::Notification,
        HookEvent::Stop,
        HookEvent::SubagentStop,
        HookEvent::OnContextCompact,
        HookEvent::OnAgentSwitch,
        HookEvent::OnFileChange,
        HookEvent::OnSessionStart,
        HookEvent::OnSessionEnd,
        HookEvent::OnTabSwitch,
    ];
    proof {
        assert forall|e: HookEvent| #[trigger] r@[event_index(e)] == e by {
            match e {
                HookEvent::PreToolUse => {},
                HookEvent::PostToolUse => {},
                HookEvent::Notification => {},
                HookEvent::Stop => {},
                HookEvent::SubagentStop => {},
                HookEvent::OnContextCompact => {},
                HookEvent::OnAgentSwitch => {},
                HookEvent::OnFileChange => {},
                HookEvent::OnSessionStart => {},
                HookEvent::OnSessionEnd => {},
                HookEvent::OnTabSwitch => {},
            }
        }
    }
    r
}

/// Resolves an event identifier against the catalog.
pub fn parse_event(name: &str) -> (r: Result<HookEvent, String>)
    ensures
        r is Ok <==> exists|e: HookEvent| event_name(e) == name@,
        r is Ok ==> event_name(r->Ok_0) == name@,
        r is Err ==> r->Err_0@ == unknown_event_message(name@),
{
    let events = all_events();
    let mut i: usize = 0;
    while i < events.len()
        invariant
            events@.len() == EVENT_COUNT,
            forall|k: int| 0 <= k < EVENT_COUNT ==> event_index(#[trigger] events@[k]) == k,
            forall|e: HookEvent| #[trigger] events@[event_index(e)] == e,
            i <= events@.len(),
            forall|e: HookEvent| event_index(e) < i ==> event_name(e) != name@,
        decreases events@.len() - i,
    {
        let e = events[i];
        if text_eq(e.as_str(), name) {
            return Ok(e);
        }
        i = i + 1;
    }
    proof {
        assert forall|e: HookEvent| event_name(e) != name@ by {
            assert(0 <= event_index(e) < EVENT_COUNT);
        }
    }
    Err(String::from_str("Unknown hook event: ").concat(name))
}

} // verus!
